//! Builder methods alone: one method per field that sets the field, for
//! types that are no SQL model.

use crate::decl::{all_named, check_all_named, Body, Declaration, FieldDecl, MacroError};
use crate::fragments::{
    assign_method, assign_render, inherent_block, ASSIGN_BODY, ASSIGN_BOUND, ASSIGN_CLOSE,
    ASSIGN_OPEN, IMPL_BODY_CLOSE, IMPL_BODY_OPEN, IMPL_OPEN,
};
use crate::text::concatenated;
use vstd::prelude::*;

verus! {

/// A field by name and declared type.
pub struct FieldModel {
    pub ident: Seq<char>,
    pub ty: Seq<char>,
}

/// The name and type of each field, in declared order.
pub open spec fn field_models(fields: Seq<FieldDecl>) -> Seq<FieldModel> {
    fields.map_values(
        |f: FieldDecl| FieldModel { ident: crate::decl::field_ident(f), ty: f.ty@ },
    )
}

/// The texts that a renderer gives for each field, with the field's
/// position, name and declared type.
pub open spec fn per_field(
    fields: Seq<FieldModel>,
    render: spec_fn(int, Seq<char>, Seq<char>) -> Seq<char>,
) -> Seq<Seq<char>> {
    Seq::new(fields.len(), |i: int| render(i, fields[i].ident, fields[i].ty))
}

/// The builder methods of all fields, in declared order.
pub open spec fn assign_methods(fields: Seq<FieldModel>) -> Seq<char> {
    concatenated(per_field(fields, assign_render()))
}

/// The fields of a declaration that can have builder methods: those of a
/// struct, if each has a name.
pub open spec fn assignable_fields(dvi: Declaration) -> Result<Seq<FieldModel>, MacroError> {
    match dvi.body {
        Body::Struct { style, fields } => if all_named(fields@) {
            Ok(field_models(fields@))
        } else {
            Err(MacroError::UnnamedField)
        },
        Body::Enum => Err(MacroError::NotAStruct),
        Body::Union => Err(MacroError::NotAStruct),
    }
}

/// The text generated for a declaration: an `impl` block with the builder
/// methods of its fields.
pub open spec fn quick_assign_of(dvi: Declaration) -> Result<Seq<char>, MacroError> {
    match assignable_fields(dvi) {
        Ok(fields) => Ok(inherent_block(dvi.ident@, assign_methods(fields))),
        Err(e) => Err(e),
    }
}

/// One field with a builder method.
#[derive(Clone, Debug)]
pub struct Column {
    /// The field's name.
    pub ident: String,
    /// The field's declared type.
    pub ty: String,
}

impl View for Column {
    type V = FieldModel;

    open spec fn view(&self) -> FieldModel {
        FieldModel { ident: self.ident@, ty: self.ty@ }
    }
}

/// The models of a sequence of columns.
pub open spec fn column_models(cols: Seq<Column>) -> Seq<FieldModel> {
    cols.map_values(|c: Column| c@)
}

impl Column {
    /// The column of a named field.
    pub fn new(field: &FieldDecl) -> (r: Column)
        requires
            field.ident is Some,
        ensures
            r@ == (FieldModel { ident: field.ident->0@, ty: field.ty@ }),
    {
        let ident = match &field.ident {
            Some(s) => s.clone(),
            None => String::new(),
        };
        Column { ident, ty: field.ty.clone() }
    }
}

/// The fields that get a builder method, in declared order.
#[derive(Clone, Debug)]
pub struct Table {
    pub columns: Vec<Column>,
}

impl View for Table {
    type V = Seq<FieldModel>;

    open spec fn view(&self) -> Seq<FieldModel> {
        column_models(self.columns@)
    }
}

/// Puts together what `mapper` gives for each column, in declared order.
/// The mapper gets the column's position, name and declared type.
pub fn map_columns<M>(
    columns: &Vec<Column>,
    mapper: M,
    Ghost(render): Ghost<spec_fn(int, Seq<char>, Seq<char>) -> Seq<char>>,
) -> (r: String) where M: Fn(usize, &str, &str) -> String
    requires
        forall|i: usize, ident: &str, ty: &str| call_requires(mapper, (i, ident, ty)),
        forall|i: usize, ident: &str, ty: &str, o: String|
            call_ensures(mapper, (i, ident, ty), o) ==> o@ == render(i as int, ident@, ty@),
    ensures
        r@ == concatenated(per_field(column_models(columns@), render)),
{
    let ghost parts = per_field(column_models(columns@), render);
    let mut out = String::new();
    let mut i: usize = 0;
    while i < columns.len()
        invariant
            i <= columns.len(),
            parts == per_field(column_models(columns@), render),
            forall|i: usize, ident: &str, ty: &str| call_requires(mapper, (i, ident, ty)),
            forall|i: usize, ident: &str, ty: &str, o: String|
                call_ensures(mapper, (i, ident, ty), o) ==> o@ == render(i as int, ident@, ty@),
            out@ == concatenated(parts.take(i as int)),
        decreases columns.len() - i,
    {
        let piece = mapper(i, columns[i].ident.as_str(), columns[i].ty.as_str());
        proof {
            assert(parts.take(i + 1).drop_last() =~= parts.take(i as int));
            assert(parts.take(i + 1).last() == piece@);
        }
        out.append(piece.as_str());
        i += 1;
    }
    assert(parts.take(columns.len() as int) =~= parts);
    out
}

impl Table {
    /// A builder method for each field, named like the field.
    pub fn make_assign(&self) -> (r: String)
        ensures
            r@ == assign_methods(self@),
    {
        let mapper = |i: usize, ident: &str, ty: &str| -> (o: String)
            ensures
                o@ == assign_method(ident@, ty@),
            {
                let mut out = ASSIGN_OPEN.to_owned();
                out.append(ident);
                out.append(ASSIGN_BOUND);
                out.append(ty);
                out.append(ASSIGN_BODY);
                out.append(ident);
                out.append(ASSIGN_CLOSE);
                out
            };
        map_columns(&self.columns, mapper, Ghost(assign_render()))
    }

    /// No field yet.
    pub fn new() -> (r: Table)
        ensures
            r@ == Seq::<FieldModel>::empty(),
    {
        let t = Table { columns: Vec::new() };
        assert(t@ =~= Seq::<FieldModel>::empty());
        t
    }

    /// Adds one column for each field, in declared order. Fails where a
    /// field has no name, and then leaves the table as it was.
    pub fn parse_struct_fields(&mut self, fields: &Vec<FieldDecl>) -> (r: Result<(), MacroError>)
        ensures
            match r {
                Ok(_) => all_named(fields@) && final(self)@ == old(self)@ + field_models(fields@),
                Err(e) => !all_named(fields@) && e == MacroError::UnnamedField && *final(self)
                    == *old(self),
            },
    {
        if !check_all_named(fields) {
            return Err(MacroError::UnnamedField);
        }
        let mut i: usize = 0;
        assert(self@ =~= old(self)@ + field_models(fields@.take(0)));
        while i < fields.len()
            invariant
                i <= fields.len(),
                all_named(fields@),
                self@ == old(self)@ + field_models(fields@.take(i as int)),
            decreases fields.len() - i,
        {
            let column = Column::new(&fields[i]);
            let ghost before = self.columns@;
            self.columns.push(column);
            proof {
                assert(column_models(self.columns@) =~= column_models(before).push(column@));
                assert(field_models(fields@.take(i + 1)) =~= field_models(
                    fields@.take(i as int),
                ).push(column@));
            }
            i += 1;
        }
        assert(fields@.take(fields.len() as int) =~= fields@);
        Ok(())
    }
}

/// The builder methods of a struct's fields, in an `impl` block of the
/// struct. Only a struct has them: the caller stops on any other
/// declaration. Fails for a field without a name.
pub fn quick_assign(dvi: &Declaration) -> (r: Result<String, MacroError>)
    requires
        dvi.body is Struct,
    ensures
        crate::sql_model::text_outcome(r, quick_assign_of(*dvi)),
{
    let fields = match &dvi.body {
        Body::Struct { style, fields } => fields,
        _ => {
            return Err(MacroError::NotAStruct);
        },
    };
    let mut table = Table::new();
    match table.parse_struct_fields(fields) {
        Ok(_) => {},
        Err(e) => {
            return Err(e);
        },
    }
    let make_assign = table.make_assign();
    let mut out = IMPL_OPEN.to_owned();
    out.append(dvi.ident.as_str());
    out.append(IMPL_BODY_OPEN);
    out.append(make_assign.as_str());
    out.append(IMPL_BODY_CLOSE);
    assert(field_models(fields@) =~= Seq::<FieldModel>::empty() + field_models(fields@));
    Ok(out)
}

} // verus!
