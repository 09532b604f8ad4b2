//! The SQL model: from an annotated struct to a table, and from the table to
//! the fragments of its generated code.

use crate::decl::{Annotation, Body, Declaration, FieldDecl, Literal, MacroError, MetaItem};
use crate::decode::{make_row_decoding, slot_models, RowSlot};
use crate::fragments::{
    assign_method, assign_methods, assign_render, column_line, column_lines, column_slots,
    create_table_text, equal_term, field_list_methods, fields_c, fields_ee, fields_fi,
    fields_string, fields_string2, fields_v, from_row_impl, from_row_steps, inherent_impl,
    key_lines, param_term, params_method, per_column, sql_model_impl, sql_model_text,
    static_str_method, string2_entries, string_entries, value_term, value_terms, ASSIGN_BODY,
    ASSIGN_BOUND, ASSIGN_CLOSE, ASSIGN_OPEN, BLOCK_CLOSE, CREATE_CLOSE, CREATE_COLUMNS, CREATE_OPEN,
    CREATE_SEPARATOR, EQUAL_AND, EQUAL_OTHER, EQUAL_SELF, FROM_ROW_IMPL_CLOSE, FROM_ROW_IMPL_FN,
    FROM_ROW_IMPL_OK, FROM_ROW_IMPL_OPEN, IMPL_OPEN, INHERENT_CLOSE, INHERENT_CREATE,
    INHERENT_RESULT, LINE_NOT_NULL, LINE_OPEN, LINE_TYPE, METHOD_CLOSE, METHOD_OPEN, METHOD_PARAMS,
    METHOD_STATIC_STR, NAME_COMMA, PARAM_COLON, SQL_MODEL_EQUAL, SQL_MODEL_EQUAL_WITHOUT_ID,
    SQL_MODEL_LOCK, SQL_MODEL_LOCK_CLOSE, SQL_MODEL_OPEN, VALUES_CLOSE, VALUES_OPEN, VALUE_CLOSE,
    VALUE_OPEN, VALUE_SELF,
};
use crate::options::Options;
use crate::schema::{
    column_meta, column_meta_from, column_of, default_table_name, default_who, derived_meta,
    field_options, field_options_from, first_match, is_selected, kept, lemma_kept_same, mapped,
    parsed_columns_from, selected, sql_type_of, table_meta, table_meta_from, table_of, type_map1,
    type_map2, ColumnModel, TableModel,
};
use crate::text::{concatenated, contains, join, joined, rust_string_literal, same_text, texts};
use vstd::prelude::*;

verus! {

/// The string that a literal holds, if it is a string literal.
pub fn lit_to_string(lit: &Literal) -> (r: Option<String>)
    ensures
        match r {
            Some(s) => lit.text() == Some(s@),
            None => lit.text() is None,
        },
{
    match lit {
        Literal::Str(s) => Some(s.clone()),
        Literal::Other => None,
    }
}

/// The string that a literal holds, and the empty string for a literal of
/// another kind.
fn lit_or_default(lit: &Literal) -> (r: String)
    ensures
        r@ == lit.text_or_empty(),
{
    match lit_to_string(lit) {
        Some(s) => s,
        None => String::new(),
    }
}

/// The views of a lookup table's entries.
pub open spec fn pairs(table: Seq<(String, String)>) -> Seq<(Seq<char>, Seq<char>)> {
    table.map_values(|p: (String, String)| (p.0@, p.1@))
}

/// One entry of a lookup table.
fn entry(key: &str, value: &str) -> (r: (String, String))
    ensures
        r.0@ == key@,
        r.1@ == value@,
{
    (key.to_owned(), value.to_owned())
}

/// The table from declared scalar type to intermediate label.
pub fn type_map1_table() -> (r: Vec<(String, String)>)
    ensures
        pairs(r@) == type_map1(),
{
    let mut t: Vec<(String, String)> = Vec::new();
    t.push(entry("i32", "int"));
    t.push(entry("u32", "int"));
    t.push(entry("i64", "bigint"));
    t.push(entry("u64", "bigint"));
    t.push(entry("f32", "double"));
    t.push(entry("f64", "double"));
    t.push(entry("String", "str"));
    t.push(entry("SqlDate", "date"));
    t.push(entry("SqlTime", "datetime"));
    assert(pairs(t@) =~= type_map1());
    t
}

/// The table from intermediate label to storage type.
pub fn type_map2_table() -> (r: Vec<(String, String)>)
    ensures
        pairs(r@) == type_map2(),
{
    let mut t: Vec<(String, String)> = Vec::new();
    t.push(entry("str", "varchar(32)"));
    t.push(entry("text", "text(65535)"));
    t.push(entry("longtext", "longtext"));
    t.push(entry("bool", "bool"));
    t.push(entry("int", "int(11)"));
    t.push(entry("bigint", "int(20)"));
    t.push(entry("double", "double"));
    t.push(entry("date", "date"));
    t.push(entry("datetime", "datetime(6)"));
    assert(pairs(t@) =~= type_map2());
    t
}

/// Looks a key up in a table: the value of the first entry with that key,
/// and the key itself where there is none.
pub fn lookup(table: &Vec<(String, String)>, key: &str) -> (r: String)
    ensures
        r@ == mapped(pairs(table@), key@),
{
    let mut i: usize = 0;
    assert(pairs(table@).skip(0) =~= pairs(table@));
    while i < table.len()
        invariant
            i <= table.len(),
            first_match(pairs(table@), key@) == first_match(pairs(table@).skip(i as int), key@),
        decreases table.len() - i,
    {
        proof {
            let rest = pairs(table@).skip(i as int);
            assert(rest[0] == (table@[i as int].0@, table@[i as int].1@));
            assert(rest.skip(1) =~= pairs(table@).skip(i + 1));
        }
        if same_text(table[i].0.as_str(), key) {
            return table[i].1.clone();
        }
        i += 1;
    }
    key.to_owned()
}

/// One column of a table.
#[derive(Clone, Debug)]
pub struct Column {
    /// The field's name in the program.
    pub ident: String,
    /// The field's declared type.
    pub ty: String,
    /// The column's name where no option renames it.
    pub name: String,
    /// The column's type in storage.
    pub sql_type: String,
    /// The options set on the field.
    pub opt: Options,
}

impl View for Column {
    type V = ColumnModel;

    open spec fn view(&self) -> ColumnModel {
        ColumnModel {
            ident: self.ident@,
            ty: self.ty@,
            name: self.name@,
            sql_type: self.sql_type@,
            opt: self.opt@,
        }
    }
}

/// The models of a sequence of columns.
pub open spec fn column_models(cols: Seq<Column>) -> Seq<ColumnModel> {
    cols.map_values(|c: Column| c@)
}

impl Column {
    /// The storage type inferred for a declared type: through both lookup
    /// tables, one after the other, each leaving unchanged what it has no
    /// entry for.
    pub fn convert_rust_type_to_sql(type_: &str) -> (r: String)
        ensures
            r@ == sql_type_of(type_@),
    {
        let map1 = type_map1_table();
        let label = lookup(&map1, type_);
        let map2 = type_map2_table();
        lookup(&map2, label.as_str())
    }

    /// The column of a named field with the given options.
    pub fn new(field: &FieldDecl, opt: Options) -> (r: Column)
        requires
            field.ident is Some,
        ensures
            r@ == column_of(field.ident->0@, field.ty@, opt@),
            r@.wf(),
    {
        let ident = match &field.ident {
            Some(s) => s.clone(),
            None => String::new(),
        };
        let sql_type = match opt.get("type") {
            Some(t) => t.clone(),
            None => Column::convert_rust_type_to_sql(field.ty.as_str()),
        };
        let name = ident.clone();
        Column { ident, ty: field.ty.clone(), name, sql_type, opt }
    }

    /// The column's auto-increment clause.
    pub fn sql_auto(&self) -> (r: &'static str)
        ensures
            r@ == self@.sql_auto(),
    {
        match self.opt.get("auto") {
            Some(_) => " AUTO_INCREMENT",
            None => {
                proof {
                    reveal_strlit("");
                    assert(""@ =~= Seq::<char>::empty());
                }
                ""
            },
        }
    }

    /// The column's key clause, where it has one.
    pub fn sql_key(&self) -> (r: Option<String>)
        ensures
            match r {
                Some(s) => self@.sql_key() == Some(s@),
                None => self@.sql_key() is None,
            },
    {
        match self.opt.get("key") {
            Some(key) => {
                if key.as_str().is_empty() {
                    let mut out = "KEY (`".to_owned();
                    out.append(self.sql_name());
                    out.append("`)");
                    Some(out)
                } else {
                    let mut out = key.clone();
                    out.append(" KEY (`");
                    out.append(self.sql_name());
                    out.append("`)");
                    Some(out)
                }
            },
            None => None,
        }
    }

    /// The column's name in storage.
    pub fn sql_name(&self) -> (r: &str)
        ensures
            r@ == self@.sql_name(),
    {
        match self.opt.get("name") {
            Some(n) => n.as_str(),
            None => self.name.as_str(),
        }
    }

    /// Whether the column is the identity column.
    pub fn is_identity(&self) -> (r: bool)
        ensures
            r == self@.is_identity(),
    {
        same_text(self.ident.as_str(), "id")
    }
}

/// One table: its name, the type that owns its pool, and its columns in
/// declared order.
#[derive(Clone, Debug)]
pub struct Table {
    /// The table's name in storage.
    pub name: String,
    /// The type that hands out the locked pool.
    pub who: String,
    /// The columns in declared order.
    pub columns: Vec<Column>,
}

impl View for Table {
    type V = TableModel;

    open spec fn view(&self) -> TableModel {
        TableModel { name: self.name@, who: self.who@, columns: column_models(self.columns@) }
    }
}

/// What a parse gives: the value's view matches the model's outcome.
pub open spec fn options_outcome(
    r: Result<Options, MacroError>,
    model: Result<Map<Seq<char>, Seq<char>>, MacroError>,
) -> bool {
    match r {
        Ok(o) => model == Ok::<Map<Seq<char>, Seq<char>>, MacroError>(o@),
        Err(e) => model == Err::<Map<Seq<char>, Seq<char>>, MacroError>(e),
    }
}

/// What a parse gives: the two strings match the model's outcome.
pub open spec fn meta_outcome(
    r: Result<(String, String), MacroError>,
    model: Result<(Seq<char>, Seq<char>), MacroError>,
) -> bool {
    match r {
        Ok(p) => model == Ok::<(Seq<char>, Seq<char>), MacroError>((p.0@, p.1@)),
        Err(e) => model == Err::<(Seq<char>, Seq<char>), MacroError>(e),
    }
}

impl Table {
    /// The options that the entries of one `column` annotation set.
    pub fn extract_column_meta(meta_items: &Vec<MetaItem>) -> (r: Result<Options, MacroError>)
        ensures
            options_outcome(r, column_meta(meta_items@)),
    {
        let mut opt = Options::new();
        let mut i: usize = 0;
        assert(meta_items@.skip(0) =~= meta_items@);
        while i < meta_items.len()
            invariant
                i <= meta_items.len(),
                column_meta(meta_items@) == column_meta_from(meta_items@.skip(i as int), opt@),
            decreases meta_items.len() - i,
        {
            proof {
                assert(meta_items@.skip(i as int)[0] == meta_items@[i as int]);
                assert(meta_items@.skip(i as int).skip(1) =~= meta_items@.skip(i + 1));
            }
            match &meta_items[i] {
                MetaItem::NameValue { key, value } => {
                    match key {
                        Some(k) => {
                            opt.insert(k.clone(), lit_or_default(value));
                        },
                        None => {
                            return Err(MacroError::PathNotIdent);
                        },
                    }
                },
                MetaItem::Other => {},
            }
            i += 1;
        }
        Ok(opt)
    }

    /// The table name and pool owner that one `table` annotation gives.
    pub fn extract_table_meta(meta_items: &Vec<MetaItem>) -> (r: Result<
        (String, String),
        MacroError,
    >)
        ensures
            meta_outcome(r, table_meta(meta_items@)),
    {
        let mut name = "unknown_table_name".to_owned();
        let mut who = "WhoCreateDbPool".to_owned();
        let mut i: usize = 0;
        assert(meta_items@.skip(0) =~= meta_items@);
        while i < meta_items.len()
            invariant
                i <= meta_items.len(),
                table_meta(meta_items@) == table_meta_from(
                    meta_items@.skip(i as int),
                    (name@, who@),
                ),
            decreases meta_items.len() - i,
        {
            proof {
                assert(meta_items@.skip(i as int)[0] == meta_items@[i as int]);
                assert(meta_items@.skip(i as int).skip(1) =~= meta_items@.skip(i + 1));
            }
            match &meta_items[i] {
                MetaItem::NameValue { key, value } => {
                    match key {
                        Some(k) => {
                            if same_text(k.as_str(), "name") {
                                name = lit_or_default(value);
                            } else if same_text(k.as_str(), "who") {
                                who = lit_or_default(value);
                            }
                        },
                        None => {
                            return Err(MacroError::PathNotIdent);
                        },
                    }
                },
                MetaItem::Other => {},
            }
            i += 1;
        }
        Ok((name, who))
    }

    /// A table without columns, with the default name and pool owner.
    pub fn new() -> (r: Table)
        ensures
            r@ == (TableModel {
                name: default_table_name(),
                who: default_who(),
                columns: Seq::empty(),
            }),
            r@.wf(),
    {
        let t = Table {
            name: "unknown_table_name".to_owned(),
            who: "WhoCreateDbPool".to_owned(),
            columns: Vec::new(),
        };
        assert(t@.columns =~= Seq::<ColumnModel>::empty());
        t
    }

    /// Reads the table name and pool owner from the annotations of a
    /// declaration. On failure the table is left as it was.
    pub fn parse_struct_derive(&mut self, dvi: &Declaration) -> (r: Result<(), MacroError>)
        ensures
            match r {
                Ok(_) => derived_meta(dvi.annotations@, (old(self)@.name, old(self)@.who)) == Ok::<
                    (Seq<char>, Seq<char>),
                    MacroError,
                >((final(self)@.name, final(self)@.who)) && final(self).columns == old(
                    self,
                ).columns,
                Err(e) => derived_meta(dvi.annotations@, (old(self)@.name, old(self)@.who)) == Err::<
                    (Seq<char>, Seq<char>),
                    MacroError,
                >(e) && *final(self) == *old(self),
            },
    {
        let mut name = self.name.clone();
        let mut who = self.who.clone();
        let mut i: usize = 0;
        assert(dvi.annotations@.skip(0) =~= dvi.annotations@);
        while i < dvi.annotations.len()
            invariant
                i <= dvi.annotations.len(),
                *self == *old(self),
                derived_meta(dvi.annotations@, (self@.name, self@.who)) == derived_meta(
                    dvi.annotations@.skip(i as int),
                    (name@, who@),
                ),
            decreases dvi.annotations.len() - i,
        {
            proof {
                assert(dvi.annotations@.skip(i as int)[0] == dvi.annotations@[i as int]);
                assert(dvi.annotations@.skip(i as int).skip(1) =~= dvi.annotations@.skip(i + 1));
            }
            match &dvi.annotations[i].list {
                Some(list) => {
                    match &list.ident {
                        Some(id) => {
                            if same_text(id.as_str(), "table") {
                                match Table::extract_table_meta(&list.items) {
                                    Ok(p) => {
                                        name = p.0;
                                        who = p.1;
                                    },
                                    Err(e) => {
                                        return Err(e);
                                    },
                                }
                            }
                        },
                        None => {
                            return Err(MacroError::PathNotIdent);
                        },
                    }
                },
                None => {},
            }
            i += 1;
        }
        self.name = name;
        self.who = who;
        Ok(())
    }

    /// The options of one field, from its `column` annotations.
    pub fn parse_field_options(annotations: &Vec<Annotation>) -> (r: Result<Options, MacroError>)
        ensures
            options_outcome(r, field_options(annotations@)),
    {
        let mut sql_opt = Options::new();
        let mut i: usize = 0;
        assert(annotations@.skip(0) =~= annotations@);
        while i < annotations.len()
            invariant
                i <= annotations.len(),
                field_options(annotations@) == field_options_from(
                    annotations@.skip(i as int),
                    sql_opt@,
                ),
            decreases annotations.len() - i,
        {
            proof {
                assert(annotations@.skip(i as int)[0] == annotations@[i as int]);
                assert(annotations@.skip(i as int).skip(1) =~= annotations@.skip(i + 1));
            }
            let attr = &annotations[i];
            if contains(attr.path.as_str(), "column") {
                match &attr.list {
                    Some(list) => {
                        match Table::extract_column_meta(&list.items) {
                            Ok(o) => {
                                sql_opt.extend(&o);
                            },
                            Err(e) => {
                                return Err(e);
                            },
                        }
                    },
                    None => {},
                }
            }
            i += 1;
        }
        Ok(sql_opt)
    }

    /// Adds one column for each field, in declared order. On failure the
    /// table is left as it was.
    pub fn parse_struct_fields(&mut self, fields: &Vec<FieldDecl>) -> (r: Result<(), MacroError>)
        ensures
            match r {
                Ok(_) => parsed_columns_from(fields@, old(self)@.columns) == Ok::<
                    Seq<ColumnModel>,
                    MacroError,
                >(final(self)@.columns) && final(self).name == old(self).name && final(self).who
                    == old(self).who,
                Err(e) => parsed_columns_from(fields@, old(self)@.columns) == Err::<
                    Seq<ColumnModel>,
                    MacroError,
                >(e) && *final(self) == *old(self),
            },
            old(self)@.columns_wf() && r is Ok ==> final(self)@.columns_wf(),
    {
        let mut added: Vec<Column> = Vec::new();
        let mut i: usize = 0;
        assert(fields@.skip(0) =~= fields@);
        assert(self@.columns + column_models(added@) =~= self@.columns);
        while i < fields.len()
            invariant
                i <= fields.len(),
                *self == *old(self),
                parsed_columns_from(fields@, self@.columns) == parsed_columns_from(
                    fields@.skip(i as int),
                    self@.columns + column_models(added@),
                ),
                forall|j: int| 0 <= j < added.len() ==> (#[trigger] added@[j])@.wf(),
            decreases fields.len() - i,
        {
            proof {
                assert(fields@.skip(i as int)[0] == fields@[i as int]);
                assert(fields@.skip(i as int).skip(1) =~= fields@.skip(i + 1));
            }
            let field = &fields[i];
            let opt = match Table::parse_field_options(&field.annotations) {
                Ok(o) => o,
                Err(e) => {
                    return Err(e);
                },
            };
            if field.ident.is_none() {
                return Err(MacroError::UnnamedField);
            }
            let column = Column::new(field, opt);
            let ghost before = added@;
            added.push(column);
            proof {
                assert(self@.columns + column_models(added@) =~= (self@.columns + column_models(
                    before,
                )).push(column@));
            }
            i += 1;
        }
        let ghost old_cols = self.columns@;
        let ghost added_cols = added@;
        self.columns.append(&mut added);
        proof {
            assert(column_models(self.columns@) =~= column_models(old_cols) + column_models(
                added_cols,
            ));
        }
        Ok(())
    }
}

/// Puts together what `mapper` gives for each column, in declared order.
/// The mapper gets the column's position, name and declared type.
pub fn map_columns<M>(
    columns: &Vec<Column>,
    mapper: M,
    Ghost(render): Ghost<spec_fn(int, Seq<char>, Seq<char>) -> Seq<char>>,
) -> (r: String) where M: Fn(usize, &str, &str) -> String
    requires
        forall|i: usize, ident: &str, ty: &str| call_requires(mapper, (i, ident, ty)),
        forall|i: usize, ident: &str, ty: &str, o: String|
            call_ensures(mapper, (i, ident, ty), o) ==> o@ == render(i as int, ident@, ty@),
    ensures
        r@ == concatenated(per_column(column_models(columns@), render)),
{
    let ghost parts = per_column(column_models(columns@), render);
    let mut out = String::new();
    let mut i: usize = 0;
    while i < columns.len()
        invariant
            i <= columns.len(),
            parts == per_column(column_models(columns@), render),
            forall|i: usize, ident: &str, ty: &str| call_requires(mapper, (i, ident, ty)),
            forall|i: usize, ident: &str, ty: &str, o: String|
                call_ensures(mapper, (i, ident, ty), o) ==> o@ == render(i as int, ident@, ty@),
            out@ == concatenated(parts.take(i as int)),
        decreases columns.len() - i,
    {
        let piece = mapper(i, columns[i].ident.as_str(), columns[i].ty.as_str());
        proof {
            assert(parts.take(i + 1).drop_last() =~= parts.take(i as int));
            assert(parts.take(i + 1).last() == piece@);
        }
        out.append(piece.as_str());
        i += 1;
    }
    assert(parts.take(columns.len() as int) =~= parts);
    out
}

/// What `mapper` gives for each column that `filter` accepts, in declared
/// order.
pub fn select_and_map<F, M>(
    columns: &Vec<Column>,
    filter: F,
    mapper: M,
    Ghost(keep): Ghost<spec_fn(ColumnModel) -> bool>,
    Ghost(render): Ghost<spec_fn(ColumnModel) -> Seq<char>>,
) -> (parts: Vec<String>) where F: Fn(&Column) -> bool, M: Fn(&Column) -> String
    requires
        forall|c: &Column| call_requires(filter, (c,)),
        forall|c: &Column, b: bool| call_ensures(filter, (c,), b) ==> b == keep(c@),
        forall|c: &Column| call_requires(mapper, (c,)),
        forall|c: &Column, o: String| call_ensures(mapper, (c,), o) ==> o@ == render(c@),
    ensures
        texts(parts@) == kept(column_models(columns@), keep).map_values(render),
{
    let ghost cols = column_models(columns@);
    let mut parts: Vec<String> = Vec::new();
    let mut i: usize = 0;
    assert(texts(parts@) =~= kept(cols.take(0), keep).map_values(render));
    while i < columns.len()
        invariant
            i <= columns.len(),
            cols == column_models(columns@),
            forall|c: &Column| call_requires(filter, (c,)),
            forall|c: &Column, b: bool| call_ensures(filter, (c,), b) ==> b == keep(c@),
            forall|c: &Column| call_requires(mapper, (c,)),
            forall|c: &Column, o: String| call_ensures(mapper, (c,), o) ==> o@ == render(c@),
            texts(parts@) == kept(cols.take(i as int), keep).map_values(render),
        decreases columns.len() - i,
    {
        proof {
            assert(cols.take(i + 1).drop_last() =~= cols.take(i as int));
            assert(cols.take(i + 1).last() == columns@[i as int]@);
        }
        if filter(&columns[i]) {
            let piece = mapper(&columns[i]);
            let ghost before = parts@;
            parts.push(piece);
            proof {
                assert(texts(parts@) =~= texts(before).push(piece@));
                assert(kept(cols.take(i + 1), keep).map_values(render) =~= kept(
                    cols.take(i as int),
                    keep,
                ).map_values(render).push(render(columns@[i as int]@)));
            }
        }
        i += 1;
    }
    assert(cols.take(columns.len() as int) =~= cols);
    parts
}

/// Joins with `sep` what `mapper` gives for each column that `filter`
/// accepts, in declared order.
pub fn map_columns_and_join<F, M>(
    columns: &Vec<Column>,
    filter: F,
    mapper: M,
    sep: &str,
    Ghost(keep): Ghost<spec_fn(ColumnModel) -> bool>,
    Ghost(render): Ghost<spec_fn(ColumnModel) -> Seq<char>>,
) -> (r: String) where F: Fn(&Column) -> bool, M: Fn(&Column) -> String
    requires
        forall|c: &Column| call_requires(filter, (c,)),
        forall|c: &Column, b: bool| call_ensures(filter, (c,), b) ==> b == keep(c@),
        forall|c: &Column| call_requires(mapper, (c,)),
        forall|c: &Column, o: String| call_ensures(mapper, (c,), o) ==> o@ == render(c@),
    ensures
        r@ == joined(kept(column_models(columns@), keep).map_values(render), sep@),
{
    let parts = select_and_map(columns, filter, mapper, Ghost(keep), Ghost(render));
    join(&parts, sep)
}

impl Table {
    /// A builder method for each field, named like the field.
    pub fn make_assign(&self) -> (r: String)
        ensures
            r@ == assign_methods(self@.columns),
    {
        let mapper = |i: usize, ident: &str, ty: &str| -> (o: String)
            ensures
                o@ == assign_method(ident@, ty@),
            {
                let mut out = ASSIGN_OPEN.to_owned();
                out.append(ident);
                out.append(ASSIGN_BOUND);
                out.append(ty);
                out.append(ASSIGN_BODY);
                out.append(ident);
                out.append(ASSIGN_CLOSE);
                out
            };
        map_columns(&self.columns, mapper, Ghost(assign_render()))
    }

    /// The statement that creates the table.
    pub fn make_create_table(&self) -> (r: String)
        ensures
            r@ == create_table_text(self@),
    {
        let ghost cols = self@.columns;
        let mut lines: Vec<String> = Vec::new();
        let mut i: usize = 0;
        assert(texts(lines@) =~= column_lines(cols.take(0)));
        while i < self.columns.len()
            invariant
                i <= self.columns.len(),
                cols == column_models(self.columns@),
                texts(lines@) == column_lines(cols.take(i as int)),
            decreases self.columns.len() - i,
        {
            let column = &self.columns[i];
            let mut line = LINE_OPEN.to_owned();
            line.append(column.sql_name());
            line.append(LINE_TYPE);
            line.append(column.sql_type.as_str());
            line.append(LINE_NOT_NULL);
            line.append(column.sql_auto());
            let ghost before = lines@;
            lines.push(line);
            proof {
                assert(texts(lines@) =~= texts(before).push(column_line(column@)));
                assert(column_lines(cols.take(i + 1)) =~= column_lines(cols.take(i as int)).push(
                    column_line(column@),
                ));
            }
            i += 1;
        }
        assert(cols.take(self.columns.len() as int) =~= cols);
        let mut k: usize = 0;
        assert(key_lines(cols.take(0)) =~= Seq::<Seq<char>>::empty());
        assert(texts(lines@) =~= column_lines(cols) + key_lines(cols.take(0)));
        while k < self.columns.len()
            invariant
                k <= self.columns.len(),
                cols == column_models(self.columns@),
                texts(lines@) == column_lines(cols) + key_lines(cols.take(k as int)),
            decreases self.columns.len() - k,
        {
            proof {
                assert(cols.take(k + 1).drop_last() =~= cols.take(k as int));
                assert(cols.take(k + 1).last() == self.columns@[k as int]@);
            }
            match self.columns[k].sql_key() {
                Some(key) => {
                    let ghost before = lines@;
                    lines.push(key);
                    proof {
                        assert(texts(lines@) =~= texts(before).push(key@));
                        assert(column_lines(cols) + key_lines(cols.take(k + 1)) =~= (column_lines(
                            cols,
                        ) + key_lines(cols.take(k as int))).push(key@));
                    }
                },
                None => {},
            }
            k += 1;
        }
        assert(cols.take(self.columns.len() as int) =~= cols);
        let body = join(&lines, CREATE_SEPARATOR);
        let mut out = CREATE_OPEN.to_owned();
        out.append(self.name.as_str());
        out.append(CREATE_COLUMNS);
        out.append(body.as_str());
        out.append(CREATE_CLOSE);
        out
    }

    /// `a, b, c, `: every field name with a comma behind it.
    pub fn make_fields_c(&self) -> (r: String)
        ensures
            r@ == fields_c(self@.columns),
    {
        let filter = |c: &Column| -> (b: bool)
            ensures
                b,
            { true };
        let mapper = |c: &Column| -> (o: String)
            ensures
                o@ == c@.ident + NAME_COMMA@,
            {
                let mut out = c.ident.clone();
                out.append(NAME_COMMA);
                out
            };
        let ghost keep = |c: ColumnModel| true;
        let ghost render = |c: ColumnModel| c.ident + NAME_COMMA@;
        proof {
            reveal_strlit("");
            assert(""@ =~= Seq::<char>::empty());
            crate::laws::lemma_kept_all_of(self@.columns, keep);
            assert(self@.columns.map_values(render) =~= self@.columns.map_values(
                |c: ColumnModel| c.ident + NAME_COMMA@,
            ));
        }
        map_columns_and_join(&self.columns, filter, mapper, "", Ghost(keep), Ghost(render))
    }

    /// `self.a == other.a && self.b == other.b`, with or without the
    /// identity column.
    pub fn make_fields_ee(&self, use_id: bool) -> (r: String)
        ensures
            r@ == fields_ee(self@.columns, use_id),
    {
        let filter = |c: &Column| -> (b: bool)
            ensures
                b == is_selected(c@, use_id),
            { use_id || !c.is_identity() };
        let mapper = |c: &Column| -> (o: String)
            ensures
                o@ == equal_term(c@),
            {
                let mut out = EQUAL_SELF.to_owned();
                out.append(c.ident.as_str());
                out.append(EQUAL_OTHER);
                out.append(c.ident.as_str());
                out
            };
        let ghost keep = |c: ColumnModel| is_selected(c, use_id);
        let ghost render = |c: ColumnModel| equal_term(c);
        proof {
            lemma_kept_same(self@.columns, keep, |c: ColumnModel| is_selected(c, use_id));
            assert(selected(self@.columns, use_id).map_values(render) =~= selected(
                self@.columns,
                use_id,
            ).map_values(|c: ColumnModel| equal_term(c)));
        }
        map_columns_and_join(&self.columns, filter, mapper, EQUAL_AND, Ghost(keep), Ghost(render))
    }

    /// `a: A, b: B`: every column but the identity column as a parameter.
    pub fn make_fields_fi(&self) -> (r: String)
        ensures
            r@ == fields_fi(self@.columns),
    {
        let filter = |c: &Column| -> (b: bool)
            ensures
                b == is_selected(c@, false),
            { !c.is_identity() };
        let mapper = |c: &Column| -> (o: String)
            ensures
                o@ == param_term(c@),
            {
                let mut out = c.ident.clone();
                out.append(PARAM_COLON);
                out.append(c.ty.as_str());
                out
            };
        let ghost keep = |c: ColumnModel| is_selected(c, false);
        let ghost render = |c: ColumnModel| param_term(c);
        proof {
            lemma_kept_same(self@.columns, keep, |c: ColumnModel| is_selected(c, false));
            assert(selected(self@.columns, false).map_values(render) =~= selected(
                self@.columns,
                false,
            ).map_values(|c: ColumnModel| param_term(c)));
        }
        map_columns_and_join(&self.columns, filter, mapper, NAME_COMMA, Ghost(keep), Ghost(render))
    }

    /// The statements that decode a row, one value per column, in declared
    /// order. Where a value is missing or does not convert, the row is
    /// returned in the error as it came.
    pub fn make_fields_from_row(&self) -> (r: String)
        ensures
            r@ == from_row_steps(self@.columns),
    {
        let ghost slots = column_slots(self@.columns);
        let mut values: Vec<RowSlot> = Vec::new();
        let mut i: usize = 0;
        while i < self.columns.len()
            invariant
                i <= self.columns.len(),
                slots == column_slots(self@.columns),
                slot_models(values@) == slots.take(i as int),
            decreases self.columns.len() - i,
        {
            let column = &self.columns[i];
            let slot = RowSlot { position: i, ident: column.ident.clone(), ty: column.ty.clone() };
            let ghost before = values@;
            values.push(slot);
            proof {
                assert(slot_models(values@) =~= slot_models(before).push(slot@));
                assert(slots.take(i + 1) =~= slots.take(i as int).push(slots[i as int]));
            }
            i += 1;
        }
        assert(slots.take(self.columns.len() as int) =~= slots);
        make_row_decoding(&values)
    }

    /// `left name right sep ... left name right` over the storage names,
    /// with or without the identity column.
    pub fn make_fields_string(&self, left: &str, right: &str, sep: &str, use_id: bool) -> (r:
        String)
        ensures
            r@ == fields_string(self@.columns, left@, right@, sep@, use_id),
    {
        let filter = |c: &Column| -> (b: bool)
            ensures
                b == is_selected(c@, use_id),
            { use_id || !c.is_identity() };
        let mapper = |c: &Column| -> (o: String)
            ensures
                o@ == left@ + c@.sql_name() + right@,
            {
                let mut out = left.to_owned();
                out.append(c.sql_name());
                out.append(right);
                out
            };
        let ghost keep = |c: ColumnModel| is_selected(c, use_id);
        let ghost render = |c: ColumnModel| left@ + c.sql_name() + right@;
        proof {
            lemma_kept_same(self@.columns, keep, |c: ColumnModel| is_selected(c, use_id));
            assert(selected(self@.columns, use_id).map_values(render) =~= string_entries(
                self@.columns,
                left@,
                right@,
                use_id,
            ));
        }
        let parts = select_and_map(&self.columns, filter, mapper, Ghost(keep), Ghost(render));
        join(&parts, sep)
    }

    /// `left name mid name right sep ... left name mid name right` over the
    /// storage names, with or without the identity column.
    pub fn make_fields_string2(
        &self,
        left: &str,
        mid: &str,
        right: &str,
        sep: &str,
        use_id: bool,
    ) -> (r: String)
        ensures
            r@ == fields_string2(self@.columns, left@, mid@, right@, sep@, use_id),
    {
        let filter = |c: &Column| -> (b: bool)
            ensures
                b == is_selected(c@, use_id),
            { use_id || !c.is_identity() };
        let mapper = |c: &Column| -> (o: String)
            ensures
                o@ == left@ + c@.sql_name() + mid@ + c@.sql_name() + right@,
            {
                let stored = c.sql_name();
                let mut out = left.to_owned();
                out.append(stored);
                out.append(mid);
                out.append(stored);
                out.append(right);
                out
            };
        let ghost keep = |c: ColumnModel| is_selected(c, use_id);
        let ghost render = |c: ColumnModel| left@ + c.sql_name() + mid@ + c.sql_name() + right@;
        proof {
            lemma_kept_same(self@.columns, keep, |c: ColumnModel| is_selected(c, use_id));
            assert(selected(self@.columns, use_id).map_values(render) =~= string2_entries(
                self@.columns,
                left@,
                mid@,
                right@,
                use_id,
            ));
        }
        let parts = select_and_map(&self.columns, filter, mapper, Ghost(keep), Ghost(render));
        join(&parts, sep)
    }

    /// The statements that collect `(storage name, value)` for each listed
    /// column as the parameters of a query.
    pub fn make_fields_v(&self, use_id: bool) -> (r: String)
        ensures
            r@ == fields_v(self@.columns, use_id),
    {
        let filter = |c: &Column| -> (b: bool)
            ensures
                b == is_selected(c@, use_id),
            { use_id || !c.is_identity() };
        let mapper = |c: &Column| -> (o: String)
            ensures
                o@ == value_term(c@),
            {
                let stored = rust_string_literal(c.sql_name());
                let mut out = VALUE_OPEN.to_owned();
                out.append(stored.as_str());
                out.append(VALUE_SELF);
                out.append(c.ident.as_str());
                out.append(VALUE_CLOSE);
                out
            };
        let ghost keep = |c: ColumnModel| is_selected(c, use_id);
        let ghost render = |c: ColumnModel| value_term(c);
        proof {
            lemma_kept_same(self@.columns, keep, |c: ColumnModel| is_selected(c, use_id));
            assert(selected(self@.columns, use_id).map_values(render) =~= value_terms(
                self@.columns,
                use_id,
            ));
        }
        let code = map_columns_and_join(
            &self.columns,
            filter,
            mapper,
            NAME_COMMA,
            Ghost(keep),
            Ghost(render),
        );
        let mut out = VALUES_OPEN.to_owned();
        out.append(code.as_str());
        out.append(VALUES_CLOSE);
        out
    }
}

/// What a synthesis gives: the text matches the model's outcome.
pub open spec fn text_outcome(r: Result<String, MacroError>, model: Result<Seq<char>, MacroError>)
    -> bool {
    match r {
        Ok(s) => model == Ok::<Seq<char>, MacroError>(s@),
        Err(e) => model == Err::<Seq<char>, MacroError>(e),
    }
}

/// The text generated for the model of a declaration.
pub open spec fn sql_model_of(dvi: Declaration) -> Result<Seq<char>, MacroError> {
    match table_of(dvi) {
        Ok(t) => Ok(sql_model_text(t, dvi.ident@)),
        Err(e) => Err(e),
    }
}

/// A method without parameters that returns `content` as a string literal.
fn static_str_method_text(name: &str, content: &str) -> (r: String)
    ensures
        r@ == static_str_method(name@, content@),
{
    let literal = rust_string_literal(content);
    let mut out = METHOD_OPEN.to_owned();
    out.append(name);
    out.append(METHOD_STATIC_STR);
    out.append(literal.as_str());
    out.append(METHOD_CLOSE);
    out
}

/// A method on `&self` that returns query parameters.
fn params_method_text(name: &str, body: &str) -> (r: String)
    ensures
        r@ == params_method(name@, body@),
{
    let mut out = METHOD_OPEN.to_owned();
    out.append(name);
    out.append(METHOD_PARAMS);
    out.append(body);
    out.append(METHOD_CLOSE);
    out
}

impl Table {
    /// The table of a declaration. Fails for an enum or a union, for a field
    /// without a name, and for an annotation whose path or key is no
    /// identifier.
    pub fn from_declaration(dvi: &Declaration) -> (r: Result<Table, MacroError>)
        ensures
            match r {
                Ok(t) => table_of(*dvi) == Ok::<TableModel, MacroError>(t@) && t@.columns_wf(),
                Err(e) => table_of(*dvi) == Err::<TableModel, MacroError>(e),
            },
    {
        match &dvi.body {
            Body::Struct { style, fields } => {
                let mut table = Table::new();
                match table.parse_struct_derive(dvi) {
                    Ok(_) => {},
                    Err(e) => {
                        return Err(e);
                    },
                }
                assert(table@.columns =~= Seq::<ColumnModel>::empty());
                match table.parse_struct_fields(fields) {
                    Ok(_) => {},
                    Err(e) => {
                        return Err(e);
                    },
                }
                Ok(table)
            },
            Body::Enum => Err(MacroError::NotAStruct),
            Body::Union => Err(MacroError::NotAStruct),
        }
    }

    /// The type's own methods.
    fn make_inherent_impl(&self, struct_ident: &str) -> (r: String)
        ensures
            r@ == inherent_impl(self@, struct_ident@),
    {
        let make_fields_fi = self.make_fields_fi();
        let make_fields_c = self.make_fields_c();
        let make_assign = self.make_assign();
        let mut out = IMPL_OPEN.to_owned();
        out.append(struct_ident);
        out.append(INHERENT_CREATE);
        out.append(make_fields_fi.as_str());
        out.append(INHERENT_RESULT);
        out.append(make_fields_c.as_str());
        out.append(INHERENT_CLOSE);
        out.append(make_assign.as_str());
        out.append(BLOCK_CLOSE);
        out
    }

    /// The field lists of the model, each as a method that returns a string.
    fn make_field_list_methods(&self) -> (r: String)
        ensures
            r@ == field_list_methods(self@),
    {
        let make_create_table = self.make_create_table();
        let make_fields_b = self.make_fields_string("`", "`", ", ", true);
        let make_fields_bi = self.make_fields_string("`", "`", ", ", false);
        let make_fields_e = self.make_fields_string2("`", "`=:", "", ", ", true);
        let make_fields_ei = self.make_fields_string2("`", "`=:", "", ", ", false);
        let make_fields_p = self.make_fields_string(":", "", ", ", true);
        let make_fields_pi = self.make_fields_string(":", "", ", ", false);
        let make_fields_q = self.make_fields_string("\"", "\"", ", ", true);
        let make_fields_qc = self.make_fields_string("\"", "\", ", "", true);
        let mut out = static_str_method_text("make_create_table", make_create_table.as_str());
        out.append(static_str_method_text("make_fields_b", make_fields_b.as_str()).as_str());
        out.append(static_str_method_text("make_fields_bi", make_fields_bi.as_str()).as_str());
        out.append(static_str_method_text("make_fields_e", make_fields_e.as_str()).as_str());
        out.append(static_str_method_text("make_fields_ei", make_fields_ei.as_str()).as_str());
        out.append(static_str_method_text("make_fields_p", make_fields_p.as_str()).as_str());
        out.append(static_str_method_text("make_fields_pi", make_fields_pi.as_str()).as_str());
        out.append(static_str_method_text("make_fields_q", make_fields_q.as_str()).as_str());
        out.append(static_str_method_text("make_fields_qc", make_fields_qc.as_str()).as_str());
        out
    }

    /// The model's capabilities.
    fn make_sql_model_impl(&self, struct_ident: &str) -> (r: String)
        ensures
            r@ == sql_model_impl(self@, struct_ident@),
    {
        let make_fields_ee = self.make_fields_ee(true);
        let make_fields_eei = self.make_fields_ee(false);
        let lists = self.make_field_list_methods();
        let make_fields_v = self.make_fields_v(true);
        let make_fields_vi = self.make_fields_v(false);
        let mut out = SQL_MODEL_OPEN.to_owned();
        out.append(struct_ident);
        out.append(SQL_MODEL_EQUAL);
        out.append(make_fields_ee.as_str());
        out.append(SQL_MODEL_EQUAL_WITHOUT_ID);
        out.append(make_fields_eei.as_str());
        out.append(SQL_MODEL_LOCK);
        out.append(self.who.as_str());
        out.append(SQL_MODEL_LOCK_CLOSE);
        out.append(lists.as_str());
        out.append(params_method_text("make_fields_v", make_fields_v.as_str()).as_str());
        out.append(params_method_text("make_fields_vi", make_fields_vi.as_str()).as_str());
        out.append(static_str_method_text("table_name", self.name.as_str()).as_str());
        out.append(BLOCK_CLOSE);
        out
    }

    /// The decoding of a row.
    fn make_from_row_impl(&self, struct_ident: &str) -> (r: String)
        ensures
            r@ == from_row_impl(self@, struct_ident@),
    {
        let make_fields_from_row = self.make_fields_from_row();
        let make_fields_c = self.make_fields_c();
        let mut out = FROM_ROW_IMPL_OPEN.to_owned();
        out.append(struct_ident);
        out.append(FROM_ROW_IMPL_FN);
        out.append(make_fields_from_row.as_str());
        out.append(FROM_ROW_IMPL_OK);
        out.append(make_fields_c.as_str());
        out.append(FROM_ROW_IMPL_CLOSE);
        out
    }
}

/// The code of a SQL model for an annotated struct: its own methods, its
/// capabilities as a model, and the decoding of a row. Only a struct has a
/// model: the caller stops on any other declaration. Fails for a field
/// without a name, and for an annotation whose path or key is no identifier.
pub fn as_sql_model(dvi: &Declaration) -> (r: Result<String, MacroError>)
    requires
        dvi.body is Struct,
    ensures
        text_outcome(r, sql_model_of(*dvi)),
{
    let table = match Table::from_declaration(dvi) {
        Ok(t) => t,
        Err(e) => {
            return Err(e);
        },
    };
    let struct_ident = dvi.ident.as_str();
    let mut out = table.make_inherent_impl(struct_ident);
    out.append(table.make_sql_model_impl(struct_ident).as_str());
    out.append(table.make_from_row_impl(struct_ident).as_str());
    Ok(out)
}

} // verus!
