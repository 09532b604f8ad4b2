//! The mathematical model of a table and its columns, and what the
//! annotations of a declaration mean in that model.

use crate::decl::{Annotation, Body, Declaration, FieldDecl, MacroError, MetaItem};
use crate::text::occurs_in;
use vstd::prelude::*;

verus! {

/// One column of a table.
pub struct ColumnModel {
    /// The field's name in the program.
    pub ident: Seq<char>,
    /// The field's declared type.
    pub ty: Seq<char>,
    /// The column's name where no option renames it.
    pub name: Seq<char>,
    /// The column's type in storage.
    pub sql_type: Seq<char>,
    /// The options set on the field.
    pub opt: Map<Seq<char>, Seq<char>>,
}

/// One table: its name, the type that owns its pool, and its columns in
/// declared order.
pub struct TableModel {
    pub name: Seq<char>,
    pub who: Seq<char>,
    pub columns: Seq<ColumnModel>,
}

/// The table name of a declaration that sets none.
pub open spec fn default_table_name() -> Seq<char> {
    "unknown_table_name"@
}

/// The pool owner of a declaration that names none.
pub open spec fn default_who() -> Seq<char> {
    "WhoCreateDbPool"@
}

/// The reserved name of the identity column.
pub open spec fn identity_name() -> Seq<char> {
    "id"@
}

/// From declared scalar type to intermediate label, in lookup order.
pub open spec fn type_map1() -> Seq<(Seq<char>, Seq<char>)> {
    seq![
        ("i32"@, "int"@),
        ("u32"@, "int"@),
        ("i64"@, "bigint"@),
        ("u64"@, "bigint"@),
        ("f32"@, "double"@),
        ("f64"@, "double"@),
        ("String"@, "str"@),
        ("SqlDate"@, "date"@),
        ("SqlTime"@, "datetime"@),
    ]
}

/// From intermediate label to storage type, in lookup order.
pub open spec fn type_map2() -> Seq<(Seq<char>, Seq<char>)> {
    seq![
        ("str"@, "varchar(32)"@),
        ("text"@, "text(65535)"@),
        ("longtext"@, "longtext"@),
        ("bool"@, "bool"@),
        ("int"@, "int(11)"@),
        ("bigint"@, "int(20)"@),
        ("double"@, "double"@),
        ("date"@, "date"@),
        ("datetime"@, "datetime(6)"@),
    ]
}

/// The value of the first entry whose key is `key`.
pub open spec fn first_match(table: Seq<(Seq<char>, Seq<char>)>, key: Seq<char>) -> Option<
    Seq<char>,
>
    decreases table.len(),
{
    if table.len() == 0 {
        None
    } else if table[0].0 == key {
        Some(table[0].1)
    } else {
        first_match(table.skip(1), key)
    }
}

/// The mapped value of `key`, and `key` itself where the table has no entry
/// for it.
pub open spec fn mapped(table: Seq<(Seq<char>, Seq<char>)>, key: Seq<char>) -> Seq<char> {
    match first_match(table, key) {
        Some(v) => v,
        None => key,
    }
}

/// The storage type inferred for a declared type: through both tables, one
/// after the other.
pub open spec fn sql_type_of(ty: Seq<char>) -> Seq<char> {
    mapped(type_map2(), mapped(type_map1(), ty))
}

/// The storage type of a column: the `type` option where it is set, the
/// inferred type otherwise.
pub open spec fn resolved_sql_type(ty: Seq<char>, opt: Map<Seq<char>, Seq<char>>) -> Seq<char> {
    if opt.contains_key("type"@) {
        opt["type"@]
    } else {
        sql_type_of(ty)
    }
}

/// The column built for a field with the given name, type and options.
pub open spec fn column_of(ident: Seq<char>, ty: Seq<char>, opt: Map<Seq<char>, Seq<char>>)
    -> ColumnModel {
    ColumnModel { ident, ty, name: ident, sql_type: resolved_sql_type(ty, opt), opt }
}

impl ColumnModel {
    /// The column is what [`column_of`] builds from its name, type and options.
    pub open spec fn wf(self) -> bool {
        self == column_of(self.ident, self.ty, self.opt)
    }

    /// The column's name in storage: the `name` option where it is set.
    pub open spec fn sql_name(self) -> Seq<char> {
        if self.opt.contains_key("name"@) {
            self.opt["name"@]
        } else {
            self.name
        }
    }

    /// The column's auto-increment clause: set by the mere presence of the
    /// `auto` option.
    pub open spec fn sql_auto(self) -> Seq<char> {
        if self.opt.contains_key("auto"@) {
            " AUTO_INCREMENT"@
        } else {
            Seq::empty()
        }
    }

    /// The column's key clause, where the `key` option is set: its value
    /// names the kind of key.
    pub open spec fn sql_key(self) -> Option<Seq<char>> {
        if self.opt.contains_key("key"@) {
            let kind = self.opt["key"@];
            if kind.len() == 0 {
                Some("KEY (`"@ + self.sql_name() + "`)"@)
            } else {
                Some(kind + " KEY (`"@ + self.sql_name() + "`)"@)
            }
        } else {
            None
        }
    }

    /// The column is the identity column.
    pub open spec fn is_identity(self) -> bool {
        self.ident == identity_name()
    }
}

impl TableModel {
    /// Every column is well formed.
    pub open spec fn columns_wf(self) -> bool {
        forall|i: int| 0 <= i < self.columns.len() ==> (#[trigger] self.columns[i]).wf()
    }

    /// No two columns have the same name in the program.
    pub open spec fn distinct_idents(self) -> bool {
        forall|i: int, j: int|
            0 <= i < j < self.columns.len() ==> (#[trigger] self.columns[i]).ident != (
            #[trigger] self.columns[j]).ident
    }

    /// The table of a struct: every column is well formed, and the columns
    /// differ in their names, as the fields of a struct do. At most one of
    /// them is then the identity column.
    pub open spec fn wf(self) -> bool {
        self.columns_wf() && self.distinct_idents()
    }
}

/// The options after the entries of one annotation, read from `acc` on:
/// `key = value` entries in order, a later one replacing an earlier one, a
/// value that is no string counting as empty. Fails on the first key that is
/// no identifier.
pub open spec fn column_meta_from(items: Seq<MetaItem>, acc: Map<Seq<char>, Seq<char>>) -> Result<
    Map<Seq<char>, Seq<char>>,
    MacroError,
>
    decreases items.len(),
{
    if items.len() == 0 {
        Ok(acc)
    } else {
        match items[0] {
            MetaItem::NameValue { key: Some(k), value } => column_meta_from(
                items.skip(1),
                acc.insert(k@, value.text_or_empty()),
            ),
            MetaItem::NameValue { key: None, value } => Err(MacroError::PathNotIdent),
            MetaItem::Other => column_meta_from(items.skip(1), acc),
        }
    }
}

/// The options that the entries of one annotation set.
pub open spec fn column_meta(items: Seq<MetaItem>) -> Result<
    Map<Seq<char>, Seq<char>>,
    MacroError,
> {
    column_meta_from(items, Map::empty())
}

/// The table name and pool owner after the entries of one annotation, read
/// from `acc` on: `name` and `who` entries replace them, others are ignored.
/// Fails on the first key that is no identifier.
pub open spec fn table_meta_from(items: Seq<MetaItem>, acc: (Seq<char>, Seq<char>)) -> Result<
    (Seq<char>, Seq<char>),
    MacroError,
>
    decreases items.len(),
{
    if items.len() == 0 {
        Ok(acc)
    } else {
        match items[0] {
            MetaItem::NameValue { key: Some(k), value } => if k@ == "name"@ {
                table_meta_from(items.skip(1), (value.text_or_empty(), acc.1))
            } else if k@ == "who"@ {
                table_meta_from(items.skip(1), (acc.0, value.text_or_empty()))
            } else {
                table_meta_from(items.skip(1), acc)
            },
            MetaItem::NameValue { key: None, value } => Err(MacroError::PathNotIdent),
            MetaItem::Other => table_meta_from(items.skip(1), acc),
        }
    }
}

/// The table name and pool owner that one `table` annotation gives.
pub open spec fn table_meta(items: Seq<MetaItem>) -> Result<(Seq<char>, Seq<char>), MacroError> {
    table_meta_from(items, (default_table_name(), default_who()))
}

/// The table name and pool owner after the annotations of a declaration,
/// read from `acc` on: each `table` annotation sets both anew. Fails on the
/// first annotation with a list whose path is no identifier, and where a
/// `table` annotation fails.
pub open spec fn derived_meta(annotations: Seq<Annotation>, acc: (Seq<char>, Seq<char>))
    -> Result<(Seq<char>, Seq<char>), MacroError>
    decreases annotations.len(),
{
    if annotations.len() == 0 {
        Ok(acc)
    } else {
        match annotations[0].list {
            None => derived_meta(annotations.skip(1), acc),
            Some(list) => match list.ident {
                None => Err(MacroError::PathNotIdent),
                Some(id) => if id@ == "table"@ {
                    match table_meta(list.items@) {
                        Err(e) => Err(e),
                        Ok(p) => derived_meta(annotations.skip(1), p),
                    }
                } else {
                    derived_meta(annotations.skip(1), acc)
                },
            },
        }
    }
}

/// The options of one field after its annotations, read from `acc` on: those
/// of each annotation whose path holds `column`, a later annotation
/// replacing what an earlier one set.
pub open spec fn field_options_from(
    annotations: Seq<Annotation>,
    acc: Map<Seq<char>, Seq<char>>,
) -> Result<Map<Seq<char>, Seq<char>>, MacroError>
    decreases annotations.len(),
{
    if annotations.len() == 0 {
        Ok(acc)
    } else {
        let a = annotations[0];
        if occurs_in("column"@, a.path@) {
            match a.list {
                None => field_options_from(annotations.skip(1), acc),
                Some(list) => match column_meta(list.items@) {
                    Err(e) => Err(e),
                    Ok(n) => field_options_from(annotations.skip(1), acc.union_prefer_right(n)),
                },
            }
        } else {
            field_options_from(annotations.skip(1), acc)
        }
    }
}

/// The options of one field.
pub open spec fn field_options(annotations: Seq<Annotation>) -> Result<
    Map<Seq<char>, Seq<char>>,
    MacroError,
> {
    field_options_from(annotations, Map::empty())
}

/// The column of one field. Fails on a malformed option key, and on a field
/// without a name.
pub open spec fn parsed_column(field: FieldDecl) -> Result<ColumnModel, MacroError> {
    match field_options(field.annotations@) {
        Err(e) => Err(e),
        Ok(opt) => match field.ident {
            None => Err(MacroError::UnnamedField),
            Some(id) => Ok(column_of(id@, field.ty@, opt)),
        },
    }
}

/// The columns after a list of fields, in declared order behind those of
/// `acc`. Fails on the first field that has no column.
pub open spec fn parsed_columns_from(fields: Seq<FieldDecl>, acc: Seq<ColumnModel>) -> Result<
    Seq<ColumnModel>,
    MacroError,
>
    decreases fields.len(),
{
    if fields.len() == 0 {
        Ok(acc)
    } else {
        match parsed_column(fields[0]) {
            Err(e) => Err(e),
            Ok(c) => parsed_columns_from(fields.skip(1), acc.push(c)),
        }
    }
}

/// The columns of a list of fields.
pub open spec fn parsed_columns(fields: Seq<FieldDecl>) -> Result<Seq<ColumnModel>, MacroError> {
    parsed_columns_from(fields, Seq::empty())
}

/// The items of `s` that `keep` accepts, in their order in `s`.
pub open spec fn kept<T>(s: Seq<T>, keep: spec_fn(T) -> bool) -> Seq<T>
    decreases s.len(),
{
    if s.len() == 0 {
        Seq::empty()
    } else {
        let rest = kept(s.drop_last(), keep);
        if keep(s.last()) {
            rest.push(s.last())
        } else {
            rest
        }
    }
}

/// Two filters that agree on every item keep the same items.
pub proof fn lemma_kept_same<T>(s: Seq<T>, f: spec_fn(T) -> bool, g: spec_fn(T) -> bool)
    requires
        forall|x: T| #[trigger] f(x) == g(x),
    ensures
        kept(s, f) == kept(s, g),
    decreases s.len(),
{
    if s.len() > 0 {
        lemma_kept_same(s.drop_last(), f, g);
    }
}

/// Whether a fragment lists a column: every column where the identity
/// column is wanted, every other column where it is not.
pub open spec fn is_selected(c: ColumnModel, use_id: bool) -> bool {
    use_id || !c.is_identity()
}

/// The columns that a fragment lists: all of them, or all but the identity
/// column.
pub open spec fn selected(cols: Seq<ColumnModel>, use_id: bool) -> Seq<ColumnModel> {
    kept(cols, |c: ColumnModel| is_selected(c, use_id))
}

/// The table of a declaration: its name and pool owner from the
/// declaration's annotations, its columns from the fields. Only a struct has
/// one.
pub open spec fn table_of(dvi: Declaration) -> Result<TableModel, MacroError> {
    match dvi.body {
        Body::Struct { style, fields } => match derived_meta(
            dvi.annotations@,
            (default_table_name(), default_who()),
        ) {
            Err(e) => Err(e),
            Ok(p) => match parsed_columns(fields@) {
                Err(e) => Err(e),
                Ok(cols) => Ok(TableModel { name: p.0, who: p.1, columns: cols }),
            },
        },
        Body::Enum => Err(MacroError::NotAStruct),
        Body::Union => Err(MacroError::NotAStruct),
    }
}

} // verus!
