//! The text of each generated fragment, as a function of the table's model.
//!
//! The constants are the fixed parts of the generated code; the spec
//! functions say how names, types and values are set between them.

use crate::decode::{row_decoding, Slot};
use crate::schema::{selected, ColumnModel, TableModel};
use crate::text::{concatenated, joined, string_literal};
use vstd::prelude::*;

verus! {

// The fixed parts of the generated code. Each is named after the fragment
// that it belongs to and after what follows it there.

pub const ASSIGN_OPEN: &'static str = "    pub fn ";

pub const ASSIGN_BOUND: &'static str = "<T>(mut self, v: T) -> Self\n    where\n        T: Into<";

pub const ASSIGN_BODY: &'static str = ">,\n    {\n        self.";

pub const ASSIGN_CLOSE: &'static str = " = v.into();\n        self\n    }\n\n";

pub const CREATE_OPEN: &'static str = "CREATE TABLE `";

pub const CREATE_COLUMNS: &'static str = "` (\n    ";

pub const CREATE_SEPARATOR: &'static str = ",\n    ";

pub const CREATE_CLOSE: &'static str = "\n);";

pub const LINE_OPEN: &'static str = "`";

pub const LINE_TYPE: &'static str = "` ";

pub const LINE_NOT_NULL: &'static str = " NOT NULL";

pub const NAME_COMMA: &'static str = ", ";

pub const EQUAL_SELF: &'static str = "self.";

pub const EQUAL_OTHER: &'static str = " == other.";

pub const EQUAL_AND: &'static str = " && ";

pub const PARAM_COLON: &'static str = ": ";

pub const VALUES_OPEN: &'static str = "let v: Vec<(&str, mysql::Value)> = vec![";

pub const VALUES_CLOSE: &'static str = "];\n        mysql::params::Params::from(v)";

pub const VALUE_OPEN: &'static str = "(";

pub const VALUE_SELF: &'static str = ", self.";

pub const VALUE_CLOSE: &'static str = ".clone().into())";

/// The texts that a renderer gives for each column, with the column's
/// position, name and declared type.
pub open spec fn per_column(
    cols: Seq<ColumnModel>,
    render: spec_fn(int, Seq<char>, Seq<char>) -> Seq<char>,
) -> Seq<Seq<char>> {
    Seq::new(cols.len(), |i: int| render(i, cols[i].ident, cols[i].ty))
}

/// The builder method of one field: it takes any value that converts into
/// the field's type, sets the field and hands the value back.
pub open spec fn assign_method(ident: Seq<char>, ty: Seq<char>) -> Seq<char> {
    ASSIGN_OPEN@ + ident + ASSIGN_BOUND@ + ty + ASSIGN_BODY@ + ident + ASSIGN_CLOSE@
}

/// The renderer of [`assign_method`].
pub open spec fn assign_render() -> spec_fn(int, Seq<char>, Seq<char>) -> Seq<char> {
    |i: int, ident: Seq<char>, ty: Seq<char>| assign_method(ident, ty)
}

/// The builder methods of all fields, in declared order.
pub open spec fn assign_methods(cols: Seq<ColumnModel>) -> Seq<char> {
    concatenated(per_column(cols, assign_render()))
}

/// The values of a table's rows: one per column, at the column's position,
/// decoded into a local named like the field.
pub open spec fn column_slots(cols: Seq<ColumnModel>) -> Seq<Slot> {
    Seq::new(
        cols.len(),
        |i: int| Slot { position: i as nat, ident: cols[i].ident, ty: cols[i].ty },
    )
}

/// The statements that decode a row, one value per column, in declared
/// order.
pub open spec fn from_row_steps(cols: Seq<ColumnModel>) -> Seq<char> {
    row_decoding(column_slots(cols))
}

/// One line of the table-creation statement: the column's storage name and
/// type, and whether it counts itself up.
pub open spec fn column_line(c: ColumnModel) -> Seq<char> {
    LINE_OPEN@ + c.sql_name() + LINE_TYPE@ + c.sql_type + LINE_NOT_NULL@ + c.sql_auto()
}

/// The lines of all columns, in declared order.
pub open spec fn column_lines(cols: Seq<ColumnModel>) -> Seq<Seq<char>> {
    cols.map_values(|c: ColumnModel| column_line(c))
}

/// The key clauses of the columns that have one, in declared order.
pub open spec fn key_lines(cols: Seq<ColumnModel>) -> Seq<Seq<char>>
    decreases cols.len(),
{
    if cols.len() == 0 {
        Seq::empty()
    } else {
        let rest = key_lines(cols.drop_last());
        match cols.last().sql_key() {
            Some(k) => rest.push(k),
            None => rest,
        }
    }
}

/// The statement that creates the table: one line per column, then one per
/// key.
pub open spec fn create_table_text(t: TableModel) -> Seq<char> {
    CREATE_OPEN@ + t.name + CREATE_COLUMNS@ + joined(
        column_lines(t.columns) + key_lines(t.columns),
        CREATE_SEPARATOR@,
    ) + CREATE_CLOSE@
}

/// `a, b, c, `: every field name with a comma behind it.
pub open spec fn fields_c(cols: Seq<ColumnModel>) -> Seq<char> {
    joined(cols.map_values(|c: ColumnModel| c.ident + NAME_COMMA@), Seq::empty())
}

/// `self.a == other.a`
pub open spec fn equal_term(c: ColumnModel) -> Seq<char> {
    EQUAL_SELF@ + c.ident + EQUAL_OTHER@ + c.ident
}

/// `self.a == other.a && self.b == other.b`: the listed columns compared
/// one by one.
pub open spec fn fields_ee(cols: Seq<ColumnModel>, use_id: bool) -> Seq<char> {
    joined(selected(cols, use_id).map_values(|c: ColumnModel| equal_term(c)), EQUAL_AND@)
}

/// `a: A`
pub open spec fn param_term(c: ColumnModel) -> Seq<char> {
    c.ident + PARAM_COLON@ + c.ty
}

/// `a: A, b: B`: every column but the identity column as a parameter.
pub open spec fn fields_fi(cols: Seq<ColumnModel>) -> Seq<char> {
    joined(selected(cols, false).map_values(|c: ColumnModel| param_term(c)), NAME_COMMA@)
}

/// The storage names of the listed columns, each between `left` and `right`.
pub open spec fn string_entries(
    cols: Seq<ColumnModel>,
    left: Seq<char>,
    right: Seq<char>,
    use_id: bool,
) -> Seq<Seq<char>> {
    selected(cols, use_id).map_values(|c: ColumnModel| left + c.sql_name() + right)
}

/// `left name right sep ... left name right`
pub open spec fn fields_string(
    cols: Seq<ColumnModel>,
    left: Seq<char>,
    right: Seq<char>,
    sep: Seq<char>,
    use_id: bool,
) -> Seq<char> {
    joined(string_entries(cols, left, right, use_id), sep)
}

/// The storage names of the listed columns, each twice: behind `left` and
/// behind `mid`, with `right` at the end.
pub open spec fn string2_entries(
    cols: Seq<ColumnModel>,
    left: Seq<char>,
    mid: Seq<char>,
    right: Seq<char>,
    use_id: bool,
) -> Seq<Seq<char>> {
    selected(cols, use_id).map_values(
        |c: ColumnModel| left + c.sql_name() + mid + c.sql_name() + right,
    )
}

/// `left name mid name right sep ... left name mid name right`
pub open spec fn fields_string2(
    cols: Seq<ColumnModel>,
    left: Seq<char>,
    mid: Seq<char>,
    right: Seq<char>,
    sep: Seq<char>,
    use_id: bool,
) -> Seq<char> {
    joined(string2_entries(cols, left, mid, right, use_id), sep)
}

/// `("a", self.a.clone().into())`: a column's storage name with a copy of
/// the field's value.
pub open spec fn value_term(c: ColumnModel) -> Seq<char> {
    VALUE_OPEN@ + string_literal(c.sql_name()) + VALUE_SELF@ + c.ident + VALUE_CLOSE@
}

/// The pairs of the listed columns, in declared order.
pub open spec fn value_terms(cols: Seq<ColumnModel>, use_id: bool) -> Seq<Seq<char>> {
    selected(cols, use_id).map_values(|c: ColumnModel| value_term(c))
}

/// The statements that collect the pairs of the listed columns as the
/// parameters of a query.
pub open spec fn fields_v(cols: Seq<ColumnModel>, use_id: bool) -> Seq<char> {
    VALUES_OPEN@ + joined(value_terms(cols, use_id), NAME_COMMA@) + VALUES_CLOSE@
}

pub const IMPL_OPEN: &'static str = "impl ";

pub const BLOCK_CLOSE: &'static str = "}\n\n";

pub const INHERENT_CREATE: &'static str =
    " {\n    #[auto_func_name]\n    /// 保存\n    pub fn create_with(";

pub const INHERENT_RESULT: &'static str =
    ") -> Result<Option<u64>, MoreError> {\n        let id = 0;\n        Self { ";

pub const INHERENT_CLOSE: &'static str = "}.create().m(m!(__func__))\n    }\n\n";

pub const SQL_MODEL_OPEN: &'static str = "impl SqlModel for ";

pub const SQL_MODEL_EQUAL: &'static str =
    " {\n    /// 比较两个 obj\n    fn equal(&self, other: &Self) -> bool {\n        ";

pub const SQL_MODEL_EQUAL_WITHOUT_ID: &'static str =
    "\n    }\n\n    /// 比较两个 obj, 排除 id\n    fn equal_without_id(&self, other: &Self) -> bool {\n        ";

pub const SQL_MODEL_LOCK: &'static str =
    "\n    }\n\n    /// 返回加锁的 DbPool, 使用者需命名并引入 WhoCreateDbPool 或 who 属性指定的类名\n    #[auto_func_name]\n    fn lock() -> Result<std::sync::MutexGuard<'static, python_comm::use_sql::DbPool>, python_comm::use_m::MoreError> {\n        ";

pub const SQL_MODEL_LOCK_CLOSE: &'static str = "::lock().m(m!(__func__))\n    }\n\n";

pub const METHOD_OPEN: &'static str = "    fn ";

pub const METHOD_STATIC_STR: &'static str = "() -> &'static str {\n        ";

pub const METHOD_PARAMS: &'static str = "(&self) -> mysql::params::Params {\n        ";

pub const METHOD_CLOSE: &'static str = "\n    }\n\n";

pub const FROM_ROW_IMPL_OPEN: &'static str = "impl mysql::prelude::FromRow for ";

pub const FROM_ROW_IMPL_FN: &'static str =
    " {\n    fn from_row_opt(mut row: mysql::Row) -> Result<Self, mysql::FromRowError> {\n";

pub const FROM_ROW_IMPL_OK: &'static str = "        Ok(Self {\n            ";

pub const FROM_ROW_IMPL_CLOSE: &'static str = "\n        })\n    }\n}\n";

/// A method without parameters that returns `content` as a string literal.
pub open spec fn static_str_method(name: Seq<char>, content: Seq<char>) -> Seq<char> {
    METHOD_OPEN@ + name + METHOD_STATIC_STR@ + string_literal(content) + METHOD_CLOSE@
}

/// A method on `&self` that returns query parameters, with `body` as its
/// statements.
pub open spec fn params_method(name: Seq<char>, body: Seq<char>) -> Seq<char> {
    METHOD_OPEN@ + name + METHOD_PARAMS@ + body + METHOD_CLOSE@
}

/// The type's own methods: `create_with`, which takes every column but the
/// identity column, and one builder method per field.
pub open spec fn inherent_impl(t: TableModel, ident: Seq<char>) -> Seq<char> {
    IMPL_OPEN@ + ident + INHERENT_CREATE@ + fields_fi(t.columns) + INHERENT_RESULT@ + fields_c(
        t.columns,
    ) + INHERENT_CLOSE@ + assign_methods(t.columns) + BLOCK_CLOSE@
}

/// The field lists of the model, each as a method that returns a string.
pub open spec fn field_list_methods(t: TableModel) -> Seq<char> {
    static_str_method("make_create_table"@, create_table_text(t)) + static_str_method(
        "make_fields_b"@,
        fields_string(t.columns, "`"@, "`"@, ", "@, true),
    ) + static_str_method("make_fields_bi"@, fields_string(t.columns, "`"@, "`"@, ", "@, false))
        + static_str_method(
        "make_fields_e"@,
        fields_string2(t.columns, "`"@, "`=:"@, ""@, ", "@, true),
    ) + static_str_method(
        "make_fields_ei"@,
        fields_string2(t.columns, "`"@, "`=:"@, ""@, ", "@, false),
    ) + static_str_method("make_fields_p"@, fields_string(t.columns, ":"@, ""@, ", "@, true))
        + static_str_method("make_fields_pi"@, fields_string(t.columns, ":"@, ""@, ", "@, false))
        + static_str_method("make_fields_q"@, fields_string(t.columns, "\""@, "\""@, ", "@, true))
        + static_str_method("make_fields_qc"@, fields_string(t.columns, "\""@, "\", "@, ""@, true))
}

/// The model's capabilities: the two comparisons, the locked pool of the
/// pool owner, the field lists, the query parameters and the table name.
pub open spec fn sql_model_impl(t: TableModel, ident: Seq<char>) -> Seq<char> {
    SQL_MODEL_OPEN@ + ident + SQL_MODEL_EQUAL@ + fields_ee(t.columns, true)
        + SQL_MODEL_EQUAL_WITHOUT_ID@ + fields_ee(t.columns, false) + SQL_MODEL_LOCK@ + t.who
        + SQL_MODEL_LOCK_CLOSE@ + field_list_methods(t) + params_method(
        "make_fields_v"@,
        fields_v(t.columns, true),
    ) + params_method("make_fields_vi"@, fields_v(t.columns, false)) + static_str_method(
        "table_name"@,
        t.name,
    ) + BLOCK_CLOSE@
}

/// The decoding of a row: one step per column, then the value built from
/// the locals.
pub open spec fn from_row_impl(t: TableModel, ident: Seq<char>) -> Seq<char> {
    FROM_ROW_IMPL_OPEN@ + ident + FROM_ROW_IMPL_FN@ + from_row_steps(t.columns)
        + FROM_ROW_IMPL_OK@ + fields_c(t.columns) + FROM_ROW_IMPL_CLOSE@
}

/// Everything generated for a model, in one text.
pub open spec fn sql_model_text(t: TableModel, ident: Seq<char>) -> Seq<char> {
    inherent_impl(t, ident) + sql_model_impl(t, ident) + from_row_impl(t, ident)
}

pub const IMPL_BODY_OPEN: &'static str = " {\n";

pub const IMPL_BODY_CLOSE: &'static str = "}\n";

/// An `impl` block of the type named `ident` with `methods` in it.
pub open spec fn inherent_block(ident: Seq<char>, methods: Seq<char>) -> Seq<char> {
    IMPL_OPEN@ + ident + IMPL_BODY_OPEN@ + methods + IMPL_BODY_CLOSE@
}

} // verus!
