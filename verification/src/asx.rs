//! Marshalling code for structs: builder methods that take the field's own
//! type, conversions to and from Python dictionaries and objects, and the
//! queries of a table whose columns are named like the fields.

use crate::decl::{
    all_named, check_all_named, field_ident, Body, Declaration, FieldDecl, FieldStyle, MacroError,
};
use crate::decode::{make_row_decoding, row_decoding, slot_models, RowSlot, Slot};
use crate::fields::{map_shown_fields, mapped_fields};
use crate::fragments::{inherent_block, IMPL_BODY_CLOSE, IMPL_BODY_OPEN, IMPL_OPEN};
use crate::sql_model::text_outcome;
use crate::text::{ends_with, is_suffix, rust_string_literal, same_text, string_literal};
use vstd::prelude::*;

verus! {

// The fixed parts of the generated code. Each is named after the fragment
// that it belongs to and after what follows it there.

pub const HIDDEN_SUFFIX: &'static str = "_default";

pub const MIRROR_PREFIX: &'static str = "Py";

pub const DECIMAL: &'static str = "Decimal";

pub const NAIVE_DATE: &'static str = "NaiveDate";

pub const NAIVE_DATE_TIME: &'static str = "NaiveDateTime";

pub const PY_DECIMAL: &'static str = "python_comm::types::PyDecimal";

pub const PY_NAIVE_DATE: &'static str = "python_comm::types::PyNaiveDate";

pub const PY_NAIVE_DATE_TIME: &'static str = "python_comm::types::PyNaiveDateTime";

pub const WRAP_OPEN: &'static str = "(self.";

pub const WRAP_CLOSE: &'static str = ")";

pub const SELF_DOT: &'static str = "self.";

pub const STRING: &'static str = "String";

pub const DATE: &'static str = "Date";

pub const COPY_STRING: &'static str = ".clone()";

pub const COPY_DATE: &'static str = ".s().clone()";

pub const BACKQUOTE: &'static str = "`";

pub const BACKQUOTE_EQUALS: &'static str = "`=:";

pub const COLON: &'static str = ":";

pub const COMMA: &'static str = ", ";

pub const SETTER_OPEN: &'static str = "    #[allow(dead_code)]\n    pub fn ";

pub const SETTER_VALUE: &'static str = "(mut self, v: ";

pub const SETTER_BODY: &'static str = ") -> Self {\n        self.";

pub const SETTER_CLOSE: &'static str = " = v;\n        self\n    }\n\n";

pub const FIELD_INDENT: &'static str = "    ";

pub const FIELD_COLON: &'static str = ": ";

pub const FIELD_END: &'static str = ",\n";

pub const DICT_FROM_OPEN: &'static str = "            ";

pub const DICT_FROM_ITEM: &'static str = ": dict\n                .get_item(stringify!(";

pub const DICT_FROM_ERROR: &'static str =
    "))\n                .ok_or(raise_error!(\n                    \"raw\",\n                    __func__,\n                    format!(r#\"get_item(\"{}\") error\"#, stringify!(";

pub const DICT_FROM_CLOSE: &'static str =
    "))\n                ))?\n                .extract()\n                .or_else(|err| raise_error!(__func__, \"\\n\", err))?,\n";

pub const DICT_INTO_OPEN: &'static str = "        let _ = dict.set_item(\n            stringify!(";

pub const DICT_INTO_VALUE: &'static str =
    "),\n            pyo3::IntoPy::<pyo3::PyObject>::into_py(";

pub const DICT_INTO_CLOSE: &'static str = ", python),\n        );\n";

pub const OBJECT_FROM_OPEN: &'static str = "            ";

pub const OBJECT_FROM_ATTR: &'static str = ": obj\n                .getattr(stringify!(";

pub const OBJECT_FROM_CLOSE: &'static str =
    "))\n                .or_else(|err| raise_error!(__func__, \"\\n\", err))?\n                .extract()\n                .or_else(|err| raise_error!(__func__, \"\\n\", err))?,\n";

pub const OBJECT_INTO_OPEN: &'static str = "            let _ = obj.setattr(stringify!(";

pub const OBJECT_INTO_VALUE: &'static str = "), ";

pub const OBJECT_INTO_CLOSE: &'static str = ");\n";

pub const FIELD_MOVE_OPEN: &'static str = "            ";

pub const FIELD_MOVE_SELF: &'static str = ": self.";

pub const FIELD_MOVE_CLOSE: &'static str = ".into(),\n";

pub const MIRROR_OPEN: &'static str = "#[cfg(feature = \"use_pyo3\")]\nstruct ";

pub const MIRROR_FIELDS: &'static str = " {\n";

pub const MIRROR_CLOSE: &'static str = "}\n\n";

pub const MIRROR_INTO_OPEN: &'static str = "#[cfg(feature = \"use_pyo3\")]\nimpl Into<";

pub const MIRROR_INTO_FOR: &'static str = "> for ";

pub const MIRROR_INTO_FN: &'static str = " {\n    fn into(self) -> ";

pub const MIRROR_INTO_RESULT: &'static str = " {\n        ";

pub const MIRROR_INTO_VALUE: &'static str = " {\n";

pub const MIRROR_INTO_CLOSE: &'static str = "        }\n    }\n}\n";

pub const DICT_EXTRACT_OPEN: &'static str =
    "#[cfg(feature = \"use_pyo3\")]\nimpl pyo3::FromPyObject<'_> for ";

pub const DICT_EXTRACT_MIRROR: &'static str =
    " {\n    #[auto_func_name]\n    fn extract(obj: &pyo3::types::PyAny) -> Result<Self, pyo3::PyErr> {\n        let pyobj = ";

pub const DICT_INTO_PY_OPEN: &'static str =
    "::extract(obj)\n            .or_else(|err| raise_error!(\"py\", __func__, \"for #struct_ident\", \"\\n\", err))?;\n        Ok(pyobj.into())\n    }\n}\n\n#[cfg(feature = \"use_pyo3\")]\nimpl pyo3::IntoPy<pyo3::PyObject> for ";

pub const DICT_INTO_PY_FIELDS: &'static str =
    " {\n    fn into_py(self, python: pyo3::Python) -> pyo3::PyObject {\n        let dict = pyo3::types::PyDict::new(python);\n";

pub const DICT_MIRROR_OPEN: &'static str =
    "        dict.into()\n    }\n}\n\n#[cfg(feature = \"use_pyo3\")]\nimpl ";

pub const DICT_MIRROR_FIELDS: &'static str =
    " {\n    #[auto_func_name]\n    fn extract(obj: &pyo3::types::PyAny) -> Result<Self, anyhow::Error> {\n        let dict: &pyo3::types::PyDict = obj.cast_as()\n            .or_else(|err| raise_error!(__func__, \"for #py_ident\", \"\\n\", err))?;\n        Ok(Self {\n";

pub const DICT_MIRROR_CLOSE: &'static str = "        })\n    }\n}\n\n";

pub const OBJECT_EXTRACT_OPEN: &'static str =
    "#[cfg(feature = \"use_pyo3\")]\nimpl pyo3::FromPyObject<'_> for ";

pub const OBJECT_EXTRACT_MIRROR: &'static str =
    " {\n    #[auto_func_name]\n    fn extract(obj: &pyo3::types::PyAny) -> Result<Self, pyo3::PyErr> {\n        let pyobj = ";

pub const OBJECT_INTO_PY_OPEN: &'static str =
    "::extract(obj).or_else(|err| raise_error!(\"py\", __func__, \"\\n\", err))?;\n        Ok(pyobj.into())\n    }\n}\n\n#[cfg(feature = \"use_pyo3\")]\nimpl pyo3::IntoPy<pyo3::PyObject> for ";

pub const OBJECT_INTO_PY_FIELDS: &'static str =
    " {\n    fn into_py(self, python: pyo3::Python) -> pyo3::PyObject {\n        let out = python_comm::types::PyClassObject {}.into_py(python);\n        if let Ok(obj) = out.extract::<&pyo3::types::PyAny>(python) {\n";

pub const OBJECT_MIRROR_OPEN: &'static str =
    "        }\n        out\n    }\n}\n\n#[cfg(feature = \"use_pyo3\")]\nimpl ";

pub const OBJECT_MIRROR_FIELDS: &'static str =
    " {\n    #[auto_func_name]\n    fn extract(obj: &pyo3::types::PyAny) -> Result<Self, anyhow::Error> {\n        Ok(Self {\n";

pub const OBJECT_MIRROR_CLOSE: &'static str = "        })\n    }\n}\n\n";

pub const PARAM_PAIR_OPEN: &'static str = "stringify!(";

pub const PARAM_PAIR_VALUE: &'static str = ") => ";

pub const PARAM_PAIR_CLOSE: &'static str = ", ";

pub const QUERIES_OPEN: &'static str = "impl ";

pub const QUERIES_NAMES: &'static str =
    " {\n    /// 字段名, 含替换规则\n    pub fn field_names() -> String {\n        let mut names = ";

pub const QUERIES_UPDATE: &'static str =
    ".to_string();\n        for (from_str, to_str) in &Self::replace() {\n            names = names.replace(from_str, to_str);\n        }\n        names\n    }\n\n    /// 获取多个记录, 含带参条件\n    #[auto_func_name]\n    pub fn get_rows<P>(where_and_more: &str, params: P) -> Result<Vec<Self>, anyhow::Error>\n    where\n        P: Into<mysql::params::Params>,\n    {\n        let sql = format!(\n            \"SELECT {} FROM {} {}\",\n            Self::field_names(),\n            Self::table_name(),\n            where_and_more\n        );\n        let results = GlobalDbPool::get()\n            .or_else(|err| raise_error!(__func__, \"\\n\", err))?\n            .exec_opt(&sql, params)\n            .or_else(|err| raise_error!(__func__, &sql, \"\\n\", err))?;\n        for result in &results {\n            if let Err(err) = result {\n                return raise_error!(__func__, \"\\n\", err);\n            }\n        }\n        Ok(results.into_iter().map(|x| x.unwrap()).collect())\n    }\n\n    /// 获取多个记录, 不含带参参数\n    #[auto_func_name]\n    pub fn get_rows2(where_and_more: &str) -> Result<Vec<Self>, anyhow::Error> {\n        let sql = format!(\n            \"SELECT {} FROM {} {}\",\n            Self::field_names(),\n            Self::table_name(),\n            where_and_more\n        );\n        let results = GlobalDbPool::get()\n            .or_else(|err| raise_error!(__func__, \"\\n\", err))?\n            .exec_opt(&sql, mysql::params::Params::Empty)\n            .or_else(|err| raise_error!(__func__, &sql, \"\\n\", err))?;\n        for result in &results {\n            if let Err(err) = result {\n                return raise_error!(__func__, \"\\n\", err);\n            }\n        }\n        Ok(results.into_iter().map(|x| x.unwrap()).collect())\n    }\n\n    /// 获取单个记录, 含带参条件\n    #[auto_func_name]\n    pub fn get_row<P>(where_and_more: &str, params: P) -> Result<Option<Self>, anyhow::Error>\n    where\n        P: Into<mysql::params::Params>,\n    {\n        let sql = format!(\n            \"SELECT {} FROM {} {} LIMIT 1\",\n            Self::field_names(),\n            Self::table_name(),\n            where_and_more\n        );\n        match GlobalDbPool::get()\n            .or_else(|err| raise_error!(__func__, \"\\n\", err))?\n            .exec_first_opt(&sql, params)\n            .or_else(|err| raise_error!(__func__, &sql, \"\\n\", err))?\n        {\n            Some(Ok(result)) => Ok(Some(result)),\n            Some(Err(err)) => raise_error!(__func__, \"\\n\", err),\n            None => Ok(None),\n        }\n    }\n\n    /// 获取单个记录, 不含带参参数\n    #[auto_func_name]\n    pub fn get_row2(where_and_more: &str) -> Result<Option<Self>, anyhow::Error> {\n        let sql = format!(\n            \"SELECT {} FROM {} {} LIMIT 1\",\n            Self::field_names(),\n            Self::table_name(),\n            where_and_more\n        );\n        match GlobalDbPool::get()\n            .or_else(|err| raise_error!(__func__, \"\\n\", err))?\n            .exec_first_opt(&sql, mysql::params::Params::Empty)\n            .or_else(|err| raise_error!(__func__, &sql, \"\\n\", err))?\n        {\n            Some(Ok(result)) => Ok(Some(result)),\n            Some(Err(err)) => raise_error!(__func__, \"\\n\", err),\n            None => Ok(None),\n        }\n    }\n\n    /// 保存\n    #[auto_func_name]\n    pub fn save(&self) -> Result<Option<u64>, anyhow::Error> {\n        let mut sql = GlobalDbPool::get().or_else(|err| raise_error!(__func__, \"\\n\", err))?;\n        if self.id != 0 {\n            let text = format!(\"UPDATE {} SET {} WHERE id={}\", Self::table_name(), ";

pub const QUERIES_UPDATE_PARAMS: &'static str =
    ", self.id);\n            sql\n                .exec_drop(&text, params! {";

pub const QUERIES_INSERT: &'static str =
    "})\n                .or_else(|err| raise_error!(__func__, &text, \"\\n\", err))?;\n            Ok(None)\n        } else {\n            let text = format!(\n                \"INSERT INTO {} ({}) VALUES ({})\",\n                Self::table_name(),\n                ";

pub const QUERIES_INSERT_VALUES: &'static str = ",\n                ";

pub const QUERIES_INSERT_PARAMS: &'static str =
    ",\n            );\n            let ret = sql\n                .exec_iter(&text, params! {";

pub const QUERIES_CLOSE: &'static str =
    "})\n                .or_else(|err| raise_error!(__func__, &text, \"\\n\", err))?;\n            Ok(ret.last_insert_id())\n        }\n    }\n}\n\n";

pub const ROW_OPEN: &'static str = "impl mysql::prelude::FromRow for ";

pub const ROW_STEPS: &'static str =
    " {\n    fn from_row_opt(mut row: mysql::Row) -> Result<Self, mysql::FromRowError> {\n";

pub const ROW_OK: &'static str = "        Ok(Self {\n            ";

pub const ROW_CLOSE: &'static str = "\n        })\n    }\n}\n";

/// A field is left out where its name ends with `_default`.
pub open spec fn is_hidden(ident: Seq<char>) -> bool {
    is_suffix(HIDDEN_SUFFIX@, ident)
}

/// The filter of [`is_hidden`].
pub open spec fn hides() -> spec_fn(Seq<char>) -> bool {
    |ident: Seq<char>| is_hidden(ident)
}

/// The name of the mirror struct of a struct.
pub open spec fn mirror_ident(ident: Seq<char>) -> Seq<char> {
    MIRROR_PREFIX@ + ident
}

/// The type that a field has in the mirror struct: decimals, dates and
/// date-times have wrappers, every other type stands for itself.
pub open spec fn mirror_type(ty: Seq<char>) -> Seq<char> {
    if ty == DECIMAL@ {
        PY_DECIMAL@
    } else if ty == NAIVE_DATE@ {
        PY_NAIVE_DATE@
    } else if ty == NAIVE_DATE_TIME@ {
        PY_NAIVE_DATE_TIME@
    } else {
        ty
    }
}

/// The value that a field hands to Python: in its wrapper where its type
/// has one, as it is otherwise.
pub open spec fn mirror_value(ident: Seq<char>, ty: Seq<char>) -> Seq<char> {
    if ty == DECIMAL@ {
        PY_DECIMAL@ + WRAP_OPEN@ + ident + WRAP_CLOSE@
    } else if ty == NAIVE_DATE@ {
        PY_NAIVE_DATE@ + WRAP_OPEN@ + ident + WRAP_CLOSE@
    } else if ty == NAIVE_DATE_TIME@ {
        PY_NAIVE_DATE_TIME@ + WRAP_OPEN@ + ident + WRAP_CLOSE@
    } else {
        SELF_DOT@ + ident
    }
}

/// The value that a field hands to a statement: a copy of a string or of a
/// date's text, any other value as it is.
pub open spec fn param_value(ident: Seq<char>, ty: Seq<char>) -> Seq<char> {
    if ty == STRING@ {
        SELF_DOT@ + ident + COPY_STRING@
    } else if ty == DATE@ {
        SELF_DOT@ + ident + COPY_DATE@
    } else {
        SELF_DOT@ + ident
    }
}

/// A comma behind every entry but the one made from the last of all fields.
pub open spec fn comma_unless(last: bool) -> Seq<char> {
    if last {
        Seq::empty()
    } else {
        COMMA@
    }
}

/// `` `a`, ``: a field's name between backquotes.
pub open spec fn backquoted(ident: Seq<char>, last: bool) -> Seq<char> {
    BACKQUOTE@ + ident + BACKQUOTE@ + comma_unless(last)
}

/// `` `a`=:a, ``: a field's name set to the parameter of its name.
pub open spec fn assignment(ident: Seq<char>, last: bool) -> Seq<char> {
    BACKQUOTE@ + ident + BACKQUOTE_EQUALS@ + ident + comma_unless(last)
}

/// `:a, `: the parameter named like a field.
pub open spec fn placeholder(ident: Seq<char>, last: bool) -> Seq<char> {
    COLON@ + ident + comma_unless(last)
}

/// `a, `: a field's name with a comma behind it.
pub open spec fn name_comma(ident: Seq<char>) -> Seq<char> {
    ident + COMMA@
}

/// A builder method that takes the field's own type.
pub open spec fn setter(ident: Seq<char>, ty: Seq<char>) -> Seq<char> {
    SETTER_OPEN@ + ident + SETTER_VALUE@ + ty + SETTER_BODY@ + ident + SETTER_CLOSE@
}

/// A field of the mirror struct: the field's name with its mirror type.
pub open spec fn field_def(ident: Seq<char>, mirror: Seq<char>) -> Seq<char> {
    FIELD_INDENT@ + ident + FIELD_COLON@ + mirror + FIELD_END@
}

/// Reads one field from a dictionary, by the field's name.
pub open spec fn dict_field_from(ident: Seq<char>) -> Seq<char> {
    DICT_FROM_OPEN@ + ident + DICT_FROM_ITEM@ + ident + DICT_FROM_ERROR@ + ident
        + DICT_FROM_CLOSE@
}

/// Writes one field into a dictionary, under the field's name.
pub open spec fn dict_field_into(ident: Seq<char>, value: Seq<char>) -> Seq<char> {
    DICT_INTO_OPEN@ + ident + DICT_INTO_VALUE@ + value + DICT_INTO_CLOSE@
}

/// Reads one field from an object, as the attribute named like the field.
pub open spec fn object_field_from(ident: Seq<char>) -> Seq<char> {
    OBJECT_FROM_OPEN@ + ident + OBJECT_FROM_ATTR@ + ident + OBJECT_FROM_CLOSE@
}

/// Writes one field into an object, as the attribute named like the field.
pub open spec fn object_field_into(ident: Seq<char>, value: Seq<char>) -> Seq<char> {
    OBJECT_INTO_OPEN@ + ident + OBJECT_INTO_VALUE@ + value + OBJECT_INTO_CLOSE@
}

/// Moves one field from the mirror struct into the struct.
pub open spec fn field_into_py(ident: Seq<char>) -> Seq<char> {
    FIELD_MOVE_OPEN@ + ident + FIELD_MOVE_SELF@ + ident + FIELD_MOVE_CLOSE@
}

/// The mirror struct: the struct's fields with their mirror types.
pub open spec fn mirror_struct(py_ident: Seq<char>, field_defs: Seq<char>) -> Seq<char> {
    MIRROR_OPEN@ + py_ident + MIRROR_FIELDS@ + field_defs + MIRROR_CLOSE@
}

/// The conversion from the mirror struct into the struct, field by field.
pub open spec fn mirror_into(
    struct_ident: Seq<char>,
    py_ident: Seq<char>,
    moves: Seq<char>,
) -> Seq<char> {
    MIRROR_INTO_OPEN@ + struct_ident + MIRROR_INTO_FOR@ + py_ident + MIRROR_INTO_FN@
        + struct_ident + MIRROR_INTO_RESULT@ + struct_ident + MIRROR_INTO_VALUE@ + moves
        + MIRROR_INTO_CLOSE@
}

/// The conversions between a struct and a dictionary, through the mirror struct.
pub open spec fn dict_body(
    struct_ident: Seq<char>,
    py_ident: Seq<char>,
    intos: Seq<char>,
    froms: Seq<char>,
) -> Seq<char> {
    DICT_EXTRACT_OPEN@ + struct_ident + DICT_EXTRACT_MIRROR@ + py_ident + DICT_INTO_PY_OPEN@
        + struct_ident + DICT_INTO_PY_FIELDS@ + intos + DICT_MIRROR_OPEN@ + py_ident
        + DICT_MIRROR_FIELDS@ + froms + DICT_MIRROR_CLOSE@
}

/// The conversions between a struct and an object, through the mirror struct.
pub open spec fn object_body(
    struct_ident: Seq<char>,
    py_ident: Seq<char>,
    intos: Seq<char>,
    froms: Seq<char>,
) -> Seq<char> {
    OBJECT_EXTRACT_OPEN@ + struct_ident + OBJECT_EXTRACT_MIRROR@ + py_ident
        + OBJECT_INTO_PY_OPEN@ + struct_ident + OBJECT_INTO_PY_FIELDS@ + intos
        + OBJECT_MIRROR_OPEN@ + py_ident + OBJECT_MIRROR_FIELDS@ + froms + OBJECT_MIRROR_CLOSE@
}

/// One named parameter of a statement: the field's name with its value.
pub open spec fn param_pair(ident: Seq<char>, value: Seq<char>) -> Seq<char> {
    PARAM_PAIR_OPEN@ + ident + PARAM_PAIR_VALUE@ + value + PARAM_PAIR_CLOSE@
}

/// The queries of a table: the field names, the readers of rows, and `save`.
pub open spec fn sql_table_queries(
    struct_ident: Seq<char>,
    names: Seq<char>,
    updates: Seq<char>,
    update_params: Seq<char>,
    columns: Seq<char>,
    places: Seq<char>,
    insert_params: Seq<char>,
) -> Seq<char> {
    QUERIES_OPEN@ + struct_ident + QUERIES_NAMES@ + names + QUERIES_UPDATE@ + updates
        + QUERIES_UPDATE_PARAMS@ + update_params + QUERIES_INSERT@ + columns
        + QUERIES_INSERT_VALUES@ + places + QUERIES_INSERT_PARAMS@ + insert_params
        + QUERIES_CLOSE@
}

/// The decoding of a row: the values decoded, then the struct built from the locals.
pub open spec fn sql_table_from_row(
    struct_ident: Seq<char>,
    steps: Seq<char>,
    names: Seq<char>,
) -> Seq<char> {
    ROW_OPEN@ + struct_ident + ROW_STEPS@ + steps + ROW_OK@ + names + ROW_CLOSE@
}

/// The renderer of [`setter`].
pub open spec fn setter_render() -> spec_fn(int, Seq<char>, Seq<char>, bool) -> Seq<char> {
    |i: int, ident: Seq<char>, ty: Seq<char>, last: bool| setter(ident, ty)
}

/// The renderer of [`field_def`].
pub open spec fn field_def_render() -> spec_fn(int, Seq<char>, Seq<char>, bool) -> Seq<char> {
    |i: int, ident: Seq<char>, ty: Seq<char>, last: bool| field_def(ident, mirror_type(ty))
}

/// The renderer of [`dict_field_from`].
pub open spec fn dict_field_from_render() -> spec_fn(int, Seq<char>, Seq<char>, bool) -> Seq<char> {
    |i: int, ident: Seq<char>, ty: Seq<char>, last: bool| dict_field_from(ident)
}

/// The renderer of [`dict_field_into`].
pub open spec fn dict_field_into_render() -> spec_fn(int, Seq<char>, Seq<char>, bool) -> Seq<char> {
    |i: int, ident: Seq<char>, ty: Seq<char>, last: bool|
        dict_field_into(ident, mirror_value(ident, ty))
}

/// The renderer of [`object_field_from`].
pub open spec fn object_field_from_render() -> spec_fn(int, Seq<char>, Seq<char>, bool) -> Seq<char> {
    |i: int, ident: Seq<char>, ty: Seq<char>, last: bool| object_field_from(ident)
}

/// The renderer of [`object_field_into`].
pub open spec fn object_field_into_render() -> spec_fn(int, Seq<char>, Seq<char>, bool) -> Seq<char> {
    |i: int, ident: Seq<char>, ty: Seq<char>, last: bool|
        object_field_into(ident, mirror_value(ident, ty))
}

/// The renderer of [`field_into_py`].
pub open spec fn field_into_py_render() -> spec_fn(int, Seq<char>, Seq<char>, bool) -> Seq<char> {
    |i: int, ident: Seq<char>, ty: Seq<char>, last: bool| field_into_py(ident)
}

/// The renderer of [`name_comma`].
pub open spec fn name_comma_render() -> spec_fn(int, Seq<char>, Seq<char>, bool) -> Seq<char> {
    |i: int, ident: Seq<char>, ty: Seq<char>, last: bool| name_comma(ident)
}

/// The renderer of [`backquoted`].
pub open spec fn backquoted_render() -> spec_fn(int, Seq<char>, Seq<char>, bool) -> Seq<char> {
    |i: int, ident: Seq<char>, ty: Seq<char>, last: bool| backquoted(ident, last)
}

/// The renderer of [`assignment`].
pub open spec fn assignment_render() -> spec_fn(int, Seq<char>, Seq<char>, bool) -> Seq<char> {
    |i: int, ident: Seq<char>, ty: Seq<char>, last: bool| assignment(ident, last)
}

/// The renderer of [`placeholder`].
pub open spec fn placeholder_render() -> spec_fn(int, Seq<char>, Seq<char>, bool) -> Seq<char> {
    |i: int, ident: Seq<char>, ty: Seq<char>, last: bool| placeholder(ident, last)
}

/// The renderer of [`param_pair`].
pub open spec fn param_pair_render() -> spec_fn(int, Seq<char>, Seq<char>, bool) -> Seq<char> {
    |i: int, ident: Seq<char>, ty: Seq<char>, last: bool| param_pair(ident, param_value(ident, ty))
}

/// What the fields of a declaration give under a renderer: the fields of a
/// struct with named fields, without the hidden ones.
pub open spec fn shown(
    fields: Seq<FieldDecl>,
    render: spec_fn(int, Seq<char>, Seq<char>, bool) -> Seq<char>,
) -> Seq<char> {
    mapped_fields(fields, hides(), render)
}

/// The values of a row of the table: one per field that is not hidden, at
/// the field's position among all fields.
pub open spec fn shown_slots(fields: Seq<FieldDecl>) -> Seq<Slot>
    decreases fields.len(),
{
    if fields.len() == 0 {
        Seq::empty()
    } else {
        let rest = shown_slots(fields.drop_last());
        let f = fields.last();
        if is_hidden(field_ident(f)) {
            rest
        } else {
            rest.push(
                Slot { position: (fields.len() - 1) as nat, ident: field_ident(f), ty: f.ty@ },
            )
        }
    }
}

/// The builder methods of a struct named `ident` with the given fields.
pub open spec fn default_struct_text(ident: Seq<char>, fields: Seq<FieldDecl>) -> Seq<char> {
    inherent_block(ident, shown(fields, setter_render()))
}

/// The dictionary conversions of a struct named `ident` with the given
/// fields.
pub open spec fn python_dict_text(ident: Seq<char>, fields: Seq<FieldDecl>) -> Seq<char> {
    mirror_struct(mirror_ident(ident), shown(fields, field_def_render())) + dict_body(
        ident,
        mirror_ident(ident),
        shown(fields, dict_field_into_render()),
        shown(fields, dict_field_from_render()),
    ) + mirror_into(ident, mirror_ident(ident), shown(fields, field_into_py_render()))
}

/// The object conversions of a struct named `ident` with the given fields.
pub open spec fn python_object_text(ident: Seq<char>, fields: Seq<FieldDecl>) -> Seq<char> {
    mirror_struct(mirror_ident(ident), shown(fields, field_def_render())) + object_body(
        ident,
        mirror_ident(ident),
        shown(fields, object_field_into_render()),
        shown(fields, object_field_from_render()),
    ) + mirror_into(ident, mirror_ident(ident), shown(fields, field_into_py_render()))
}

/// The queries and the row decoding of a struct named `ident` with the
/// given fields.
pub open spec fn sql_table_text(ident: Seq<char>, fields: Seq<FieldDecl>) -> Seq<char> {
    sql_table_queries(
        ident,
        string_literal(shown(fields, backquoted_render())),
        string_literal(shown(fields, assignment_render())),
        shown(fields, param_pair_render()),
        string_literal(shown(fields, backquoted_render())),
        string_literal(shown(fields, placeholder_render())),
        shown(fields, param_pair_render()),
    ) + sql_table_from_row(
        ident,
        row_decoding(shown_slots(fields)),
        shown(fields, name_comma_render()),
    )
}

/// The text generated for a declaration: `text` of its name and fields for
/// a struct with named fields, nothing for any other declaration. Fails
/// where a field of such a struct has no name.
pub open spec fn generated(
    dvi: Declaration,
    text: spec_fn(Seq<char>, Seq<FieldDecl>) -> Seq<char>,
) -> Result<Seq<char>, MacroError> {
    match dvi.body {
        Body::Struct { style: FieldStyle::Named, fields } => if all_named(fields@) {
            Ok(text(dvi.ident@, fields@))
        } else {
            Err(MacroError::UnnamedField)
        },
        _ => Ok(Seq::empty()),
    }
}

/// The builder methods generated for a declaration.
pub open spec fn default_struct_of(dvi: Declaration) -> Result<Seq<char>, MacroError> {
    generated(dvi, |ident: Seq<char>, fields: Seq<FieldDecl>| default_struct_text(ident, fields))
}

/// The dictionary conversions generated for a declaration.
pub open spec fn python_dict_of(dvi: Declaration) -> Result<Seq<char>, MacroError> {
    generated(dvi, |ident: Seq<char>, fields: Seq<FieldDecl>| python_dict_text(ident, fields))
}

/// The object conversions generated for a declaration.
pub open spec fn python_object_of(dvi: Declaration) -> Result<Seq<char>, MacroError> {
    generated(dvi, |ident: Seq<char>, fields: Seq<FieldDecl>| python_object_text(ident, fields))
}

/// The queries and the row decoding generated for a declaration.
pub open spec fn sql_table_of(dvi: Declaration) -> Result<Seq<char>, MacroError> {
    generated(dvi, |ident: Seq<char>, fields: Seq<FieldDecl>| sql_table_text(ident, fields))
}

/// The type that a field has in the mirror struct.
fn mirror_type_text(ty: &str) -> (r: String)
    ensures
        r@ == mirror_type(ty@),
{
    if same_text(ty, DECIMAL) {
        PY_DECIMAL.to_owned()
    } else if same_text(ty, NAIVE_DATE) {
        PY_NAIVE_DATE.to_owned()
    } else if same_text(ty, NAIVE_DATE_TIME) {
        PY_NAIVE_DATE_TIME.to_owned()
    } else {
        ty.to_owned()
    }
}

/// A field's value inside the wrapper named `wrapper`.
fn wrapped(wrapper: &str, ident: &str) -> (r: String)
    ensures
        r@ == wrapper@ + WRAP_OPEN@ + ident@ + WRAP_CLOSE@,
{
    let mut out = wrapper.to_owned();
    out.append(WRAP_OPEN);
    out.append(ident);
    out.append(WRAP_CLOSE);
    out
}

/// The value that a field hands to Python.
fn mirror_value_text(ident: &str, ty: &str) -> (r: String)
    ensures
        r@ == mirror_value(ident@, ty@),
{
    if same_text(ty, DECIMAL) {
        wrapped(PY_DECIMAL, ident)
    } else if same_text(ty, NAIVE_DATE) {
        wrapped(PY_NAIVE_DATE, ident)
    } else if same_text(ty, NAIVE_DATE_TIME) {
        wrapped(PY_NAIVE_DATE_TIME, ident)
    } else {
        let mut out = SELF_DOT.to_owned();
        out.append(ident);
        out
    }
}

/// The value that a field hands to a statement.
fn param_value_text(ident: &str, ty: &str) -> (r: String)
    ensures
        r@ == param_value(ident@, ty@),
{
    let mut out = SELF_DOT.to_owned();
    out.append(ident);
    if same_text(ty, STRING) {
        out.append(COPY_STRING);
    } else if same_text(ty, DATE) {
        out.append(COPY_DATE);
    }
    out
}

/// Appends a comma behind every entry but the one made from the last of
/// all fields.
fn push_comma_unless(out: &mut String, last: bool)
    ensures
        final(out)@ == old(out)@ + comma_unless(last),
{
    if !last {
        out.append(COMMA);
    } else {
        assert(out@ =~= old(out)@ + comma_unless(last));
    }
}

/// `` `a`, ``
fn backquoted_text(ident: &str, last: bool) -> (r: String)
    ensures
        r@ == backquoted(ident@, last),
{
    let mut out = BACKQUOTE.to_owned();
    out.append(ident);
    out.append(BACKQUOTE);
    push_comma_unless(&mut out, last);
    out
}

/// `` `a`=:a, ``
fn assignment_text(ident: &str, last: bool) -> (r: String)
    ensures
        r@ == assignment(ident@, last),
{
    let mut out = BACKQUOTE.to_owned();
    out.append(ident);
    out.append(BACKQUOTE_EQUALS);
    out.append(ident);
    push_comma_unless(&mut out, last);
    out
}

/// `:a, `
fn placeholder_text(ident: &str, last: bool) -> (r: String)
    ensures
        r@ == placeholder(ident@, last),
{
    let mut out = COLON.to_owned();
    out.append(ident);
    push_comma_unless(&mut out, last);
    out
}

/// The values of a row of the table: one per field that is not hidden.
fn row_slots(fields: &Vec<FieldDecl>) -> (r: Vec<RowSlot>)
    requires
        all_named(fields@),
    ensures
        slot_models(r@) == shown_slots(fields@),
{
    let mut values: Vec<RowSlot> = Vec::new();
    let mut i: usize = 0;
    assert(slot_models(values@) =~= shown_slots(fields@.take(0)));
    while i < fields.len()
        invariant
            i <= fields.len(),
            all_named(fields@),
            slot_models(values@) == shown_slots(fields@.take(i as int)),
        decreases fields.len() - i,
    {
        proof {
            assert(fields@.take(i + 1).drop_last() =~= fields@.take(i as int));
            assert(fields@.take(i + 1).last() == fields@[i as int]);
        }
        let field = &fields[i];
        match &field.ident {
            Some(ident) => {
                if !ends_with(ident.as_str(), HIDDEN_SUFFIX) {
                    let slot = RowSlot { position: i, ident: ident.clone(), ty: field.ty.clone() };
                    let ghost before = values@;
                    values.push(slot);
                    proof {
                        assert(slot_models(values@) =~= slot_models(before).push(slot@));
                    }
                }
            },
            None => {},
        }
        i += 1;
    }
    assert(fields@.take(fields.len() as int) =~= fields@);
    values
}

/// Puts together what `mapper` gives for each field whose name does not end
/// with `_default`, in declared order. The mapper gets the field's position
/// among all fields, its name, its declared type, and whether it is the last
/// of all fields.
pub fn map_fields<M>(
    fields: &Vec<FieldDecl>,
    mapper: M,
    Ghost(render): Ghost<spec_fn(int, Seq<char>, Seq<char>, bool) -> Seq<char>>,
) -> (r: String) where M: Fn(usize, &str, &str, bool) -> String
    requires
        all_named(fields@),
        forall|i: usize, ident: &str, ty: &str, last: bool|
            call_requires(mapper, (i, ident, ty, last)),
        forall|i: usize, ident: &str, ty: &str, last: bool, o: String|
            call_ensures(mapper, (i, ident, ty, last), o) ==> o@ == render(
                i as int,
                ident@,
                ty@,
                last,
            ),
    ensures
        r@ == shown(fields@, render),
{
    let hidden = |ident: &str| -> (b: bool)
        ensures
            b == is_hidden(ident@),
        { ends_with(ident, HIDDEN_SUFFIX) };
    map_shown_fields(fields, hidden, mapper, Ghost(hides()), Ghost(render))
}

/// The fields of a declaration that code is generated for: those of a
/// struct with named fields. `Ok(None)` says that the declaration gets no
/// code.
fn named_fields(input: &Declaration) -> (r: Result<Option<&Vec<FieldDecl>>, MacroError>)
    ensures
        match r {
            Ok(Some(fields)) => input.body == (Body::Struct {
                style: FieldStyle::Named,
                fields: *fields,
            }) && all_named(fields@),
            Ok(None) => !(input.body is Struct) || input.body->style != FieldStyle::Named,
            Err(e) => input.body is Struct && input.body->style == FieldStyle::Named && !all_named(
                input.body->fields@,
            ) && e == MacroError::UnnamedField,
        },
{
    match &input.body {
        Body::Struct { style, fields } => {
            match style {
                FieldStyle::Named => {
                    if check_all_named(fields) {
                        Ok(Some(fields))
                    } else {
                        Err(MacroError::UnnamedField)
                    }
                },
                _ => Ok(None),
            }
        },
        _ => Ok(None),
    }
}

/// A builder method that takes the field's own type.
fn setter_text(ident: &str, ty: &str) -> (r: String)
    ensures
        r@ == setter(ident@, ty@),
{
    let mut out = SETTER_OPEN.to_owned();
    out.append(ident);
    out.append(SETTER_VALUE);
    out.append(ty);
    out.append(SETTER_BODY);
    out.append(ident);
    out.append(SETTER_CLOSE);
    out
}

/// A field of the mirror struct: the field's name with its mirror type.
fn field_def_text(ident: &str, mirror: &str) -> (r: String)
    ensures
        r@ == field_def(ident@, mirror@),
{
    let mut out = FIELD_INDENT.to_owned();
    out.append(ident);
    out.append(FIELD_COLON);
    out.append(mirror);
    out.append(FIELD_END);
    out
}

/// Reads one field from a dictionary, by the field's name.
fn dict_field_from_text(ident: &str) -> (r: String)
    ensures
        r@ == dict_field_from(ident@),
{
    let mut out = DICT_FROM_OPEN.to_owned();
    out.append(ident);
    out.append(DICT_FROM_ITEM);
    out.append(ident);
    out.append(DICT_FROM_ERROR);
    out.append(ident);
    out.append(DICT_FROM_CLOSE);
    out
}

/// Writes one field into a dictionary, under the field's name.
fn dict_field_into_text(ident: &str, value: &str) -> (r: String)
    ensures
        r@ == dict_field_into(ident@, value@),
{
    let mut out = DICT_INTO_OPEN.to_owned();
    out.append(ident);
    out.append(DICT_INTO_VALUE);
    out.append(value);
    out.append(DICT_INTO_CLOSE);
    out
}

/// Reads one field from an object, as the attribute named like the field.
fn object_field_from_text(ident: &str) -> (r: String)
    ensures
        r@ == object_field_from(ident@),
{
    let mut out = OBJECT_FROM_OPEN.to_owned();
    out.append(ident);
    out.append(OBJECT_FROM_ATTR);
    out.append(ident);
    out.append(OBJECT_FROM_CLOSE);
    out
}

/// Writes one field into an object, as the attribute named like the field.
fn object_field_into_text(ident: &str, value: &str) -> (r: String)
    ensures
        r@ == object_field_into(ident@, value@),
{
    let mut out = OBJECT_INTO_OPEN.to_owned();
    out.append(ident);
    out.append(OBJECT_INTO_VALUE);
    out.append(value);
    out.append(OBJECT_INTO_CLOSE);
    out
}

/// Moves one field from the mirror struct into the struct.
fn field_into_py_text(ident: &str) -> (r: String)
    ensures
        r@ == field_into_py(ident@),
{
    let mut out = FIELD_MOVE_OPEN.to_owned();
    out.append(ident);
    out.append(FIELD_MOVE_SELF);
    out.append(ident);
    out.append(FIELD_MOVE_CLOSE);
    out
}

/// The mirror struct: the struct's fields with their mirror types.
fn mirror_struct_text(py_ident: &str, field_defs: &str) -> (r: String)
    ensures
        r@ == mirror_struct(py_ident@, field_defs@),
{
    let mut out = MIRROR_OPEN.to_owned();
    out.append(py_ident);
    out.append(MIRROR_FIELDS);
    out.append(field_defs);
    out.append(MIRROR_CLOSE);
    out
}

/// The conversion from the mirror struct into the struct, field by field.
fn mirror_into_text(struct_ident: &str, py_ident: &str, moves: &str) -> (r: String)
    ensures
        r@ == mirror_into(struct_ident@, py_ident@, moves@),
{
    let mut out = MIRROR_INTO_OPEN.to_owned();
    out.append(struct_ident);
    out.append(MIRROR_INTO_FOR);
    out.append(py_ident);
    out.append(MIRROR_INTO_FN);
    out.append(struct_ident);
    out.append(MIRROR_INTO_RESULT);
    out.append(struct_ident);
    out.append(MIRROR_INTO_VALUE);
    out.append(moves);
    out.append(MIRROR_INTO_CLOSE);
    out
}

/// The conversions between a struct and a dictionary, through the mirror struct.
fn dict_body_text(struct_ident: &str, py_ident: &str, intos: &str, froms: &str) -> (r: String)
    ensures
        r@ == dict_body(struct_ident@, py_ident@, intos@, froms@),
{
    let mut out = DICT_EXTRACT_OPEN.to_owned();
    out.append(struct_ident);
    out.append(DICT_EXTRACT_MIRROR);
    out.append(py_ident);
    out.append(DICT_INTO_PY_OPEN);
    out.append(struct_ident);
    out.append(DICT_INTO_PY_FIELDS);
    out.append(intos);
    out.append(DICT_MIRROR_OPEN);
    out.append(py_ident);
    out.append(DICT_MIRROR_FIELDS);
    out.append(froms);
    out.append(DICT_MIRROR_CLOSE);
    out
}

/// The conversions between a struct and an object, through the mirror struct.
fn object_body_text(
    struct_ident: &str,
    py_ident: &str,
    intos: &str,
    froms: &str,
) -> (r: String)
    ensures
        r@ == object_body(struct_ident@, py_ident@, intos@, froms@),
{
    let mut out = OBJECT_EXTRACT_OPEN.to_owned();
    out.append(struct_ident);
    out.append(OBJECT_EXTRACT_MIRROR);
    out.append(py_ident);
    out.append(OBJECT_INTO_PY_OPEN);
    out.append(struct_ident);
    out.append(OBJECT_INTO_PY_FIELDS);
    out.append(intos);
    out.append(OBJECT_MIRROR_OPEN);
    out.append(py_ident);
    out.append(OBJECT_MIRROR_FIELDS);
    out.append(froms);
    out.append(OBJECT_MIRROR_CLOSE);
    out
}

/// One named parameter of a statement: the field's name with its value.
fn param_pair_text(ident: &str, value: &str) -> (r: String)
    ensures
        r@ == param_pair(ident@, value@),
{
    let mut out = PARAM_PAIR_OPEN.to_owned();
    out.append(ident);
    out.append(PARAM_PAIR_VALUE);
    out.append(value);
    out.append(PARAM_PAIR_CLOSE);
    out
}

/// The queries of a table: the field names, the readers of rows, and `save`.
fn sql_table_queries_text(
    struct_ident: &str,
    names: &str,
    updates: &str,
    update_params: &str,
    columns: &str,
    places: &str,
    insert_params: &str,
) -> (r: String)
    ensures
        r@ == sql_table_queries(
            struct_ident@,
            names@,
            updates@,
            update_params@,
            columns@,
            places@,
            insert_params@,
        ),
{
    let mut out = QUERIES_OPEN.to_owned();
    out.append(struct_ident);
    out.append(QUERIES_NAMES);
    out.append(names);
    out.append(QUERIES_UPDATE);
    out.append(updates);
    out.append(QUERIES_UPDATE_PARAMS);
    out.append(update_params);
    out.append(QUERIES_INSERT);
    out.append(columns);
    out.append(QUERIES_INSERT_VALUES);
    out.append(places);
    out.append(QUERIES_INSERT_PARAMS);
    out.append(insert_params);
    out.append(QUERIES_CLOSE);
    out
}

/// The decoding of a row: the values decoded, then the struct built from the locals.
fn sql_table_from_row_text(struct_ident: &str, steps: &str, names: &str) -> (r: String)
    ensures
        r@ == sql_table_from_row(struct_ident@, steps@, names@),
{
    let mut out = ROW_OPEN.to_owned();
    out.append(struct_ident);
    out.append(ROW_STEPS);
    out.append(steps);
    out.append(ROW_OK);
    out.append(names);
    out.append(ROW_CLOSE);
    out
}

/// A builder method for each field of a struct with named fields, each
/// taking the field's own type. Any other declaration gets no code.
pub fn as_default_struct(input: &Declaration) -> (r: Result<String, MacroError>)
    ensures
        text_outcome(r, default_struct_of(*input)),
{
    let fields = match named_fields(input) {
        Ok(Some(fields)) => fields,
        Ok(None) => {
            return Ok(String::new());
        },
        Err(e) => {
            return Err(e);
        },
    };
    let struct_ident = input.ident.as_str();
    let setter_of = |i: usize, ident: &str, ty: &str, last: bool| -> (o: String)
        ensures
            o@ == setter(ident@, ty@),
        { setter_text(ident, ty) };
    let field_assign = map_fields(fields, setter_of, Ghost(setter_render()));
    let mut out = IMPL_OPEN.to_owned();
    out.append(struct_ident);
    out.append(IMPL_BODY_OPEN);
    out.append(field_assign.as_str());
    out.append(IMPL_BODY_CLOSE);
    Ok(out)
}

/// The conversions between a struct with named fields and a Python
/// dictionary, through a mirror struct named `Py` and the struct's name. Any
/// other declaration gets no code.
pub fn as_python_dict(input: &Declaration) -> (r: Result<String, MacroError>)
    ensures
        text_outcome(r, python_dict_of(*input)),
{
    let fields = match named_fields(input) {
        Ok(Some(fields)) => fields,
        Ok(None) => {
            return Ok(String::new());
        },
        Err(e) => {
            return Err(e);
        },
    };
    let struct_ident = input.ident.as_str();
    let mut py_ident = MIRROR_PREFIX.to_owned();
    py_ident.append(struct_ident);
    let field_def_of = |i: usize, ident: &str, ty: &str, last: bool| -> (o: String)
        ensures
            o@ == field_def(ident@, mirror_type(ty@)),
        { field_def_text(ident, mirror_type_text(ty).as_str()) };
    let field_from_of = |i: usize, ident: &str, ty: &str, last: bool| -> (o: String)
        ensures
            o@ == dict_field_from(ident@),
        { dict_field_from_text(ident) };
    let field_into_of = |i: usize, ident: &str, ty: &str, last: bool| -> (o: String)
        ensures
            o@ == dict_field_into(ident@, mirror_value(ident@, ty@)),
        { dict_field_into_text(ident, mirror_value_text(ident, ty).as_str()) };
    let field_into_py_of = |i: usize, ident: &str, ty: &str, last: bool| -> (o: String)
        ensures
            o@ == field_into_py(ident@),
        { field_into_py_text(ident) };
    let field_def = map_fields(fields, field_def_of, Ghost(field_def_render()));
    let field_from = map_fields(fields, field_from_of, Ghost(dict_field_from_render()));
    let field_into = map_fields(fields, field_into_of, Ghost(dict_field_into_render()));
    let field_into_py = map_fields(fields, field_into_py_of, Ghost(field_into_py_render()));
    let mut out = mirror_struct_text(py_ident.as_str(), field_def.as_str());
    let body = dict_body_text(
        struct_ident,
        py_ident.as_str(),
        field_into.as_str(),
        field_from.as_str(),
    );
    out.append(body.as_str());
    out.append(mirror_into_text(struct_ident, py_ident.as_str(), field_into_py.as_str()).as_str());
    Ok(out)
}

/// The conversions between a struct with named fields and a Python object,
/// through a mirror struct named `Py` and the struct's name. Any other
/// declaration gets no code.
pub fn as_python_object(input: &Declaration) -> (r: Result<String, MacroError>)
    ensures
        text_outcome(r, python_object_of(*input)),
{
    let fields = match named_fields(input) {
        Ok(Some(fields)) => fields,
        Ok(None) => {
            return Ok(String::new());
        },
        Err(e) => {
            return Err(e);
        },
    };
    let struct_ident = input.ident.as_str();
    let mut py_ident = MIRROR_PREFIX.to_owned();
    py_ident.append(struct_ident);
    let field_def_of = |i: usize, ident: &str, ty: &str, last: bool| -> (o: String)
        ensures
            o@ == field_def(ident@, mirror_type(ty@)),
        { field_def_text(ident, mirror_type_text(ty).as_str()) };
    let field_from_of = |i: usize, ident: &str, ty: &str, last: bool| -> (o: String)
        ensures
            o@ == object_field_from(ident@),
        { object_field_from_text(ident) };
    let field_into_of = |i: usize, ident: &str, ty: &str, last: bool| -> (o: String)
        ensures
            o@ == object_field_into(ident@, mirror_value(ident@, ty@)),
        { object_field_into_text(ident, mirror_value_text(ident, ty).as_str()) };
    let field_into_py_of = |i: usize, ident: &str, ty: &str, last: bool| -> (o: String)
        ensures
            o@ == field_into_py(ident@),
        { field_into_py_text(ident) };
    let field_def = map_fields(fields, field_def_of, Ghost(field_def_render()));
    let field_from = map_fields(fields, field_from_of, Ghost(object_field_from_render()));
    let field_into = map_fields(fields, field_into_of, Ghost(object_field_into_render()));
    let field_into_py = map_fields(fields, field_into_py_of, Ghost(field_into_py_render()));
    let mut out = mirror_struct_text(py_ident.as_str(), field_def.as_str());
    let body = object_body_text(
        struct_ident,
        py_ident.as_str(),
        field_into.as_str(),
        field_from.as_str(),
    );
    out.append(body.as_str());
    out.append(mirror_into_text(struct_ident, py_ident.as_str(), field_into_py.as_str()).as_str());
    Ok(out)
}

/// The queries of a table whose columns are named like the fields of a
/// struct with named fields, and the decoding of its rows. Any other
/// declaration gets no code.
pub fn as_sql_table(input: &Declaration) -> (r: Result<String, MacroError>)
    ensures
        text_outcome(r, sql_table_of(*input)),
{
    let fields = match named_fields(input) {
        Ok(Some(fields)) => fields,
        Ok(None) => {
            return Ok(String::new());
        },
        Err(e) => {
            return Err(e);
        },
    };
    let struct_ident = input.ident.as_str();
    let field_name1_of = |i: usize, ident: &str, ty: &str, last: bool| -> (o: String)
        ensures
            o@ == name_comma(ident@),
        {
            let mut out = ident.to_owned();
            out.append(COMMA);
            out
        };
    let field_name2_of = |i: usize, ident: &str, ty: &str, last: bool| -> (o: String)
        ensures
            o@ == backquoted(ident@, last),
        { backquoted_text(ident, last) };
    let field_set1_of = |i: usize, ident: &str, ty: &str, last: bool| -> (o: String)
        ensures
            o@ == assignment(ident@, last),
        { assignment_text(ident, last) };
    let field_set4_of = |i: usize, ident: &str, ty: &str, last: bool| -> (o: String)
        ensures
            o@ == placeholder(ident@, last),
        { placeholder_text(ident, last) };
    let field_set2_of = |i: usize, ident: &str, ty: &str, last: bool| -> (o: String)
        ensures
            o@ == param_pair(ident@, param_value(ident@, ty@)),
        { param_pair_text(ident, param_value_text(ident, ty).as_str()) };
    let field_from_row = make_row_decoding(&row_slots(fields));
    let field_name1 = map_fields(fields, field_name1_of, Ghost(name_comma_render()));
    let field_name2 = map_fields(fields, field_name2_of, Ghost(backquoted_render()));
    let field_set1_s = map_fields(fields, field_set1_of, Ghost(assignment_render()));
    let field_set4_s = map_fields(fields, field_set4_of, Ghost(placeholder_render()));
    let field_set2 = map_fields(fields, field_set2_of, Ghost(param_pair_render()));
    let names = rust_string_literal(field_name2.as_str());
    let updates = rust_string_literal(field_set1_s.as_str());
    let places = rust_string_literal(field_set4_s.as_str());
    let mut out = sql_table_queries_text(
        struct_ident,
        names.as_str(),
        updates.as_str(),
        field_set2.as_str(),
        names.as_str(),
        places.as_str(),
        field_set2.as_str(),
    );
    let decoding = sql_table_from_row_text(
        struct_ident,
        field_from_row.as_str(),
        field_name1.as_str(),
    );
    out.append(decoding.as_str());
    Ok(out)
}

} // verus!
