use python_comm_macros::afn::{auto_func_name, wants_debug, Delimiter, TokenTree};
use python_comm_macros::asx::{as_default_struct, as_python_dict, as_python_object, as_sql_table};
use python_comm_macros::clock::build_time;
use python_comm_macros::decl::{Body, Declaration, FieldDecl, FieldStyle, MacroError};
use python_comm_macros::lp::limit_pack;
use python_comm_macros::options::Options;
use python_comm_macros::qa::quick_assign;
use python_comm_macros::samples::{test0, test4, test5};
use std::str::FromStr;

fn field(ident: &str, ty: &str) -> FieldDecl {
    FieldDecl { ident: Some(ident.to_string()), ty: ty.to_string(), annotations: vec![] }
}

fn named(ident: &str, fields: Vec<FieldDecl>) -> Declaration {
    Declaration {
        ident: ident.to_string(),
        annotations: vec![],
        body: Body::Struct { style: FieldStyle::Named, fields },
    }
}

fn with_body(body: Body) -> Declaration {
    Declaration { ident: "T".to_string(), annotations: vec![], body }
}

fn unnamed_field() -> FieldDecl {
    FieldDecl { ident: None, ty: "i32".to_string(), annotations: vec![] }
}

fn tuple_struct() -> Declaration {
    with_body(Body::Struct { style: FieldStyle::Unnamed, fields: vec![unnamed_field()] })
}

fn broken_named_struct() -> Declaration {
    with_body(Body::Struct { style: FieldStyle::Named, fields: vec![unnamed_field()] })
}

fn tokens_of(source: &str) -> Vec<TokenTree> {
    let stream = proc_macro2::TokenStream::from_str(source).unwrap();
    let mut out = Vec::new();
    for token in stream {
        out.push(match token {
            proc_macro2::TokenTree::Group(g) => TokenTree::Group {
                delimiter: match g.delimiter() {
                    proc_macro2::Delimiter::Parenthesis => Delimiter::Parenthesis,
                    proc_macro2::Delimiter::Brace => Delimiter::Brace,
                    proc_macro2::Delimiter::Bracket => Delimiter::Bracket,
                    proc_macro2::Delimiter::None => Delimiter::Invisible,
                },
                stream: g.stream().to_string(),
            },
            proc_macro2::TokenTree::Punct(p) => TokenTree::Other {
                text: p.as_char().to_string(),
                joint: p.spacing() == proc_macro2::Spacing::Joint,
            },
            other => TokenTree::Other { text: other.to_string(), joint: false },
        });
    }
    out
}

#[test]
fn quick_assign_has_one_builder_per_field() {
    let d = named("Point", vec![field("x", "i32"), field("label", "Option < String >")]);
    let text = quick_assign(&d).unwrap();
    assert_eq!(
        text,
        "impl Point {\n    pub fn x<T>(mut self, v: T) -> Self\n    where\n        T: Into<i32>,\n    {\n        self.x = v.into();\n        self\n    }\n\n    pub fn label<T>(mut self, v: T) -> Self\n    where\n        T: Into<Option < String >>,\n    {\n        self.label = v.into();\n        self\n    }\n\n}\n"
    );
    let file = syn::parse_str::<syn::File>(&text).unwrap();
    assert_eq!(file.items.len(), 1);
}

#[test]
fn quick_assign_fails_as_the_model_does() {
    assert!(!with_body(Body::Enum).is_struct());
    assert!(!with_body(Body::Union).is_struct());
    assert!(tuple_struct().is_struct());
    assert_eq!(quick_assign(&tuple_struct()), Err(MacroError::UnnamedField));
    let unit = with_body(Body::Struct { style: FieldStyle::Unit, fields: vec![] });
    assert_eq!(quick_assign(&unit), Ok("impl T {\n}\n".to_string()));
}

#[test]
fn limit_pack_packs_the_fields_that_are_not_hidden() {
    let d = named("Job", vec![field("a", "i32"), field("_renames_a", "String"), field("b", "u8")]);
    let text = limit_pack(&d).unwrap();
    assert_eq!(
        text,
        "impl python_comm::use_limit_pack::LimitPackAble for Job {\n    fn to_limit_str(&self, limit: &mut Limit) -> String {\n        limit.push_and_inc();\n        let data = (\n            python_comm::use_limit_pack::ForStruct {\n                k: stringify!(a).to_limit_str(limit),\n                v: &self.a,\n            },\n            python_comm::use_limit_pack::ForStruct {\n                k: stringify!(b).to_limit_str(limit),\n                v: &self.b,\n            },\n        );\n        let pair_seq = limit.pop_start();\n        let text = data.to_limit_str(limit);\n        limit.pop_end(pair_seq);\n        format!(\"{}{}\", stringify!(Job), text)\n    }\n}\n"
    );
    syn::parse_str::<syn::File>(&text).unwrap();
}

#[test]
fn other_declarations_get_no_code() {
    for d in [
        with_body(Body::Enum),
        with_body(Body::Union),
        tuple_struct(),
        with_body(Body::Struct { style: FieldStyle::Unit, fields: vec![] }),
    ] {
        assert_eq!(limit_pack(&d), Ok(String::new()));
        assert_eq!(as_default_struct(&d), Ok(String::new()));
        assert_eq!(as_python_dict(&d), Ok(String::new()));
        assert_eq!(as_python_object(&d), Ok(String::new()));
        assert_eq!(as_sql_table(&d), Ok(String::new()));
    }
}

#[test]
fn named_struct_with_a_nameless_field_is_refused() {
    let d = broken_named_struct();
    assert_eq!(limit_pack(&d), Err(MacroError::UnnamedField));
    assert_eq!(as_default_struct(&d), Err(MacroError::UnnamedField));
    assert_eq!(as_python_dict(&d), Err(MacroError::UnnamedField));
    assert_eq!(as_python_object(&d), Err(MacroError::UnnamedField));
    assert_eq!(as_sql_table(&d), Err(MacroError::UnnamedField));
}

#[test]
fn default_struct_has_setters_of_the_field_type() {
    let d = named("Conf", vec![field("port", "u16"), field("port_default", "u16")]);
    let text = as_default_struct(&d).unwrap();
    assert_eq!(
        text,
        "impl Conf {\n    #[allow(dead_code)]\n    pub fn port(mut self, v: u16) -> Self {\n        self.port = v;\n        self\n    }\n\n}\n"
    );
    syn::parse_str::<syn::File>(&text).unwrap();
}

#[test]
fn python_dict_goes_through_the_mirror_struct() {
    let d = named(
        "Bar",
        vec![field("price", "Decimal"), field("day", "NaiveDate"), field("n", "i32")],
    );
    let text = as_python_dict(&d).unwrap();
    let file = syn::parse_str::<syn::File>(&text).unwrap();
    assert_eq!(file.items.len(), 5);
    assert!(text.starts_with(
        "#[cfg(feature = \"use_pyo3\")]\nstruct PyBar {\n    price: python_comm::types::PyDecimal,\n    day: python_comm::types::PyNaiveDate,\n    n: i32,\n}\n"
    ));
    assert!(text.contains(
        "            pyo3::IntoPy::<pyo3::PyObject>::into_py(python_comm::types::PyDecimal(self.price), python),"
    ));
    assert!(text.contains("            pyo3::IntoPy::<pyo3::PyObject>::into_py(self.n, python),"));
    assert!(text.contains(
        "format!(r#\"get_item(\"{}\") error\"#, stringify!(day))"
    ));
    assert!(text.contains("let pyobj = PyBar::extract(obj)"));
    assert!(text.contains("impl Into<Bar> for PyBar {\n    fn into(self) -> Bar {\n        Bar {\n            price: self.price.into(),\n            day: self.day.into(),\n            n: self.n.into(),\n        }\n    }\n}\n"));
}

#[test]
fn python_object_sets_attributes() {
    let d = named("Bar", vec![field("at", "NaiveDateTime"), field("n", "i32")]);
    let text = as_python_object(&d).unwrap();
    let file = syn::parse_str::<syn::File>(&text).unwrap();
    assert_eq!(file.items.len(), 5);
    assert!(text.contains("    at: python_comm::types::PyNaiveDateTime,\n    n: i32,\n"));
    assert!(text.contains(
        "let _ = obj.setattr(stringify!(at), python_comm::types::PyNaiveDateTime(self.at));"
    ));
    assert!(text.contains("let _ = obj.setattr(stringify!(n), self.n);"));
    assert!(text.contains(".getattr(stringify!(at))"));
}

#[test]
fn sql_table_lists_fields_and_positions() {
    let d = named(
        "Row",
        vec![field("id", "u64"), field("name", "String"), field("x_default", "i32"), field("day", "Date")],
    );
    let text = as_sql_table(&d).unwrap();
    let file = syn::parse_str::<syn::File>(&text).unwrap();
    assert_eq!(file.items.len(), 2);
    assert!(text.contains("let mut names = \"`id`, `name`, `day`\".to_string();"));
    assert!(text.contains(
        "format!(\"UPDATE {} SET {} WHERE id={}\", Self::table_name(), \"`id`=:id, `name`=:name, `day`=:day\", self.id);"
    ));
    assert!(text.contains(
        ".exec_drop(&text, params! {stringify!(id) => self.id, stringify!(name) => self.name.clone(), stringify!(day) => self.day.s().clone(), })"
    ));
    assert!(text.contains("                \"`id`, `name`, `day`\",\n                \":id, :name, :day\",\n"));
    assert!(text.contains("let __ir_3 = match row.take(3usize) {"));
    assert!(text.contains(
        "row.place(3usize, value);\n                    row.place(0usize, __ir_0.rollback());\n                    row.place(1usize, __ir_1.rollback());\n                    return"
    ));
    assert!(text.contains(
        "        let id = __ir_0.commit();\n        let name = __ir_1.commit();\n        let day = __ir_3.commit();\n        Ok(Self {"
    ));
    assert!(!text.contains("x_default"));
    assert!(text.contains("        Ok(Self {\n            id, name, day, \n        })"));
}

#[test]
fn sql_table_keeps_the_comma_when_the_last_field_is_hidden() {
    let d = named("Row", vec![field("id", "u64"), field("x_default", "i32")]);
    let text = as_sql_table(&d).unwrap();
    assert!(text.contains("let mut names = \"`id`, \".to_string();"));
}

#[test]
fn debug_is_asked_for_by_one_string_literal() {
    assert!(wants_debug("\"debug\""));
    assert!(!wants_debug("debug"));
    assert!(!wants_debug(""));
    assert!(!wants_debug("\"debug\", 1"));
}

#[test]
fn function_body_begins_with_the_name() {
    let source = "pub fn area<'a>(w: &'a u32, h: u32) -> u32 { let s = [*w, h]; s[0] * s[1] }";
    let text = auto_func_name("area", &tokens_of(source));
    assert_eq!(
        text,
        "pub fn area <'a > (w : &'a u32 , h : u32) -> u32 { let __func__: &str = stringify!(area); let s = [* w , h] ; s [0] * s [1] } "
    );
    let item = syn::parse_str::<syn::ItemFn>(&text).unwrap();
    assert_eq!(item.sig.ident, "area");
    assert_eq!(item.block.stmts.len(), 3);
    let before = syn::parse_str::<syn::ItemFn>(source).unwrap();
    assert_eq!(item.sig, before.sig);
    assert_eq!(item.block.stmts[1..], before.block.stmts[..]);
    match &item.block.stmts[0] {
        syn::Stmt::Local(l) => match &l.pat {
            syn::Pat::Type(t) => match &*t.pat {
                syn::Pat::Ident(i) => assert_eq!(i.ident, "__func__"),
                _ => panic!("a name"),
            },
            _ => panic!("a typed local"),
        },
        _ => panic!("a local"),
    }
}

#[test]
fn doc_comment_inside_the_body_ends_up_behind_the_local() {
    let source = "fn test5() { //! goes on inside\n }";
    assert!(syn::parse_str::<syn::ItemFn>(source).is_ok());
    let text = auto_func_name("test5", &tokens_of(source));
    assert_eq!(
        text,
        "fn test5 () { let __func__: &str = stringify!(test5); # ! [doc = \" goes on inside\"] } "
    );
    assert!(syn::parse_str::<syn::ItemFn>(&text).is_err());
    let plain = auto_func_name("test0", &tokens_of("fn test0() {}"));
    assert_eq!(plain, "fn test0 () { let __func__: &str = stringify!(test0);  } ");
    assert!(syn::parse_str::<syn::ItemFn>(&plain).is_ok());
}

#[test]
fn every_braced_group_at_the_top_gets_the_local() {
    let tokens = vec![
        TokenTree::Other { text: "a".to_string(), joint: false },
        TokenTree::Group { delimiter: Delimiter::Brace, stream: "x".to_string() },
        TokenTree::Group { delimiter: Delimiter::Parenthesis, stream: "{ y }".to_string() },
        TokenTree::Group { delimiter: Delimiter::Bracket, stream: "z".to_string() },
        TokenTree::Group { delimiter: Delimiter::Invisible, stream: "w".to_string() },
        TokenTree::Other { text: "-".to_string(), joint: true },
        TokenTree::Other { text: ">".to_string(), joint: false },
        TokenTree::Group { delimiter: Delimiter::Brace, stream: "".to_string() },
    ];
    assert_eq!(
        auto_func_name("f", &tokens),
        "a { let __func__: &str = stringify!(f); x } ({ y }) [z] w -> { let __func__: &str = stringify!(f);  } "
    );
    assert_eq!(auto_func_name("f", &Vec::new()), "");
}

#[test]
fn build_time_is_eight_hours_ahead_of_utc() {
    assert_eq!(build_time(0), Some("\"1970-01-01 08:00:00\"".to_string()));
    assert_eq!(build_time(1_700_000_000), Some("\"2023-11-15 06:13:20\"".to_string()));
    assert_eq!(build_time(-28800 - 1), Some("\"1969-12-31 23:59:59\"".to_string()));
    assert_eq!(build_time(951_782_400 - 28800), Some("\"2000-02-29 00:00:00\"".to_string()));
}

#[test]
fn build_time_out_of_range_is_none() {
    assert_eq!(build_time(i64::MAX), None);
    assert_eq!(build_time(i64::MAX - 28800), None);
    assert_eq!(build_time(i64::MIN), None);
}

#[test]
fn build_time_of_the_clock_reads_back() {
    let now = chrono::Utc::now().timestamp();
    let text = build_time(now).unwrap();
    let lit = syn::parse_str::<syn::LitStr>(&text).unwrap();
    let shown = chrono::NaiveDateTime::parse_from_str(&lit.value(), "%Y-%m-%d %H:%M:%S").unwrap();
    assert_eq!(shown.and_utc().timestamp(), now + 28800);
}

#[test]
fn options_keep_the_last_value() {
    let mut o = Options::new();
    assert_eq!(o.get("a"), None);
    assert!(!o.contains_key("a"));
    o.insert("a".to_string(), "1".to_string());
    o.insert("b".to_string(), "2".to_string());
    o.insert("a".to_string(), "3".to_string());
    assert_eq!(o.get("a"), Some(&"3".to_string()));
    assert_eq!(o.get("b"), Some(&"2".to_string()));
    assert!(o.contains_key("b"));
    let mut p = Options::new();
    p.insert("b".to_string(), "4".to_string());
    p.insert("c".to_string(), "5".to_string());
    o.extend(&p);
    assert_eq!(o.get("a"), Some(&"3".to_string()));
    assert_eq!(o.get("b"), Some(&"4".to_string()));
    assert_eq!(o.get("c"), Some(&"5".to_string()));
}

#[test]
fn error_messages_differ() {
    let a = MacroError::NotAStruct.message();
    let b = MacroError::UnnamedField.message();
    let c = MacroError::PathNotIdent.message();
    assert_eq!(a, "仅用于 struct");
    assert_eq!(b, "every field needs a name");
    assert_eq!(c, "an annotation path or key is not an identifier");
}

#[test]
fn sample_functions_return() {
    test0();
    test4();
    test5();
}
