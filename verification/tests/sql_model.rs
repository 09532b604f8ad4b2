use python_comm_macros::decl::{
    Annotation, Body, Declaration, FieldDecl, FieldStyle, Literal, MacroError, MetaItem, MetaList,
};
use python_comm_macros::sql_model::{as_sql_model, Column, Table};

fn name_value(key: &str, value: &str) -> MetaItem {
    MetaItem::NameValue { key: Some(key.to_string()), value: Literal::Str(value.to_string()) }
}

fn annotation(path: &str, items: Vec<MetaItem>) -> Annotation {
    Annotation {
        path: path.to_string(),
        list: Some(MetaList { ident: Some(path.to_string()), items }),
    }
}

fn field(ident: &str, ty: &str, annotations: Vec<Annotation>) -> FieldDecl {
    FieldDecl { ident: Some(ident.to_string()), ty: ty.to_string(), annotations }
}

fn declaration(ident: &str, annotations: Vec<Annotation>, fields: Vec<FieldDecl>) -> Declaration {
    Declaration {
        ident: ident.to_string(),
        annotations,
        body: Body::Struct { style: FieldStyle::Named, fields },
    }
}

fn person() -> Declaration {
    declaration(
        "Person",
        vec![annotation("table", vec![name_value("name", "person")])],
        vec![
            field(
                "id",
                "i32",
                vec![annotation(
                    "column",
                    vec![name_value("auto", ""), name_value("key", "PRIMARY")],
                )],
            ),
            field("name", "String", vec![]),
        ],
    )
}

fn table_of(d: &Declaration) -> Table {
    Table::from_declaration(d).unwrap()
}

#[test]
fn create_table_lists_columns_then_keys() {
    let t = table_of(&person());
    assert_eq!(
        t.make_create_table(),
        "CREATE TABLE `person` (\n    `id` int(11) NOT NULL AUTO_INCREMENT,\n    `name` varchar(32) NOT NULL,\n    PRIMARY KEY (`id`)\n);"
    );
}

#[test]
fn backquoted_list_without_identity_is_name_only() {
    let t = table_of(&person());
    assert_eq!(t.make_fields_string("`", "`", ", ", false), "`name`");
    assert_eq!(t.make_fields_string("`", "`", ", ", true), "`id`, `name`");
}

#[test]
fn decoding_takes_each_value_at_its_position() {
    let t = table_of(&person());
    let steps = t.make_fields_from_row();
    assert!(steps.starts_with("        let __ir_0 = match row.take(0usize) {"));
    let at = steps.find("let __ir_1 = match row.take(1usize) {").unwrap();
    let step = &steps[at..];
    assert!(step.contains("row.place(1usize, value);\n                    row.place(0usize, __ir_0.rollback());"));
    assert!(step.contains("None => {\n                row.place(0usize, __ir_0.rollback());\n                return Err(mysql::FromRowError(row));"));
    assert!(steps
        .ends_with("        let id = __ir_0.commit();\n        let name = __ir_1.commit();\n"));
}

#[test]
fn type_mapping_goes_through_both_tables() {
    assert_eq!(Column::convert_rust_type_to_sql("i32"), "int(11)");
    assert_eq!(Column::convert_rust_type_to_sql("u32"), "int(11)");
    assert_eq!(Column::convert_rust_type_to_sql("i64"), "int(20)");
    assert_eq!(Column::convert_rust_type_to_sql("u64"), "int(20)");
    assert_eq!(Column::convert_rust_type_to_sql("f32"), "double");
    assert_eq!(Column::convert_rust_type_to_sql("f64"), "double");
    assert_eq!(Column::convert_rust_type_to_sql("String"), "varchar(32)");
    assert_eq!(Column::convert_rust_type_to_sql("SqlDate"), "date");
    assert_eq!(Column::convert_rust_type_to_sql("SqlTime"), "datetime(6)");
}

#[test]
fn type_mapping_starts_at_the_second_table_for_labels() {
    assert_eq!(Column::convert_rust_type_to_sql("text"), "text(65535)");
    assert_eq!(Column::convert_rust_type_to_sql("longtext"), "longtext");
    assert_eq!(Column::convert_rust_type_to_sql("bool"), "bool");
    assert_eq!(Column::convert_rust_type_to_sql("str"), "varchar(32)");
}

#[test]
fn type_mapping_falls_back_to_the_type_itself() {
    assert_eq!(Column::convert_rust_type_to_sql("Decimal"), "Decimal");
    assert_eq!(Column::convert_rust_type_to_sql("string"), "string");
    assert_eq!(Column::convert_rust_type_to_sql(""), "");
    assert_eq!(Column::convert_rust_type_to_sql("Option < String >"), "Option < String >");
}

#[test]
fn type_option_wins_over_the_inferred_type() {
    let d = declaration(
        "Note",
        vec![annotation("table", vec![name_value("name", "note")])],
        vec![field("body", "String", vec![annotation("column", vec![name_value("type", "text")])])],
    );
    let t = table_of(&d);
    assert_eq!(t.columns[0].sql_type, "text");
    assert_eq!(t.make_create_table(), "CREATE TABLE `note` (\n    `body` text NOT NULL\n);");
}

#[test]
fn renamed_column_appears_under_its_new_name_in_storage() {
    let d = declaration(
        "Item",
        vec![annotation("table", vec![name_value("name", "item")])],
        vec![
            field("id", "u64", vec![]),
            field(
                "kind",
                "i32",
                vec![annotation("column", vec![name_value("name", "type"), name_value("key", "")])],
            ),
        ],
    );
    let t = table_of(&d);
    assert_eq!(t.columns[1].sql_name(), "type");
    assert_eq!(
        t.make_create_table(),
        "CREATE TABLE `item` (\n    `id` int(20) NOT NULL,\n    `type` int(11) NOT NULL,\n    KEY (`type`)\n);"
    );
    assert_eq!(t.make_fields_string("`", "`", ", ", true), "`id`, `type`");
    assert_eq!(t.make_fields_string(":", "", ", ", false), ":type");
    assert_eq!(t.make_fields_string2("`", "`=:", "", ", ", true), "`id`=:id, `type`=:type");
    assert_eq!(
        t.make_fields_v(false),
        "let v: Vec<(&str, mysql::Value)> = vec![(\"type\", self.kind.clone().into())];\n        mysql::params::Params::from(v)"
    );
    assert!(t.make_assign().contains("pub fn kind<T>(mut self, v: T) -> Self"));
    assert!(!t.make_assign().contains("pub fn type<T>"));
    assert_eq!(t.make_fields_c(), "id, kind, ");
    assert_eq!(t.make_fields_ee(true), "self.id == other.id && self.kind == other.kind");
    assert_eq!(t.make_fields_ee(false), "self.kind == other.kind");
    assert_eq!(t.make_fields_fi(), "kind: i32");
}

#[test]
fn without_identity_column_nothing_is_excluded() {
    let d = declaration(
        "Pair",
        vec![],
        vec![field("left", "i32", vec![]), field("right", "i32", vec![])],
    );
    let t = table_of(&d);
    assert_eq!(
        t.make_fields_string("`", "`", ", ", false),
        t.make_fields_string("`", "`", ", ", true)
    );
    assert_eq!(t.make_fields_string("`", "`", ", ", false), "`left`, `right`");
    assert_eq!(
        t.make_fields_string2("`", "`=:", "", ", ", false),
        t.make_fields_string2("`", "`=:", "", ", ", true)
    );
    assert_eq!(t.make_fields_ee(false), t.make_fields_ee(true));
    assert_eq!(t.make_fields_v(false), t.make_fields_v(true));
    assert_eq!(t.make_fields_fi(), "left: i32, right: i32");
}

#[test]
fn one_identity_column_leaves_one_entry_less() {
    let d = declaration(
        "Triple",
        vec![],
        vec![
            field("a", "i32", vec![]),
            field("id", "i32", vec![]),
            field("b", "i32", vec![]),
        ],
    );
    let t = table_of(&d);
    assert_eq!(t.make_fields_string("", "", "|", true), "a|id|b");
    assert_eq!(t.make_fields_string("", "", "|", false), "a|b");
    assert_eq!(t.make_fields_string2("", "=", "", "|", false), "a=a|b=b");
    assert_eq!(t.make_fields_ee(false), "self.a == other.a && self.b == other.b");
    assert_eq!(t.make_fields_fi(), "a: i32, b: i32");
}

#[test]
fn declared_order_is_kept_and_nothing_is_merged() {
    let d = declaration(
        "Dup",
        vec![],
        vec![
            field("b", "i32", vec![]),
            field("a", "i32", vec![]),
            field("b", "i32", vec![]),
        ],
    );
    let t = table_of(&d);
    assert_eq!(t.make_fields_string("", "", ",", true), "b,a,b");
    assert_eq!(t.make_fields_c(), "b, a, b, ");
}

#[test]
fn missing_table_annotation_gives_the_defaults() {
    let d = declaration("Plain", vec![], vec![field("id", "i32", vec![])]);
    let t = table_of(&d);
    assert_eq!(t.name, "unknown_table_name");
    assert_eq!(t.who, "WhoCreateDbPool");
    let fresh = Table::new();
    assert_eq!(fresh.name, "unknown_table_name");
    assert_eq!(fresh.who, "WhoCreateDbPool");
    assert!(fresh.columns.is_empty());
}

#[test]
fn table_annotation_sets_name_and_owner() {
    let d = declaration(
        "Plain",
        vec![
            annotation("doc", vec![]),
            annotation("table", vec![name_value("who", "Pool"), name_value("other", "x")]),
        ],
        vec![],
    );
    let t = table_of(&d);
    assert_eq!(t.name, "unknown_table_name");
    assert_eq!(t.who, "Pool");
    assert_eq!(
        Table::extract_table_meta(&vec![name_value("name", "a"), name_value("name", "b")]),
        Ok(("b".to_string(), "WhoCreateDbPool".to_string()))
    );
}

#[test]
fn value_that_is_no_string_counts_as_empty() {
    let items = vec![
        MetaItem::NameValue { key: Some("key".to_string()), value: Literal::Other },
        MetaItem::Other,
    ];
    let opt = Table::extract_column_meta(&items).unwrap();
    assert_eq!(opt.get("key"), Some(&String::new()));
    assert_eq!(opt.get("auto"), None);
    let d = declaration(
        "K",
        vec![],
        vec![field("k", "i32", vec![annotation("column", items)])],
    );
    let t = table_of(&d);
    assert_eq!(t.columns[0].sql_key(), Some("KEY (`k`)".to_string()));
    assert_eq!(t.columns[0].sql_auto(), "");
}

#[test]
fn later_option_replaces_earlier_one() {
    let d = declaration(
        "K",
        vec![],
        vec![field(
            "k",
            "i32",
            vec![
                annotation("column", vec![name_value("type", "a"), name_value("key", "UNIQUE")]),
                annotation("serde", vec![name_value("type", "ignored")]),
                annotation("sql_column", vec![name_value("type", "b")]),
            ],
        )],
    );
    let t = table_of(&d);
    assert_eq!(t.columns[0].sql_type, "b");
    assert_eq!(t.columns[0].sql_key(), Some("UNIQUE KEY (`k`)".to_string()));
}

#[test]
fn unknown_option_is_ignored() {
    let d = declaration(
        "K",
        vec![annotation("table", vec![name_value("engine", "x")])],
        vec![field("k", "i32", vec![annotation("column", vec![name_value("index", "yes")])])],
    );
    let t = table_of(&d);
    assert_eq!(t.columns[0].opt.get("index"), Some(&"yes".to_string()));
    assert_eq!(
        t.make_create_table(),
        "CREATE TABLE `unknown_table_name` (\n    `k` int(11) NOT NULL\n);"
    );
    assert_eq!(t.columns[0].sql_key(), None);
}

#[test]
fn enum_and_union_have_no_table() {
    let mut d = person();
    assert!(d.is_struct());
    d.body = Body::Enum;
    assert!(!d.is_struct());
    assert_eq!(Table::from_declaration(&d).err(), Some(MacroError::NotAStruct));
    d.body = Body::Union;
    assert!(!d.is_struct());
    assert_eq!(Table::from_declaration(&d).err(), Some(MacroError::NotAStruct));
}

#[test]
fn field_without_name_is_refused() {
    let d = Declaration {
        ident: "T".to_string(),
        annotations: vec![],
        body: Body::Struct {
            style: FieldStyle::Unnamed,
            fields: vec![FieldDecl { ident: None, ty: "i32".to_string(), annotations: vec![] }],
        },
    };
    assert_eq!(as_sql_model(&d), Err(MacroError::UnnamedField));
    let mut t = Table::new();
    let fields = vec![
        field("a", "i32", vec![]),
        FieldDecl { ident: None, ty: "i32".to_string(), annotations: vec![] },
    ];
    assert_eq!(t.parse_struct_fields(&fields), Err(MacroError::UnnamedField));
    assert!(t.columns.is_empty());
}

#[test]
fn path_that_is_no_identifier_is_refused() {
    let mut d = person();
    d.annotations.push(Annotation {
        path: "a :: b".to_string(),
        list: Some(MetaList { ident: None, items: vec![] }),
    });
    assert_eq!(as_sql_model(&d), Err(MacroError::PathNotIdent));
    let items = vec![MetaItem::NameValue { key: None, value: Literal::Str("x".to_string()) }];
    assert_eq!(Table::extract_column_meta(&items).err(), Some(MacroError::PathNotIdent));
    assert_eq!(Table::extract_table_meta(&items), Err(MacroError::PathNotIdent));
}

#[test]
fn annotation_without_list_is_skipped() {
    let d = declaration(
        "T",
        vec![Annotation { path: "table".to_string(), list: None }],
        vec![field("a", "i32", vec![Annotation { path: "column".to_string(), list: None }])],
    );
    let t = table_of(&d);
    assert_eq!(t.name, "unknown_table_name");
    assert_eq!(t.columns[0].sql_type, "int(11)");
}

#[test]
fn generated_model_is_rust_that_parses() {
    let text = as_sql_model(&person()).unwrap();
    let file = syn::parse_str::<syn::File>(&text).unwrap();
    assert_eq!(file.items.len(), 3);
    assert!(text.starts_with("impl Person {\n    #[auto_func_name]\n"));
    assert!(text.contains("pub fn create_with(name: String) -> Result<Option<u64>, MoreError> {"));
    assert!(text.contains("Self { id, name, }.create().m(m!(__func__))"));
    assert!(text.contains("WhoCreateDbPool::lock().m(m!(__func__))"));
    assert!(text.contains("fn make_fields_b() -> &'static str {\n        \"`id`, `name`\"\n    }"));
    assert!(text.contains("fn make_fields_bi() -> &'static str {\n        \"`name`\"\n    }"));
    assert!(text
        .contains("fn make_fields_e() -> &'static str {\n        \"`id`=:id, `name`=:name\"\n    }"));
    assert!(text.contains("fn make_fields_ei() -> &'static str {\n        \"`name`=:name\"\n    }"));
    assert!(text.contains("fn make_fields_p() -> &'static str {\n        \":id, :name\"\n    }"));
    assert!(text.contains("fn make_fields_pi() -> &'static str {\n        \":name\"\n    }"));
    assert!(text.contains(
        "fn make_fields_q() -> &'static str {\n        \"\\\"id\\\", \\\"name\\\"\"\n    }"
    ));
    assert!(text.contains(
        "fn make_fields_qc() -> &'static str {\n        \"\\\"id\\\", \\\"name\\\", \"\n    }"
    ));
    assert!(text.contains("fn table_name() -> &'static str {\n        \"person\"\n    }"));
    assert!(text.contains(
        "fn make_create_table() -> &'static str {\n        \"CREATE TABLE `person` (\\n    `id` int(11) NOT NULL AUTO_INCREMENT,\\n    `name` varchar(32) NOT NULL,\\n    PRIMARY KEY (`id`)\\n);\"\n    }"
    ));
    assert!(text.ends_with("        Ok(Self {\n            id, name, \n        })\n    }\n}\n"));
}

#[test]
fn generated_create_table_literal_reads_back() {
    let text = as_sql_model(&person()).unwrap();
    let file = syn::parse_str::<syn::File>(&text).unwrap();
    let model = match &file.items[1] {
        syn::Item::Impl(i) => i,
        _ => panic!("the second item is the model impl"),
    };
    let mut found = false;
    for item in &model.items {
        if let syn::ImplItem::Method(m) = item {
            if m.sig.ident == "make_create_table" {
                match &m.block.stmts[0] {
                    syn::Stmt::Expr(syn::Expr::Lit(l)) => match &l.lit {
                        syn::Lit::Str(s) => {
                            assert_eq!(s.value(), table_of(&person()).make_create_table());
                            found = true;
                        }
                        _ => panic!("a string literal"),
                    },
                    _ => panic!("one expression"),
                }
            }
        }
    }
    assert!(found);
}
