use python_comm_macros::text::{
    chars_of, contains, ends_with, join, push_decimal, rust_string_literal, same_text,
    starts_with,
};

#[test]
fn same_text_compares_characters() {
    assert!(same_text("id", "id"));
    assert!(!same_text("id", "idx"));
    assert!(!same_text("id", "Id"));
    assert!(same_text("", ""));
}

#[test]
fn chars_of_keeps_order() {
    assert_eq!(chars_of("abc"), vec!['a', 'b', 'c']);
    assert_eq!(chars_of("保存"), vec!['保', '存']);
    assert!(chars_of("").is_empty());
}

#[test]
fn prefix_suffix_and_occurrence() {
    assert!(starts_with("_renames_a", "_renames_"));
    assert!(!starts_with("renames_a", "_renames_"));
    assert!(starts_with("a", ""));
    assert!(!starts_with("a", "ab"));
    assert!(ends_with("value_default", "_default"));
    assert!(!ends_with("default_value", "_default"));
    assert!(ends_with("", ""));
    assert!(contains("sql :: column", "column"));
    assert!(contains("column", "column"));
    assert!(!contains("colum", "column"));
    assert!(contains("abc", ""));
    assert!(contains("", ""));
    assert!(!contains("", "a"));
    assert!(contains("aab", "ab"));
}

#[test]
fn join_puts_the_separator_between_parts() {
    let parts = vec!["a".to_string(), "b".to_string(), "c".to_string()];
    assert_eq!(join(&parts, ", "), "a, b, c");
    assert_eq!(join(&parts[..1].to_vec(), ", "), "a");
    assert_eq!(join(&Vec::new(), ", "), "");
}

#[test]
fn decimal_has_no_leading_zeros() {
    for n in [0, 7, 9, 10, 11, 99, 100, 1234567890, usize::MAX] {
        let mut out = "x".to_string();
        push_decimal(&mut out, n);
        assert_eq!(out, format!("x{}", n));
    }
}

#[test]
fn string_literal_escapes_what_must_be_escaped() {
    assert_eq!(rust_string_literal("abc"), "\"abc\"");
    assert_eq!(rust_string_literal(""), "\"\"");
    assert_eq!(rust_string_literal("a\"b"), "\"a\\\"b\"");
    assert_eq!(rust_string_literal("a\\b"), "\"a\\\\b\"");
    assert_eq!(rust_string_literal("a\nb\rc\td\0e"), "\"a\\nb\\rc\\td\\0e\"");
    assert_eq!(rust_string_literal("保存 'x'"), "\"保存 'x'\"");
}

#[test]
fn string_literal_reads_back_as_its_text() {
    for s in ["", "abc", "a\"b", "\\", "\\n", "a\nb\rc\td\0e", "\0", "\u{7f}\u{1}", "保存 {} `x`"] {
        let lit = syn::parse_str::<syn::LitStr>(&rust_string_literal(s)).unwrap();
        assert_eq!(lit.value(), s);
    }
}
