use wiw_boerse::escape::{mysql_escape, mysql_escape_nullable};

#[test]
fn plain_value_is_quoted() {
    assert_eq!(mysql_escape("abc"), "\"abc\"");
}

#[test]
fn single_quote_is_escaped() {
    assert_eq!(mysql_escape("a'b"), "\"a\\'b\"");
}

#[test]
fn double_quote_is_escaped() {
    assert_eq!(mysql_escape("a\"b"), "\"a\\\"b\"");
}

#[test]
fn backslash_is_escaped() {
    assert_eq!(mysql_escape("a\\b"), "\"a\\\\b\"");
}

#[test]
fn line_breaks_are_escaped() {
    assert_eq!(mysql_escape("a\nb\rc"), "\"a\\\nb\\\rc\"");
}

#[test]
fn nul_and_substitute_are_escaped() {
    assert_eq!(mysql_escape("a\0b\u{1a}c"), "\"a\\\0b\\\u{1a}c\"");
}

#[test]
fn empty_value_is_quoted_when_not_nullable() {
    assert_eq!(mysql_escape(""), "\"\"");
}

#[test]
fn nullable_empty_value_is_the_null_token() {
    assert_eq!(mysql_escape_nullable(""), "NULL");
}

#[test]
fn nullable_nonempty_value_is_escaped_and_quoted() {
    assert_eq!(mysql_escape_nullable("a'b"), "\"a\\'b\"");
    assert_eq!(mysql_escape_nullable("x"), "\"x\"");
}

#[test]
fn umlauts_pass_through_unescaped() {
    assert_eq!(mysql_escape("Käse"), "\"Käse\"");
}
