use sqlf::fmt::{Formatter, SqliteBackend};
use sqlf::{And, Identifier, Literal, Or, Select};

#[test]
fn and_both_sides_present() {
    let formatter = Formatter::new(SqliteBackend::new());

    let predicate = And::new(
        (Identifier::new("a"), Literal::from("1")),
        (Identifier::new("b"), Literal::from("2")),
    );
    let select = Select::new(Identifier::new("test"), vec!["test".into()], predicate);

    let result = formatter.formatq(&select);

    assert_eq!(
        "SELECT test FROM (test) WHERE a=\"1\" AND b=\"2\"",
        result.to_string()
    );
}

#[test]
fn or_both_sides_present() {
    let formatter = Formatter::new(SqliteBackend::new());

    let predicate = Or::new(
        (Identifier::new("a"), Literal::from("1")),
        (Identifier::new("b"), Literal::from("2")),
    );
    let select = Select::new(Identifier::new("test"), vec!["test".into()], predicate);

    let result = formatter.formatq(&select);

    assert_eq!(
        "SELECT test FROM (test) WHERE a=\"1\" OR b=\"2\"",
        result.to_string()
    );
}

#[test]
fn and_absorbs_empty_side() {
    let formatter = Formatter::new(SqliteBackend::new());

    let alone = Select::new(
        Identifier::new("test"),
        vec!["test".into()],
        (Identifier::new("x"), Literal::from("y")),
    );
    let with_empty_left = Select::new(
        Identifier::new("test"),
        vec!["test".into()],
        And::new((), (Identifier::new("x"), Literal::from("y"))),
    );
    let with_empty_right = Select::new(
        Identifier::new("test"),
        vec!["test".into()],
        And::new((Identifier::new("x"), Literal::from("y")), ()),
    );

    let expected = formatter.formatq(&alone).to_string();
    assert_eq!(expected, formatter.formatq(&with_empty_left).to_string());
    assert_eq!(expected, formatter.formatq(&with_empty_right).to_string());
    assert_eq!("SELECT test FROM (test) WHERE x=\"y\"", expected);
}

#[test]
fn or_absorbs_empty_side() {
    let formatter = Formatter::new(SqliteBackend::new());

    let alone = Select::new(
        Identifier::new("test"),
        vec!["test".into()],
        (Identifier::new("x"), Literal::from("y")),
    );
    let with_empty = Select::new(
        Identifier::new("test"),
        vec!["test".into()],
        Or::new((), (Identifier::new("x"), Literal::from("y"))),
    );

    assert_eq!(
        formatter.formatq(&alone).to_string(),
        formatter.formatq(&with_empty).to_string()
    );
}

#[test]
fn and_of_two_empties_renders_no_condition() {
    let formatter = Formatter::new(SqliteBackend::new());

    let select = Select::new(
        Identifier::new("test"),
        vec!["test".into()],
        And::new((), ()),
    );

    let result = formatter.formatq(&select);

    assert_eq!("SELECT test FROM (test)", result.to_string());
}

#[test]
fn nested_combinators() {
    let formatter = Formatter::new(SqliteBackend::new());

    let predicate = Or::new(
        And::new(
            (Identifier::new("a"), Literal::from(1i64)),
            (Identifier::new("b"), Literal::from(2i64)),
        ),
        And::new((), (Identifier::new("c"), Literal::from(3i64))),
    );
    let select = Select::new(Identifier::new("test"), vec!["test".into()], predicate);

    let result = formatter.formatq(&select);

    assert_eq!(
        "SELECT test FROM (test) WHERE a=1 AND b=2 OR c=3",
        result.to_string()
    );
}

#[test]
fn string_literal_is_not_escaped() {
    let formatter = Formatter::new(SqliteBackend::new());

    let select = Select::new(
        Identifier::new("test"),
        vec!["test".into()],
        (Identifier::new("x"), Literal::from("va\"lue")),
    );

    let result = formatter.formatq(&select);

    assert_eq!(
        "SELECT test FROM (test) WHERE x=\"va\"lue\"",
        result.to_string()
    );
}

#[test]
fn number_literal_edge_values() {
    let formatter = Formatter::new(SqliteBackend::new());

    assert_eq!("0", formatter.number_literal(0).to_string());
    assert_eq!("10", formatter.number_literal(10).to_string());
    assert_eq!("-1", formatter.number_literal(-1).to_string());
    assert_eq!(
        "9223372036854775807",
        formatter.number_literal(i64::MAX).to_string()
    );
    assert_eq!(
        "-9223372036854775808",
        formatter.number_literal(i64::MIN).to_string()
    );
}

#[test]
fn parameter_token() {
    let formatter = Formatter::new(SqliteBackend::new());

    assert_eq!("?", formatter.parameter().to_string());
}

#[test]
fn string_literal_quotes() {
    let formatter = Formatter::new(SqliteBackend::new());

    assert_eq!("\"abc\"", formatter.string_literal("abc").to_string());
    assert_eq!("\"\"", formatter.string_literal("").to_string());
}
