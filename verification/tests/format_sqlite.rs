use sqlf::fmt::{Formatter, SqliteBackend};
use sqlf::{Identifier, Order, Select};

#[test]
fn select() {
    let formatter = Formatter::new(SqliteBackend::new());

    let select = Select::new(Identifier::new("test"), vec!["test".into()], ());

    let result = formatter.formatq(&select);

    assert_eq!("SELECT test FROM (test)", result.to_string());
}

#[test]
fn nested_select() {
    let formatter = Formatter::new(SqliteBackend::new());

    let select = Select::new(
        Select::new(
            Identifier::new("inner"),
            vec!["test".into(), "testing".into()],
            (),
        ),
        vec!["test".into()],
        (),
    );

    let result = formatter.formatq(&select);

    assert_eq!(
        "SELECT test FROM (SELECT test,testing FROM (inner))",
        result.to_string()
    );
}

#[test]
fn conditional_select() {
    let formatter = Formatter::new(SqliteBackend::new());

    let select = Select::new(
        Identifier::new("test"),
        vec!["test".into()],
        ("test".into(), "value".into()),
    );

    let result = formatter.formatq(&select);

    assert_eq!(
        "SELECT test FROM (test) WHERE test=\"value\"",
        result.to_string()
    );
}

#[test]
fn ordering_select() {
    let formatter = Formatter::new(SqliteBackend::new());

    let select = Select::new(Identifier::new("test"), vec!["test".into()], ())
        .order(Identifier::new("other"), Order::Descending);

    let result = formatter.formatq(&select);

    assert_eq!(
        "SELECT test FROM (test) ORDER BY other DESC",
        result.to_string()
    );
}

#[test]
fn ordering_select_ascending() {
    let formatter = Formatter::new(SqliteBackend::new());

    let select = Select::new(Identifier::new("test"), vec!["test".into()], ())
        .order(Identifier::new("other"), Order::Ascending);

    let result = formatter.formatq(&select);

    assert_eq!(
        "SELECT test FROM (test) ORDER BY other ASC",
        result.to_string()
    );
}

#[test]
fn select_formatting_is_pure() {
    let formatter = Formatter::new(SqliteBackend::new());

    let select = Select::new(
        Identifier::new("test"),
        vec!["a".into(), "b".into()],
        ("a".into(), 7i64.into()),
    );

    let first = formatter.formatq(&select);
    let second = formatter.formatq(&select);

    assert_eq!(first.to_string(), second.to_string());
}

#[test]
fn select_number_predicate() {
    let formatter = Formatter::new(SqliteBackend::new());

    let select = Select::new(
        Identifier::new("test"),
        vec!["test".into()],
        ("count".into(), (-42i64).into()),
    );

    let result = formatter.formatq(&select);

    assert_eq!(
        "SELECT test FROM (test) WHERE count=-42",
        result.to_string()
    );
}

#[test]
fn sql_into_string() {
    let formatter = Formatter::new(SqliteBackend::new());

    let select = Select::new(Identifier::new("test"), vec!["test".into()], ());

    let result: String = formatter.formatq(&select).into();

    assert_eq!("SELECT test FROM (test)".to_string(), result);
}

#[test]
fn predicate_and_ordering_together() {
    let formatter = Formatter::new(SqliteBackend::new());

    let select = Select::new(
        Identifier::new("test"),
        vec!["test".into()],
        ("test".into(), "value".into()),
    )
    .order(Identifier::new("other"), Order::Descending);

    let result = formatter.formatq(&select);

    assert_eq!(
        "SELECT test FROM (test) WHERE test=\"value\" ORDER BY other DESC",
        result.to_string()
    );
}
