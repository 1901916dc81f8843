use sqlf::fmt::{Formatter, SqliteBackend};
use sqlf::{Delete, Expr, Identifier, Insert, Literal, Parameter, Update};

#[test]
fn insert_two_values() {
    let formatter = Formatter::new(SqliteBackend::new());

    let insert = Insert::new(
        Identifier::new("test"),
        vec![
            ("field1".into(), Expr::Literal(Literal::from("value1"))),
            ("field2".into(), Expr::Literal(Literal::from(132i64))),
        ],
    );

    let result = formatter.formats(&insert);

    assert_eq!(
        "INSERT INTO test (field1,field2) VALUES (\"value1\",132)",
        result.to_string()
    );
}

#[test]
fn insert_preserves_pair_order() {
    let formatter = Formatter::new(SqliteBackend::new());

    let insert = Insert::new(
        Identifier::new("t"),
        vec![
            ("b".into(), Expr::Literal(Literal::from(2i64))),
            ("a".into(), Expr::Literal(Literal::from(1i64))),
            ("c".into(), Expr::Literal(Literal::from(3i64))),
        ],
    );

    let result = formatter.formats(&insert);

    assert_eq!("INSERT INTO t (b,a,c) VALUES (2,1,3)", result.to_string());
}

#[test]
fn insert_with_parameter() {
    let formatter = Formatter::new(SqliteBackend::new());

    let insert = Insert::new(
        Identifier::new("test"),
        vec![("field".into(), Expr::Parameter(Parameter {}))],
    );

    let result = formatter.formats(&insert);

    assert_eq!("INSERT INTO test (field) VALUES (?)", result.to_string());
}

#[test]
fn update_with_predicate() {
    let formatter = Formatter::new(SqliteBackend::new());

    let update = Update::new(
        Identifier::new("test"),
        vec![
            ("first".into(), Expr::Literal(Literal::from("new"))),
            ("second".into(), Expr::Literal(Literal::from(5i64))),
        ],
        ("id".into(), 3i64.into()),
    );

    let result = formatter.formats(&update);

    assert_eq!(
        "UPDATE test SET first=\"new\",second=5 WHERE id=3",
        result.to_string()
    );
}

#[test]
fn update_without_predicate() {
    let formatter = Formatter::new(SqliteBackend::new());

    let update = Update::new(
        Identifier::new("test"),
        vec![("first".into(), Expr::Literal(Literal::from("new")))],
        (),
    );

    let result = formatter.formats(&update);

    assert_eq!("UPDATE test SET first=\"new\"", result.to_string());
}

#[test]
fn delete_without_predicate() {
    let formatter = Formatter::new(SqliteBackend::new());

    let delete = Delete::new(Identifier::new("test"), ());

    let result = formatter.formats(&delete);

    assert_eq!("DELETE FROM (test)", result.to_string());
}

#[test]
fn delete_with_predicate() {
    let formatter = Formatter::new(SqliteBackend::new());

    let delete = Delete::new(
        Identifier::new("test"),
        (Identifier::new("field"), Literal::from("value")),
    );

    let result = formatter.formats(&delete);

    assert_eq!(
        "DELETE FROM (test) WHERE field=\"value\"",
        result.to_string()
    );
}

#[test]
fn insert_with_no_values() {
    let formatter = Formatter::new(SqliteBackend::new());

    let insert = Insert::new(Identifier::new("test"), Vec::new());

    let result = formatter.formats(&insert);

    assert_eq!("INSERT INTO test () VALUES ()", result.to_string());
}
