use sqlf::verify::VerifyError;
use sqlf::{Identifier, Select};

#[test]
fn valid_select() {
    let table_def = {
        let mut tmp = sqlf::verify::RootTableDefinitions::new();

        tmp.add_table(
            "test",
            ["first", "second"].iter().map(|s| s.to_string()).collect(),
        );

        tmp
    };

    let query = Select::new(Identifier::new("test"), vec!["first".into()], ());

    let verify_result = sqlf::verify::verify_select(query, &table_def);

    assert!(verify_result.is_ok());
}

#[test]
fn missing_field_select() {
    let table_def = {
        let mut tmp = sqlf::verify::RootTableDefinitions::new();

        tmp.add_table(
            "test",
            ["first", "second"].iter().map(|s| s.to_string()).collect(),
        );

        tmp
    };

    let query = Select::new(Identifier::new("test"), vec!["other".into()], ());

    let verify_result = sqlf::verify::verify_select(query, &table_def);

    assert!(verify_result.is_err());
    assert_eq!(
        VerifyError::MissingField {
            field: "other".to_string()
        },
        verify_result.unwrap_err()
    );
}

#[test]
fn missing_table_select() {
    let table_def = {
        let mut tmp = sqlf::verify::RootTableDefinitions::new();

        tmp.add_table(
            "test",
            ["first", "second"].iter().map(|s| s.to_string()).collect(),
        );

        tmp
    };

    let query = Select::new(Identifier::new("other"), vec!["first".into()], ());

    let verify_result = sqlf::verify::verify_select(query, &table_def);

    assert!(verify_result.is_err());
    assert_eq!(
        VerifyError::UnknownTable {
            table: "other".to_string(),
        },
        verify_result.unwrap_err()
    );
}

#[test]
fn nested_select_valid_fields() {
    let table_def = {
        let mut tmp = sqlf::verify::RootTableDefinitions::new();

        tmp.add_table(
            "test",
            ["first", "second"].iter().map(|s| s.to_string()).collect(),
        );

        tmp
    };

    let inner = Select::new(
        Identifier::new("test"),
        vec!["first".into(), "second".into()],
        (),
    );
    let query = Select::new(inner, vec!["second".into()], ());

    let verify_result = sqlf::verify::verify_select(query, &table_def);

    assert!(verify_result.is_ok());
}

#[test]
fn nested_select_narrows_fields() {
    let table_def = {
        let mut tmp = sqlf::verify::RootTableDefinitions::new();

        tmp.add_table(
            "test",
            ["first", "second"].iter().map(|s| s.to_string()).collect(),
        );

        tmp
    };

    let inner = Select::new(Identifier::new("test"), vec!["first".into()], ());
    let query = Select::new(inner, vec!["second".into()], ());

    let verify_result = sqlf::verify::verify_select(query, &table_def);

    assert_eq!(
        VerifyError::MissingField {
            field: "second".to_string()
        },
        verify_result.unwrap_err()
    );
}

#[test]
fn first_missing_field_is_reported() {
    let table_def = {
        let mut tmp = sqlf::verify::RootTableDefinitions::new();

        tmp.add_table(
            "test",
            ["first", "second"].iter().map(|s| s.to_string()).collect(),
        );

        tmp
    };

    let query = Select::new(
        Identifier::new("test"),
        vec!["first".into(), "missing1".into(), "missing2".into()],
        (),
    );

    let verify_result = sqlf::verify::verify_select(query, &table_def);

    assert_eq!(
        VerifyError::MissingField {
            field: "missing1".to_string()
        },
        verify_result.unwrap_err()
    );
}

#[test]
fn later_definition_replaces_earlier() {
    let table_def = {
        let mut tmp = sqlf::verify::RootTableDefinitions::new();

        tmp.add_table("test", vec!["first".to_string()]);
        tmp.add_table("test", vec!["second".to_string()]);

        tmp
    };

    let old_field = Select::new(Identifier::new("test"), vec!["first".into()], ());
    let new_field = Select::new(Identifier::new("test"), vec!["second".into()], ());

    assert!(sqlf::verify::verify_select(old_field, &table_def).is_err());
    assert!(sqlf::verify::verify_select(new_field, &table_def).is_ok());
}

#[test]
fn select_with_no_fields_is_valid() {
    let table_def = {
        let mut tmp = sqlf::verify::RootTableDefinitions::new();

        tmp.add_table("test", vec!["first".to_string()]);

        tmp
    };

    let query = Select::new(Identifier::new("test"), Vec::new(), ());

    assert!(sqlf::verify::verify_select(query, &table_def).is_ok());
}

#[test]
fn get_table_finds_definition() {
    let mut defs = sqlf::verify::RootTableDefinitions::new();
    defs.add_table("test", vec!["first".to_string(), "second".to_string()]);

    let cols = defs.get_table("test");
    assert!(cols.is_some());
    assert_eq!(
        &vec!["first".to_string(), "second".to_string()],
        cols.unwrap()
    );

    assert!(defs.get_table("other").is_none());
}
