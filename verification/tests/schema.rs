use gen_codigo::schema::{load_table, ColumnSpec, SchemaError, SqlType};

fn schema_column(name: &str, sql_type: SqlType) -> ColumnSpec {
    ColumnSpec {
        name: name.to_string(),
        sql_type,
        nullable: false,
        max_length: None,
        is_primary_key: false,
        has_server_default: false,
    }
}

fn schema_key(name: &str) -> ColumnSpec {
    ColumnSpec { is_primary_key: true, ..schema_column(name, SqlType::Integer) }
}

#[test]
fn a_valid_table_keeps_its_name_and_columns() {
    let columns = vec![
        schema_key("id"),
        ColumnSpec { max_length: Some(12), ..schema_column("rut", SqlType::Text) },
        schema_column("fecha_creacion", SqlType::DateTime),
    ];
    let table = load_table("usuarios".to_string(), columns.clone()).unwrap();
    assert_eq!(table.name(), "usuarios");
    assert_eq!(table.columns(), &columns);
    assert_eq!(table.primary_key_position(), 0);
    assert_eq!(table.primary_key_column().name, "id");
}

#[test]
fn the_primary_key_may_stand_anywhere() {
    let columns = vec![schema_column("rut", SqlType::Text), schema_key("id")];
    let table = load_table("t".to_string(), columns).unwrap();
    assert_eq!(table.primary_key_position(), 1);
    assert_eq!(table.primary_key_column().name, "id");
}

#[test]
fn duplicate_column_names_are_refused() {
    let columns = vec![
        schema_key("id"),
        schema_column("rut", SqlType::Text),
        schema_column("rut", SqlType::Integer),
    ];
    assert_eq!(load_table("t".to_string(), columns).err(), Some(SchemaError::DuplicateColumn));
}

#[test]
fn a_table_without_primary_key_is_refused() {
    let columns = vec![schema_column("rut", SqlType::Text)];
    assert_eq!(load_table("t".to_string(), columns).err(), Some(SchemaError::MissingPrimaryKey));
}

#[test]
fn a_table_without_columns_is_refused() {
    assert_eq!(load_table("t".to_string(), vec![]).err(), Some(SchemaError::MissingPrimaryKey));
}

#[test]
fn two_primary_keys_are_refused() {
    let columns = vec![schema_key("id"), schema_key("other_id")];
    assert_eq!(load_table("t".to_string(), columns).err(), Some(SchemaError::MultiplePrimaryKeys));
}

#[test]
fn a_length_on_a_number_is_refused() {
    let columns = vec![
        schema_key("id"),
        ColumnSpec { max_length: Some(3), ..schema_column("edad", SqlType::Integer) },
    ];
    assert_eq!(load_table("t".to_string(), columns).err(), Some(SchemaError::LengthOnNonText));
}

#[test]
fn a_length_on_a_datetime_is_refused() {
    let columns = vec![
        schema_key("id"),
        ColumnSpec { max_length: Some(3), ..schema_column("fecha", SqlType::DateTime) },
    ];
    assert_eq!(load_table("t".to_string(), columns).err(), Some(SchemaError::LengthOnNonText));
}

#[test]
fn a_length_on_the_primary_key_is_refused_when_it_is_a_number() {
    let columns = vec![ColumnSpec { max_length: Some(3), ..schema_key("id") }];
    assert_eq!(load_table("t".to_string(), columns).err(), Some(SchemaError::LengthOnNonText));
}

#[test]
fn duplicate_names_are_reported_before_the_primary_key() {
    let columns = vec![schema_column("rut", SqlType::Text), schema_column("rut", SqlType::Text)];
    assert_eq!(load_table("t".to_string(), columns).err(), Some(SchemaError::DuplicateColumn));
}

#[test]
fn the_primary_key_is_reported_before_a_misplaced_length() {
    let columns = vec![ColumnSpec { max_length: Some(3), ..schema_column("edad", SqlType::Integer) }];
    assert_eq!(load_table("t".to_string(), columns).err(), Some(SchemaError::MissingPrimaryKey));
}

#[test]
fn nothing_else_is_checked() {
    let columns = vec![
        ColumnSpec { nullable: true, has_server_default: true, ..schema_key("Id With Spaces") },
        ColumnSpec { max_length: Some(0), ..schema_column("", SqlType::Text) },
    ];
    assert!(load_table("".to_string(), columns).is_ok());
}

#[test]
fn the_names_of_the_types() {
    assert_eq!(SqlType::from_name("integer"), Some(SqlType::Integer));
    assert_eq!(SqlType::from_name("string"), Some(SqlType::Text));
    assert_eq!(SqlType::from_name("datetime"), Some(SqlType::DateTime));
    assert_eq!(SqlType::from_name("Integer"), None);
    assert_eq!(SqlType::from_name("varchar"), None);
    assert_eq!(SqlType::from_name(""), None);
    assert_eq!(SqlType::from_name("integer "), None);
}

#[test]
fn a_column_is_built_step_by_step() {
    let plain = ColumnSpec::new("rut", SqlType::Text);
    assert_eq!(plain, schema_column("rut", SqlType::Text));
    assert_eq!(plain.duplicate(), plain);
    assert_eq!(plain.clone().nullable(), ColumnSpec { nullable: true, ..plain.clone() });
    assert_eq!(
        plain.clone().with_max_length(12),
        ColumnSpec { max_length: Some(12), ..plain.clone() }
    );
    assert_eq!(plain.clone().primary_key(), ColumnSpec { is_primary_key: true, ..plain.clone() });
    assert_eq!(
        plain.clone().server_default(),
        ColumnSpec { has_server_default: true, ..plain.clone() }
    );
    assert_eq!(
        ColumnSpec::new("id", SqlType::Integer).primary_key().server_default().nullable().with_max_length(3),
        ColumnSpec {
            name: "id".to_string(),
            sql_type: SqlType::Integer,
            nullable: true,
            max_length: Some(3),
            is_primary_key: true,
            has_server_default: true,
        }
    );
}
