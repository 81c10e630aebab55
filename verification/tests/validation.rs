use gen_codigo::mapping::ValidationRule;
use gen_codigo::outcome::{create_plan, update_plan, HandlerError};
use gen_codigo::render::map_table;
use gen_codigo::schema::{load_table, ColumnSpec, SqlType, TableSpec};
use gen_codigo::statement::{statement, HandlerKind};
use gen_codigo::validation::{breaks, validate, FieldInput, ValidationFailed};

fn checked(name: &str, sql_type: SqlType, nullable: bool, max_length: Option<u32>) -> ColumnSpec {
    ColumnSpec {
        name: name.to_string(),
        sql_type,
        nullable,
        max_length,
        is_primary_key: false,
        has_server_default: false,
    }
}

fn checked_table() -> TableSpec {
    let columns = vec![
        ColumnSpec {
            is_primary_key: true,
            has_server_default: true,
            ..checked("id", SqlType::Integer, false, None)
        },
        checked("rut", SqlType::Text, false, Some(12)),
        checked("nombre", SqlType::Text, false, Some(50)),
        checked("ap_materno", SqlType::Text, true, Some(50)),
        ColumnSpec {
            has_server_default: true,
            ..checked("fecha_creacion", SqlType::DateTime, false, None)
        },
    ];
    load_table("usuarios".to_string(), columns).unwrap()
}

fn text(value: &str) -> FieldInput {
    FieldInput::Text(value.to_string())
}

fn failed(field: &str, rule: ValidationRule) -> ValidationFailed {
    ValidationFailed { field: field.to_string(), rule }
}

fn required_rule(field: &str) -> ValidationRule {
    ValidationRule::Required { message: format!("El campo {} es requerido", field) }
}

fn length_rule(max: u32) -> ValidationRule {
    ValidationRule::LengthBetween { min: 1, max }
}

fn good_record() -> Vec<FieldInput> {
    vec![FieldInput::Other, text("11.111.111-1"), text("Ana"), FieldInput::Absent, FieldInput::Absent]
}

#[test]
fn a_good_request_reaches_storage() {
    let table = checked_table();
    assert_eq!(create_plan(&table, &good_record()), Ok(statement(&table, HandlerKind::Create)));
    assert_eq!(update_plan(&table, &good_record()), Ok(statement(&table, HandlerKind::Update)));
}

#[test]
fn a_rut_of_thirteen_characters_is_rejected_before_storage() {
    let table = checked_table();
    let mut record = good_record();
    record[1] = text("11.111.111-11");
    assert_eq!(
        create_plan(&table, &record),
        Err(HandlerError::ValidationFailed(vec![failed("rut", length_rule(12))]))
    );
}

#[test]
fn all_violations_are_reported_together() {
    let table = checked_table();
    let record = vec![
        FieldInput::Absent,
        text(""),
        FieldInput::Null,
        text(&"x".repeat(51)),
        FieldInput::Null,
    ];
    let expected = vec![
        failed("id", required_rule("id")),
        failed("rut", length_rule(12)),
        failed("nombre", required_rule("nombre")),
        failed("ap_materno", length_rule(50)),
    ];
    assert_eq!(validate(&map_table(&table), &record), expected);
    assert_eq!(create_plan(&table, &record), Err(HandlerError::ValidationFailed(expected.clone())));
    assert_eq!(update_plan(&table, &record), Err(HandlerError::ValidationFailed(expected)));
}

#[test]
fn a_short_request_misses_its_last_fields() {
    let table = checked_table();
    let record = vec![FieldInput::Other];
    assert_eq!(
        validate(&map_table(&table), &record),
        vec![failed("rut", required_rule("rut")), failed("nombre", required_rule("nombre"))]
    );
    assert_eq!(
        validate(&map_table(&table), &vec![]),
        vec![
            failed("id", required_rule("id")),
            failed("rut", required_rule("rut")),
            failed("nombre", required_rule("nombre")),
        ]
    );
}

#[test]
fn what_a_request_holds_beyond_the_columns_is_not_looked_at() {
    let table = checked_table();
    let mut record = good_record();
    record.push(text(&"x".repeat(1000)));
    record.push(FieldInput::Null);
    assert_eq!(validate(&map_table(&table), &record), vec![]);
}

#[test]
fn length_is_checked_at_both_ends() {
    let rule = length_rule(12);
    assert!(breaks(&rule, &text("")));
    assert!(!breaks(&rule, &text("1")));
    assert!(!breaks(&rule, &text("123456789012")));
    assert!(breaks(&rule, &text("1234567890123")));
    let wide = ValidationRule::LengthBetween { min: 3, max: 3 };
    assert!(breaks(&wide, &text("ab")));
    assert!(!breaks(&wide, &text("abc")));
    assert!(breaks(&wide, &text("abcd")));
    let never = ValidationRule::LengthBetween { min: 1, max: 0 };
    assert!(breaks(&never, &text("")));
    assert!(breaks(&never, &text("a")));
}

#[test]
fn length_counts_characters_not_bytes() {
    let rule = ValidationRule::LengthBetween { min: 1, max: 4 };
    assert!(!breaks(&rule, &text("ñand")));
    assert!(!breaks(&rule, &text("ñañá")));
    assert!(breaks(&rule, &text("ñañás")));
}

#[test]
fn length_only_looks_at_strings() {
    let rule = length_rule(12);
    assert!(!breaks(&rule, &FieldInput::Absent));
    assert!(!breaks(&rule, &FieldInput::Null));
    assert!(!breaks(&rule, &FieldInput::Other));
}

#[test]
fn required_is_broken_by_what_is_absent_or_null() {
    let rule = required_rule("rut");
    assert!(breaks(&rule, &FieldInput::Absent));
    assert!(breaks(&rule, &FieldInput::Null));
    assert!(!breaks(&rule, &FieldInput::Other));
    assert!(!breaks(&rule, &text("")));
}
