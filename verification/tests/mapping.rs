use gen_codigo::mapping::{
    column_is_required, map_column, FieldMapping, Optionality, TargetType, ValidationRule,
};
use gen_codigo::schema::{ColumnSpec, SqlType};

fn mapped(name: &str, sql_type: SqlType, nullable: bool, max_length: Option<u32>) -> ColumnSpec {
    ColumnSpec {
        name: name.to_string(),
        sql_type,
        nullable,
        max_length,
        is_primary_key: false,
        has_server_default: false,
    }
}

fn required(name: &str) -> ValidationRule {
    ValidationRule::Required { message: format!("El campo {} es requerido", name) }
}

fn length(max: u32) -> ValidationRule {
    ValidationRule::LengthBetween { min: 1, max }
}

#[test]
fn an_integer_that_takes_no_null_is_a_required_integer() {
    assert_eq!(
        map_column(&mapped("estatus", SqlType::Integer, false, None)),
        FieldMapping {
            target: TargetType::Integer,
            entity: Optionality::Plain,
            dto: Optionality::Plain,
            rules: vec![required("estatus")],
        }
    );
}

#[test]
fn an_integer_that_takes_null_is_optional_and_has_no_rule() {
    assert_eq!(
        map_column(&mapped("nivel_acceso", SqlType::Integer, true, None)),
        FieldMapping {
            target: TargetType::Integer,
            entity: Optionality::Optional,
            dto: Optionality::OptionalOfOptional,
            rules: vec![],
        }
    );
}

#[test]
fn a_string_that_takes_no_null_is_required_and_limited() {
    assert_eq!(
        map_column(&mapped("rut", SqlType::Text, false, Some(12))),
        FieldMapping {
            target: TargetType::Text,
            entity: Optionality::Plain,
            dto: Optionality::Plain,
            rules: vec![required("rut"), length(12)],
        }
    );
}

#[test]
fn a_string_that_takes_null_is_limited_but_not_required() {
    assert_eq!(
        map_column(&mapped("ap_materno", SqlType::Text, true, Some(50))),
        FieldMapping {
            target: TargetType::Text,
            entity: Optionality::Optional,
            dto: Optionality::OptionalOfOptional,
            rules: vec![length(50)],
        }
    );
}

#[test]
fn a_string_without_limit_has_no_length_rule() {
    assert_eq!(
        map_column(&mapped("notas", SqlType::Text, true, None)).rules,
        Vec::<ValidationRule>::new()
    );
    assert_eq!(map_column(&mapped("notas", SqlType::Text, false, None)).rules, vec![required("notas")]);
}

#[test]
fn a_datetime_that_takes_no_null_is_a_required_datetime() {
    assert_eq!(
        map_column(&mapped("fecha_creacion", SqlType::DateTime, false, None)),
        FieldMapping {
            target: TargetType::DateTime,
            entity: Optionality::Plain,
            dto: Optionality::Plain,
            rules: vec![required("fecha_creacion")],
        }
    );
}

#[test]
fn a_server_default_lifts_the_requirement() {
    let column = ColumnSpec {
        has_server_default: true,
        ..mapped("fecha_creacion", SqlType::DateTime, false, None)
    };
    assert!(!column_is_required(&column));
    assert_eq!(
        map_column(&column),
        FieldMapping {
            target: TargetType::DateTime,
            entity: Optionality::Plain,
            dto: Optionality::Optional,
            rules: vec![],
        }
    );
}

#[test]
fn a_server_default_on_a_nullable_column_gives_two_options() {
    let column =
        ColumnSpec { has_server_default: true, ..mapped("alias", SqlType::Text, true, Some(8)) };
    assert_eq!(
        map_column(&column),
        FieldMapping {
            target: TargetType::Text,
            entity: Optionality::Optional,
            dto: Optionality::OptionalOfOptional,
            rules: vec![length(8)],
        }
    );
}

#[test]
fn the_primary_key_is_required_whatever_its_flags() {
    for nullable in [false, true] {
        for has_server_default in [false, true] {
            let column = ColumnSpec {
                is_primary_key: true,
                has_server_default,
                ..mapped("id", SqlType::Integer, nullable, None)
            };
            assert!(column_is_required(&column));
            assert_eq!(
                map_column(&column),
                FieldMapping {
                    target: TargetType::Integer,
                    entity: Optionality::Plain,
                    dto: Optionality::Plain,
                    rules: vec![required("id")],
                }
            );
        }
    }
}

#[test]
fn a_primary_key_of_characters_keeps_its_type_and_limit() {
    let column = ColumnSpec { is_primary_key: true, ..mapped("codigo", SqlType::Text, true, Some(6)) };
    assert_eq!(
        map_column(&column),
        FieldMapping {
            target: TargetType::Text,
            entity: Optionality::Plain,
            dto: Optionality::Plain,
            rules: vec![required("codigo"), length(6)],
        }
    );
}

#[test]
fn every_column_that_must_be_given_has_the_rule_required() {
    for sql_type in [SqlType::Integer, SqlType::Text, SqlType::DateTime] {
        let column = mapped("campo", sql_type, false, None);
        assert!(map_column(&column).rules.contains(&required("campo")));
    }
}

#[test]
fn every_limited_string_has_the_rule_length() {
    for limit in [1u32, 12, 255, u32::MAX] {
        for nullable in [false, true] {
            let mapping = map_column(&mapped("campo", SqlType::Text, nullable, Some(limit)));
            assert!(mapping.rules.contains(&length(limit)));
            assert_eq!(mapping.target, TargetType::Text);
            let expected = if nullable { Optionality::Optional } else { Optionality::Plain };
            assert_eq!(mapping.entity, expected);
        }
    }
}
