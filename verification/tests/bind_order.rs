use gen_codigo::bind_order::{bind_order, set_columns, Operation};
use gen_codigo::mapping::{map_column, Optionality};
use gen_codigo::render::map_table;
use gen_codigo::schema::{load_table, ColumnSpec, SqlType, TableSpec};

fn bound(name: &str, sql_type: SqlType, nullable: bool, max_length: Option<u32>) -> ColumnSpec {
    ColumnSpec {
        name: name.to_string(),
        sql_type,
        nullable,
        max_length,
        is_primary_key: false,
        has_server_default: false,
    }
}

/// `id` counts itself up in storage, and storage stamps `fecha_creacion`.
fn scenario_columns() -> Vec<ColumnSpec> {
    vec![
        ColumnSpec {
            is_primary_key: true,
            has_server_default: true,
            ..bound("id", SqlType::Integer, false, None)
        },
        bound("rut", SqlType::Text, false, Some(12)),
        bound("nombre", SqlType::Text, false, Some(50)),
        bound("ap_materno", SqlType::Text, true, Some(50)),
        ColumnSpec { has_server_default: true, ..bound("fecha_creacion", SqlType::DateTime, false, None) },
    ]
}

fn scenario_table(columns: Vec<ColumnSpec>) -> TableSpec {
    load_table("usuarios".to_string(), columns).unwrap()
}

#[test]
fn scenario_usuarios_bind_orders() {
    let table = scenario_table(scenario_columns());
    assert_eq!(bind_order(&table, Operation::Create), vec!["rut", "nombre", "ap_materno"]);
    assert_eq!(bind_order(&table, Operation::Update), vec!["rut", "nombre", "ap_materno", "id"]);
    assert_eq!(bind_order(&table, Operation::Delete), vec!["id"]);
}

#[test]
fn scenario_usuarios_optionality_of_ap_materno() {
    let columns = scenario_columns();
    let mapping = map_column(&columns[3]);
    assert_eq!(mapping.dto, Optionality::OptionalOfOptional);
    assert_eq!(mapping.entity, Optionality::Optional);
}

#[test]
fn a_key_that_the_caller_supplies_is_bound_on_create() {
    let mut columns = scenario_columns();
    columns[0].has_server_default = false;
    let table = scenario_table(columns);
    assert_eq!(bind_order(&table, Operation::Create), vec!["id", "rut", "nombre", "ap_materno"]);
    assert_eq!(bind_order(&table, Operation::Update), vec!["rut", "nombre", "ap_materno", "id"]);
    assert_eq!(bind_order(&table, Operation::Delete), vec!["id"]);
}

#[test]
fn the_key_is_bound_last_on_update_wherever_it_stands() {
    let mut columns = scenario_columns();
    columns.swap(0, 2);
    let table = scenario_table(columns);
    assert_eq!(bind_order(&table, Operation::Create), vec!["nombre", "rut", "ap_materno"]);
    assert_eq!(bind_order(&table, Operation::Update), vec!["nombre", "rut", "ap_materno", "id"]);
    assert_eq!(bind_order(&table, Operation::Delete), vec!["id"]);
    let order = bind_order(&table, Operation::Update);
    assert_eq!(order.iter().filter(|name| name.as_str() == "id").count(), 1);
    assert_eq!(order.last().map(|name| name.as_str()), Some("id"));
}

#[test]
fn a_table_of_defaults_binds_only_the_key() {
    let columns = vec![
        ColumnSpec {
            is_primary_key: true,
            has_server_default: true,
            ..bound("id", SqlType::Integer, false, None)
        },
        ColumnSpec { has_server_default: true, ..bound("creado", SqlType::DateTime, false, None) },
    ];
    let table = scenario_table(columns);
    assert_eq!(bind_order(&table, Operation::Create), Vec::<String>::new());
    assert_eq!(bind_order(&table, Operation::Update), vec!["id"]);
    assert_eq!(bind_order(&table, Operation::Delete), vec!["id"]);
}

#[test]
fn set_columns_leave_the_key_condition_out() {
    let table = scenario_table(scenario_columns());
    assert_eq!(set_columns(&table, Operation::Create), vec!["rut", "nombre", "ap_materno"]);
    assert_eq!(set_columns(&table, Operation::Update), vec!["rut", "nombre", "ap_materno"]);
    assert_eq!(set_columns(&table, Operation::Delete), Vec::<String>::new());
}

#[test]
fn reordering_the_columns_reorders_every_artifact_alike() {
    let mut columns = scenario_columns();
    columns.reverse();
    let table = scenario_table(columns);
    let fields: Vec<String> =
        map_table(&table).into_iter().map(|field| field.column.name).collect();
    assert_eq!(fields, vec!["fecha_creacion", "ap_materno", "nombre", "rut", "id"]);
    assert_eq!(bind_order(&table, Operation::Create), vec!["ap_materno", "nombre", "rut"]);
    assert_eq!(bind_order(&table, Operation::Update), vec!["ap_materno", "nombre", "rut", "id"]);
}

#[test]
fn the_fields_of_a_table_are_its_columns_with_their_mappings() {
    let table = scenario_table(scenario_columns());
    let fields = map_table(&table);
    assert_eq!(fields.len(), 5);
    for (field, column) in fields.iter().zip(scenario_columns().iter()) {
        assert_eq!(&field.column, column);
        assert_eq!(field.mapping, map_column(column));
    }
}
