use gen_codigo::api::{create, delete, get_by_id, update, Route, Success};
use gen_codigo::config::{Config, VarError};
use gen_codigo::error::{AppError, ErrorResponse};
use gen_codigo::models::{Usuario, UsuarioInput};
use gen_codigo::pagination::{default_limit, PaginationQuery};
use gen_codigo::pool::{get_conn, init_db_pool, PoolSlot};
use gen_codigo::bind_order::Operation;
use gen_codigo::repository::{
    bound_values, call_for, delete_call, lookup_call, page_call, save_call, write_call, SqlValue,
};
use gen_codigo::response::{
    delete_response, error_envelope, ok_response, upsert_kind, usuario_response,
    usuarios_response, BasicResponse,
};
use gen_codigo::schema::{load_table, ColumnSpec, SqlType, TableSpec};
use gen_codigo::statement::HandlerKind;

fn input() -> UsuarioInput {
    UsuarioInput {
        id: 7,
        rut: "11.111.111-1".to_string(),
        nombre: "Ana".to_string(),
        ap_paterno: "Rojas".to_string(),
        ap_materno: "Soto".to_string(),
        email: "ana@example.org".to_string(),
        telefonos: "+56 9 1111 1111".to_string(),
        cod_zona: "RM".to_string(),
        nivel_acceso: 3,
        cod_cliente: 9,
        clave_acceso: "x".to_string(),
        estatus: 1,
    }
}

fn row() -> Usuario {
    Usuario {
        id: 7,
        rut: "11.111.111-1".to_string(),
        nombre: "Ana".to_string(),
        ap_paterno: "Rojas".to_string(),
        ap_materno: "Soto".to_string(),
        email: "ana@example.org".to_string(),
        telefonos: "+56 9 1111 1111".to_string(),
        cod_zona: Some("RM".to_string()),
        nivel_acceso: Some(3),
        cod_cliente: Some(9),
        clave_acceso: "x".to_string(),
        estatus: 1,
    }
}

fn users_column(name: &str, sql_type: SqlType, nullable: bool) -> ColumnSpec {
    ColumnSpec {
        name: name.to_string(),
        sql_type,
        nullable,
        max_length: None,
        is_primary_key: false,
        has_server_default: false,
    }
}

fn users_table() -> TableSpec {
    let columns = vec![
        ColumnSpec {
            is_primary_key: true,
            has_server_default: true,
            ..users_column("id", SqlType::Integer, false)
        },
        users_column("rut", SqlType::Text, false),
        users_column("nombre", SqlType::Text, false),
        users_column("ap_paterno", SqlType::Text, false),
        users_column("ap_materno", SqlType::Text, false),
        users_column("email", SqlType::Text, false),
        users_column("telefonos", SqlType::Text, false),
        users_column("cod_zona", SqlType::Text, true),
        users_column("nivel_acceso", SqlType::Integer, true),
        users_column("cod_cliente", SqlType::Integer, true),
        users_column("clave_acceso", SqlType::Text, false),
        users_column("estatus", SqlType::Integer, false),
    ];
    load_table("usuarios".to_string(), columns).unwrap()
}

fn t(value: &str) -> SqlValue {
    SqlValue::Text(value.to_string())
}

#[test]
fn an_input_becomes_a_row() {
    assert_eq!(Usuario::try_from(input()), Ok(row()));
    assert_eq!(create(input()), Ok(row()));
}

#[test]
fn an_update_takes_its_key_from_the_path() {
    assert_eq!(update(12, input()), Ok(Usuario { id: 12, ..row() }));
    assert_eq!(update(7, input()), Ok(row()));
}

#[test]
fn a_lookup_answers_with_the_user_or_not_found() {
    assert_eq!(get_by_id(Some(row())), Ok(row()));
    assert_eq!(get_by_id(None), Err(AppError::NotFound));
}

#[test]
fn a_delete_answers_with_no_content_or_not_found() {
    assert_eq!(delete(true), Ok(Success::NoContent));
    assert_eq!(delete(false), Err(AppError::NotFound));
}

#[test]
fn what_each_route_answers_on_success() {
    assert_eq!(Route::GetById.success(), Success::Found);
    assert_eq!(Route::GetAll.success(), Success::Found);
    assert_eq!(Route::Create.success(), Success::Created);
    assert_eq!(Route::Update.success(), Success::Found);
    assert_eq!(Route::Delete.success(), Success::NoContent);
}

#[test]
fn the_numbers_of_the_success_statuses() {
    assert_eq!(Success::Found.status_code(), 200);
    assert_eq!(Success::Created.status_code(), 201);
    assert_eq!(Success::NoContent.status_code(), 204);
}

#[test]
fn what_a_caller_sees_of_each_error() {
    let seen = |e: AppError| e.error_response();
    let shown = |status: u16, error: &str| ErrorResponse { status, error: error.to_string() };
    assert_eq!(seen(AppError::Database("table is locked".to_string())), shown(500, "Database operation failed"));
    assert_eq!(seen(AppError::Config("DATABASE_URL".to_string())), shown(500, "Configuration error"));
    assert_eq!(seen(AppError::NotFound), shown(404, "Not found"));
    assert_eq!(seen(AppError::Validation("expected value at line 1".to_string())), shown(400, "expected value at line 1"));
    assert_eq!(seen(AppError::Internal("pool".to_string())), shown(500, "Internal server error"));
    assert_eq!(AppError::NotFound.status_code(), 404);
    assert_eq!(AppError::Validation(String::new()).status_code(), 400);
    assert_eq!(AppError::Database(String::new()).status_code(), 500);
}

#[test]
fn what_the_log_gets_of_each_error() {
    assert_eq!(AppError::Database("table is locked".to_string()).message(), "Database error: table is locked");
    assert_eq!(AppError::Config("not set".to_string()).message(), "Configuration error: not set");
    assert_eq!(AppError::NotFound.message(), "Resource not found");
    assert_eq!(AppError::Validation("bad".to_string()).message(), "Validation error: bad");
    assert_eq!(AppError::Internal("pool".to_string()).message(), "Internal error: pool");
}

#[test]
fn the_envelope_of_each_error() {
    let envelope = |msg: &str| BasicResponse { cod_err: 1, msg_err: msg.to_string() };
    assert_eq!(error_envelope(&AppError::Database("x".to_string())), (500, envelope("Database error")));
    assert_eq!(error_envelope(&AppError::Config("x".to_string())), (500, envelope("Configuration error")));
    assert_eq!(error_envelope(&AppError::Validation("x".to_string())), (400, envelope("Invalid JSON")));
    assert_eq!(error_envelope(&AppError::NotFound), (404, envelope("Not found")));
    assert_eq!(error_envelope(&AppError::Internal("x".to_string())), (500, envelope("Internal server error")));
}

#[test]
fn the_envelopes_of_the_answers() {
    assert_eq!(ok_response(), BasicResponse { cod_err: 0, msg_err: "OK".to_string() });
    let found = usuario_response(Some(row()));
    assert_eq!((found.datos, found.cod_err, found.msg_err.as_str()), (Some(row()), 0, "OK"));
    let missing = usuario_response(None);
    assert_eq!((missing.datos, missing.cod_err, missing.msg_err.as_str()), (None, 1, "Usuario no encontrado"));
    let list = usuarios_response(vec![row(), Usuario { id: 8, ..row() }]);
    assert_eq!(list.datos, vec![row(), Usuario { id: 8, ..row() }]);
    assert_eq!((list.cod_err, list.msg_err.as_str()), (0, "OK"));
    assert_eq!(delete_response(1), ok_response());
    assert_eq!(delete_response(3), ok_response());
    assert_eq!(delete_response(0), BasicResponse { cod_err: 1, msg_err: "Usuario no encontrado".to_string() });
}

#[test]
fn saving_updates_what_exists_and_creates_what_does_not() {
    assert_eq!(upsert_kind(Some(7)), HandlerKind::Update);
    assert_eq!(upsert_kind(Some(0)), HandlerKind::Update);
    assert_eq!(upsert_kind(None), HandlerKind::Create);
}

#[test]
fn the_settings_with_every_variable_set() {
    let config = Config::from_env(
        Ok("mysql://localhost/telemed".to_string()),
        Ok("127.0.0.1:9000".to_string()),
        Ok("debug".to_string()),
    )
    .unwrap();
    assert_eq!(config.database_url, "mysql://localhost/telemed");
    assert_eq!(config.server_address, "127.0.0.1:9000");
    assert_eq!(config.log_level, "debug");
}

#[test]
fn the_settings_fall_back_for_address_and_log_level() {
    let config = Config::from_env(
        Ok("mysql://localhost/telemed".to_string()),
        Err(VarError::NotPresent),
        Err(VarError::NotUnicode),
    )
    .unwrap();
    assert_eq!(config.database_url, "mysql://localhost/telemed");
    assert_eq!(config.server_address, "0.0.0.0:8080");
    assert_eq!(config.log_level, "info");
}

#[test]
fn the_settings_need_the_database_url() {
    let missing = Config::from_env(Err(VarError::NotPresent), Ok("a".to_string()), Ok("b".to_string()));
    assert_eq!(missing.err(), Some(VarError::NotPresent));
    let unreadable = Config::from_env(Err(VarError::NotUnicode), Err(VarError::NotPresent), Err(VarError::NotPresent));
    assert_eq!(unreadable.err(), Some(VarError::NotUnicode));
}

#[test]
fn a_request_before_the_pool_is_an_internal_error() {
    let slot: PoolSlot<String> = PoolSlot::new();
    assert!(!slot.is_initialised());
    assert_eq!(get_conn(&slot), Err(AppError::Internal("connection pool is not initialised".to_string())));
}

#[test]
fn the_pool_that_was_opened_is_the_pool_that_is_handed_out() {
    let mut slot: PoolSlot<String> = PoolSlot::new();
    assert_eq!(init_db_pool(&mut slot, Ok("pool A".to_string())), Ok(()));
    assert!(slot.is_initialised());
    assert_eq!(get_conn(&slot), Ok(&"pool A".to_string()));
    assert_eq!(init_db_pool(&mut slot, Ok("pool B".to_string())), Ok(()));
    assert_eq!(get_conn(&slot), Ok(&"pool B".to_string()));
}

#[test]
fn a_pool_that_did_not_open_leaves_the_slot_as_it_was() {
    let mut slot: PoolSlot<String> = PoolSlot::new();
    assert_eq!(
        init_db_pool(&mut slot, Err("connection refused".to_string())),
        Err(AppError::Database("connection refused".to_string()))
    );
    assert!(!slot.is_initialised());
    assert_eq!(init_db_pool(&mut slot, Ok("pool A".to_string())), Ok(()));
    assert_eq!(
        init_db_pool(&mut slot, Err("connection refused".to_string())),
        Err(AppError::Database("connection refused".to_string()))
    );
    assert_eq!(get_conn(&slot), Ok(&"pool A".to_string()));
}

#[test]
fn the_default_page() {
    assert_eq!(default_limit(), Some(100));
    assert_eq!(PaginationQuery::new(), PaginationQuery { limit: Some(100), offset: None });
    assert_eq!(PaginationQuery::new().arguments(), (100, 0));
    assert_eq!(PaginationQuery { limit: None, offset: None }.arguments(), (100, 0));
}

#[test]
fn a_page_passes_its_numbers_through() {
    assert_eq!(PaginationQuery { limit: Some(25), offset: Some(50) }.arguments(), (25, 50));
    assert_eq!(PaginationQuery { limit: Some(0), offset: None }.arguments(), (0, 0));
    assert_eq!(PaginationQuery { limit: None, offset: Some(7) }.arguments(), (100, 7));
    assert_eq!(
        PaginationQuery { limit: Some(i64::MAX), offset: Some(i64::MAX) }.arguments(),
        (i64::MAX, i64::MAX)
    );
    assert_eq!(PaginationQuery { limit: Some(-1), offset: Some(-2) }.arguments(), (-1, -2));
}

#[test]
fn a_page_with_a_negative_number_breaks_the_contract() {
    assert!(PaginationQuery { limit: None, offset: None }.check());
    assert!(PaginationQuery { limit: Some(0), offset: Some(0) }.check());
    assert!(PaginationQuery { limit: Some(i64::MAX), offset: Some(i64::MAX) }.check());
    assert!(!PaginationQuery { limit: Some(-1), offset: None }.check());
    assert!(!PaginationQuery { limit: None, offset: Some(-1) }.check());
}

#[test]
fn the_values_of_a_user_by_column() {
    let usuario = row();
    assert_eq!(usuario.value_in(&"id".to_string()), Some(SqlValue::Integer(7)));
    assert_eq!(usuario.value_in(&"rut".to_string()), Some(t("11.111.111-1")));
    assert_eq!(usuario.value_in(&"cod_zona".to_string()), Some(t("RM")));
    assert_eq!(usuario.value_in(&"nivel_acceso".to_string()), Some(SqlValue::Integer(3)));
    assert_eq!(usuario.value_in(&"estatus".to_string()), Some(SqlValue::Integer(1)));
    assert_eq!(usuario.value_in(&"fecha_creacion".to_string()), None);
    assert_eq!(usuario.value_in(&"".to_string()), None);
    let empty = Usuario { cod_zona: None, nivel_acceso: None, cod_cliente: None, ..row() };
    assert_eq!(empty.value_in(&"cod_zona".to_string()), Some(SqlValue::Null));
    assert_eq!(empty.value_in(&"nivel_acceso".to_string()), Some(SqlValue::Null));
    assert_eq!(empty.value_in(&"cod_cliente".to_string()), Some(SqlValue::Null));
}

#[test]
fn the_repository_binds_the_values_of_a_create_in_bind_order() {
    let (st, values) = call_for(&users_table(), HandlerKind::Create, &row()).unwrap();
    assert_eq!(
        st.sql,
        "INSERT INTO usuarios (rut, nombre, ap_paterno, ap_materno, email, telefonos, cod_zona, nivel_acceso, cod_cliente, clave_acceso, estatus) VALUES (?, ?, ?, ?, ?, ?, ?, ?, ?, ?, ?)"
    );
    assert_eq!(
        values,
        vec![
            t("11.111.111-1"),
            t("Ana"),
            t("Rojas"),
            t("Soto"),
            t("ana@example.org"),
            t("+56 9 1111 1111"),
            t("RM"),
            SqlValue::Integer(3),
            SqlValue::Integer(9),
            t("x"),
            SqlValue::Integer(1),
        ]
    );
}

#[test]
fn the_repository_binds_the_key_of_an_update_last() {
    let (st, values) = call_for(&users_table(), HandlerKind::Update, &row()).unwrap();
    assert!(st.sql.ends_with(" WHERE id = ?"));
    assert_eq!(values.len(), 12);
    assert_eq!(values[0], t("11.111.111-1"));
    assert_eq!(values[10], SqlValue::Integer(1));
    assert_eq!(values[11], SqlValue::Integer(7));
}

#[test]
fn the_repository_binds_the_key_alone_for_a_delete_and_a_lookup() {
    let (st, values) = call_for(&users_table(), HandlerKind::Delete, &row()).unwrap();
    assert_eq!(st.sql, "DELETE FROM usuarios WHERE id = ?");
    assert_eq!(values, vec![SqlValue::Integer(7)]);
    let (st, values) = call_for(&users_table(), HandlerKind::FetchOne, &row()).unwrap();
    assert_eq!(st.sql, "SELECT * FROM usuarios WHERE id = ?");
    assert_eq!(values, vec![SqlValue::Integer(7)]);
}

#[test]
fn a_user_has_no_values_for_a_page_or_a_foreign_column() {
    assert_eq!(call_for(&users_table(), HandlerKind::FetchPage, &row()), None);
    assert_eq!(bound_values(&row(), &vec!["rut".to_string(), "edad".to_string()]), None);
    assert_eq!(bound_values(&row(), &vec![]), Some(vec![]));
    assert_eq!(
        bound_values(&row(), &vec!["estatus".to_string(), "id".to_string(), "id".to_string()]),
        Some(vec![SqlValue::Integer(1), SqlValue::Integer(7), SqlValue::Integer(7)])
    );
}

#[test]
fn the_table_of_the_service() {
    let table = gen_codigo::repository::service_table();
    assert_eq!(table.name(), users_table().name());
    assert_eq!(table.columns(), users_table().columns());
    assert_eq!(table.primary_key_position(), 0);
}

#[test]
fn the_calls_of_the_repository() {
    for (op, kind) in [
        (Operation::Create, HandlerKind::Create),
        (Operation::Update, HandlerKind::Update),
        (Operation::Delete, HandlerKind::Delete),
    ] {
        assert_eq!(Some(write_call(op, &row())), call_for(&users_table(), kind, &row()));
    }
    let (st, values) = write_call(Operation::Update, &Usuario { cod_zona: None, ..row() });
    assert_eq!(
        st.sql,
        "UPDATE usuarios SET rut = ?, nombre = ?, ap_paterno = ?, ap_materno = ?, email = ?, telefonos = ?, cod_zona = ?, nivel_acceso = ?, cod_cliente = ?, clave_acceso = ?, estatus = ? WHERE id = ?"
    );
    assert_eq!(values[6], SqlValue::Null);
    assert_eq!(values[11], SqlValue::Integer(7));

    let (st, values) = lookup_call(41);
    assert_eq!(st.sql, "SELECT * FROM usuarios WHERE id = ?");
    assert_eq!(values, vec![SqlValue::Integer(41)]);
    assert_eq!(lookup_call(u32::MAX).1, vec![SqlValue::Integer(4294967295)]);

    let (st, values) = page_call(&PaginationQuery { limit: Some(10), offset: None });
    assert_eq!(st.sql, "SELECT * FROM usuarios LIMIT ? OFFSET ?");
    assert_eq!(values, vec![SqlValue::Integer(10), SqlValue::Integer(0)]);
    assert_eq!(
        page_call(&PaginationQuery::new()).1,
        vec![SqlValue::Integer(100), SqlValue::Integer(0)]
    );
}

#[test]
fn saving_writes_an_update_for_a_known_key_and_an_insert_otherwise() {
    assert_eq!(save_call(Some(7), &row()), write_call(Operation::Update, &row()));
    assert_eq!(save_call(Some(99), &row()), write_call(Operation::Update, &row()));
    assert_eq!(save_call(None, &row()), write_call(Operation::Create, &row()));
    assert!(save_call(Some(7), &row()).0.sql.starts_with("UPDATE usuarios SET rut = ?"));
    assert!(save_call(None, &row()).0.sql.starts_with("INSERT INTO usuarios (rut, "));
    assert_eq!(save_call(Some(7), &row()).1.len(), 12);
    assert_eq!(save_call(None, &row()).1.len(), 11);
}

#[test]
fn deleting_binds_the_key_alone() {
    let (st, values) = delete_call(7);
    assert_eq!(st.sql, "DELETE FROM usuarios WHERE id = ?");
    assert_eq!(st.parameters, vec!["id"]);
    assert_eq!(values, vec![SqlValue::Integer(7)]);
    assert_eq!(delete_call(7), write_call(Operation::Delete, &row()));
    assert_eq!(delete_call(0).1, vec![SqlValue::Integer(0)]);
}

#[test]
fn a_connection_that_was_not_taken_is_a_database_error() {
    assert_eq!(gen_codigo::pool::connection(Ok::<u8, String>(3)), Ok(3));
    assert_eq!(
        gen_codigo::pool::connection::<u8>(Err("too many connections".to_string())),
        Err(AppError::Database("too many connections".to_string()))
    );
}
