//! What the users repository hands to storage: a statement of the users table
//! and the values of one user, in the order of the statement's parameters.

use vstd::prelude::*;
use vstd::string::*;
use crate::bind_order::{bind_order_of, lemma_set_places, set_names, set_places, Operation};
use crate::models::Usuario;
use crate::pagination::{limit_of, offset_of, PaginationQuery};
use crate::schema::{
    column_models, lemma_primary_key_index, lemma_single_primary_key, primary_key,
    primary_key_index, valid_columns, ColumnModel, ColumnSpec, SqlType, TableModel, TableSpec,
};
use crate::statement::{parameters_of, statement, statement_of, HandlerKind, Statement};
use crate::text::texts;

verus! {

/// A value bound to a placeholder.
#[derive(Clone, Debug, PartialEq, Eq)]
pub enum SqlValue {
    Null,
    Integer(i64),
    Text(String),
}

/// A bound value as a mathematical value.
pub enum SqlValueModel {
    Null,
    Integer(i64),
    Text(Seq<char>),
}

impl View for SqlValue {
    type V = SqlValueModel;

    open spec fn view(&self) -> SqlValueModel {
        match self {
            SqlValue::Null => SqlValueModel::Null,
            SqlValue::Integer(n) => SqlValueModel::Integer(*n),
            SqlValue::Text(value) => SqlValueModel::Text(value@),
        }
    }
}

/// The models of a list of bound values, in order.
pub open spec fn value_models(values: Seq<SqlValue>) -> Seq<SqlValueModel> {
    Seq::new(values.len(), |i: int| values[i]@)
}

/// A character string that may be missing, as a bound value.
pub open spec fn text_or_null(value: Option<String>) -> SqlValueModel {
    match value {
        Some(text) => SqlValueModel::Text(text@),
        None => SqlValueModel::Null,
    }
}

/// A number that may be missing, as a bound value.
pub open spec fn number_or_null(value: Option<u8>) -> SqlValueModel {
    match value {
        Some(n) => SqlValueModel::Integer(n as i64),
        None => SqlValueModel::Null,
    }
}

/// The value that a user has in the column of a given name; `None` where the
/// users table has no such column.
pub open spec fn value_of(usuario: Usuario, column: Seq<char>) -> Option<SqlValueModel> {
    if column == "id"@ {
        Some(SqlValueModel::Integer(usuario.id as i64))
    } else if column == "rut"@ {
        Some(SqlValueModel::Text(usuario.rut@))
    } else if column == "nombre"@ {
        Some(SqlValueModel::Text(usuario.nombre@))
    } else if column == "ap_paterno"@ {
        Some(SqlValueModel::Text(usuario.ap_paterno@))
    } else if column == "ap_materno"@ {
        Some(SqlValueModel::Text(usuario.ap_materno@))
    } else if column == "email"@ {
        Some(SqlValueModel::Text(usuario.email@))
    } else if column == "telefonos"@ {
        Some(SqlValueModel::Text(usuario.telefonos@))
    } else if column == "cod_zona"@ {
        Some(text_or_null(usuario.cod_zona))
    } else if column == "nivel_acceso"@ {
        Some(number_or_null(usuario.nivel_acceso))
    } else if column == "cod_cliente"@ {
        Some(number_or_null(usuario.cod_cliente))
    } else if column == "clave_acceso"@ {
        Some(SqlValueModel::Text(usuario.clave_acceso@))
    } else if column == "estatus"@ {
        Some(SqlValueModel::Integer(usuario.estatus as i64))
    } else {
        None
    }
}

fn is_named(column: &String, name: &str) -> (same: bool)
    ensures
        same == (column@ == name@),
{
    *column == String::from_str(name)
}

fn bound_text(value: &String) -> (bound: SqlValue)
    ensures
        bound@ == SqlValueModel::Text(value@),
{
    SqlValue::Text(value.clone())
}

fn bound_optional_text(value: &Option<String>) -> (bound: SqlValue)
    ensures
        bound@ == text_or_null(*value),
{
    match value {
        Some(text) => SqlValue::Text(text.clone()),
        None => SqlValue::Null,
    }
}

fn bound_optional_number(value: Option<u8>) -> (bound: SqlValue)
    ensures
        bound@ == number_or_null(value),
{
    match value {
        Some(n) => SqlValue::Integer(n as i64),
        None => SqlValue::Null,
    }
}

impl Usuario {
    /// The value that the user has in the column `column`.
    pub fn value_in(&self, column: &String) -> (value: Option<SqlValue>)
        ensures
            match value {
                Some(bound) => value_of(*self, column@) == Some(bound@),
                None => value_of(*self, column@) is None,
            },
    {
        if is_named(column, "id") {
            Some(SqlValue::Integer(self.id as i64))
        } else if is_named(column, "rut") {
            Some(bound_text(&self.rut))
        } else if is_named(column, "nombre") {
            Some(bound_text(&self.nombre))
        } else if is_named(column, "ap_paterno") {
            Some(bound_text(&self.ap_paterno))
        } else if is_named(column, "ap_materno") {
            Some(bound_text(&self.ap_materno))
        } else if is_named(column, "email") {
            Some(bound_text(&self.email))
        } else if is_named(column, "telefonos") {
            Some(bound_text(&self.telefonos))
        } else if is_named(column, "cod_zona") {
            Some(bound_optional_text(&self.cod_zona))
        } else if is_named(column, "nivel_acceso") {
            Some(bound_optional_number(self.nivel_acceso))
        } else if is_named(column, "cod_cliente") {
            Some(bound_optional_number(self.cod_cliente))
        } else if is_named(column, "clave_acceso") {
            Some(bound_text(&self.clave_acceso))
        } else if is_named(column, "estatus") {
            Some(SqlValue::Integer(self.estatus as i64))
        } else {
            None
        }
    }
}

/// `values` holds, place by place, the user's value in the column that
/// `parameters` names there.
pub open spec fn values_follow(
    usuario: Usuario,
    parameters: Seq<Seq<char>>,
    values: Seq<SqlValueModel>,
) -> bool {
    &&& values.len() == parameters.len()
    &&& forall|i: int|
        0 <= i < parameters.len() ==> value_of(usuario, parameters[i]) == Some(#[trigger] values[i])
}

/// Some parameter names no column of the users table.
pub open spec fn names_unknown_column(usuario: Usuario, parameters: Seq<Seq<char>>) -> bool {
    exists|i: int| 0 <= i < parameters.len() && value_of(usuario, #[trigger] parameters[i]) is None
}

/// The user's values for a list of parameters, in the order of the
/// parameters; `None` where a parameter names no column of the users table.
pub fn bound_values(usuario: &Usuario, parameters: &Vec<String>) -> (bound: Option<Vec<SqlValue>>)
    ensures
        match bound {
            Some(values) => values_follow(*usuario, texts(parameters@), value_models(values@)),
            None => names_unknown_column(*usuario, texts(parameters@)),
        },
{
    let ghost names = texts(parameters@);
    let mut values: Vec<SqlValue> = Vec::new();
    let mut i: usize = 0;
    while i < parameters.len()
        invariant
            i <= parameters.len(),
            names == texts(parameters@),
            values@.len() == i,
            forall|k: int|
                0 <= k < i ==> value_of(*usuario, names[k]) == Some((#[trigger] values@[k])@),
        decreases parameters.len() - i,
    {
        match usuario.value_in(&parameters[i]) {
            Some(value) => {
                values.push(value);
            },
            None => {
                assert(value_of(*usuario, names[i as int]) is None);
                return None;
            },
        }
        i = i + 1;
    }
    assert forall|k: int| 0 <= k < names.len() implies value_of(*usuario, names[k]) == Some(
        #[trigger] value_models(values@)[k],
    ) by {
        assert(value_models(values@)[k] == values@[k]@);
    }
    Some(values)
}

/// The statement of one operation on the users table together with the values
/// of `usuario` that it binds, in bind order. `None` where the statement has a
/// parameter that is no column of the users table.
pub fn call_for(table: &TableSpec, kind: HandlerKind, usuario: &Usuario) -> (call: Option<
    (Statement, Vec<SqlValue>),
>)
    ensures
        match call {
            Some((st, values)) => st@ == statement_of(table@, kind) && values_follow(
                *usuario,
                statement_of(table@, kind).parameters,
                value_models(values@),
            ),
            None => names_unknown_column(*usuario, statement_of(table@, kind).parameters),
        },
{
    let st = statement(table, kind);
    match bound_values(usuario, &st.parameters) {
        Some(values) => Some((st, values)),
        None => None,
    }
}

/// A column of the service's table that is not its key.
pub open spec fn service_column(name: Seq<char>, sql_type: SqlType, nullable: bool) -> ColumnModel {
    ColumnModel {
        name,
        sql_type,
        nullable,
        max_length: None,
        is_primary_key: false,
        has_server_default: false,
    }
}

/// The columns of the users table as the service stores it. Storage counts
/// the key up by itself.
pub open spec fn service_columns() -> Seq<ColumnModel> {
    seq![
        ColumnModel {
            is_primary_key: true,
            has_server_default: true,
            ..service_column("id"@, SqlType::Integer, false)
        },
        service_column("rut"@, SqlType::Text, false),
        service_column("nombre"@, SqlType::Text, false),
        service_column("ap_paterno"@, SqlType::Text, false),
        service_column("ap_materno"@, SqlType::Text, false),
        service_column("email"@, SqlType::Text, false),
        service_column("telefonos"@, SqlType::Text, false),
        service_column("cod_zona"@, SqlType::Text, true),
        service_column("nivel_acceso"@, SqlType::Integer, true),
        service_column("cod_cliente"@, SqlType::Integer, true),
        service_column("clave_acceso"@, SqlType::Text, false),
        service_column("estatus"@, SqlType::Integer, false),
    ]
}

/// The users table as the service stores it.
pub open spec fn service_model() -> TableModel {
    TableModel { name: "usuarios"@, columns: service_columns() }
}

proof fn reveal_columns()
    ensures
        "id"@ == seq!['i', 'd'],
        "rut"@ == seq!['r', 'u', 't'],
        "nombre"@ == seq!['n', 'o', 'm', 'b', 'r', 'e'],
        "ap_paterno"@ == seq!['a', 'p', '_', 'p', 'a', 't', 'e', 'r', 'n', 'o'],
        "ap_materno"@ == seq!['a', 'p', '_', 'm', 'a', 't', 'e', 'r', 'n', 'o'],
        "email"@ == seq!['e', 'm', 'a', 'i', 'l'],
        "telefonos"@ == seq!['t', 'e', 'l', 'e', 'f', 'o', 'n', 'o', 's'],
        "cod_zona"@ == seq!['c', 'o', 'd', '_', 'z', 'o', 'n', 'a'],
        "nivel_acceso"@ == seq!['n', 'i', 'v', 'e', 'l', '_', 'a', 'c', 'c', 'e', 's', 'o'],
        "cod_cliente"@ == seq!['c', 'o', 'd', '_', 'c', 'l', 'i', 'e', 'n', 't', 'e'],
        "clave_acceso"@ == seq!['c', 'l', 'a', 'v', 'e', '_', 'a', 'c', 'c', 'e', 's', 'o'],
        "estatus"@ == seq!['e', 's', 't', 'a', 't', 'u', 's'],
{
    reveal_strlit("id");
    reveal_strlit("rut");
    reveal_strlit("nombre");
    reveal_strlit("ap_paterno");
    reveal_strlit("ap_materno");
    reveal_strlit("email");
    reveal_strlit("telefonos");
    reveal_strlit("cod_zona");
    reveal_strlit("nivel_acceso");
    reveal_strlit("cod_cliente");
    reveal_strlit("clave_acceso");
    reveal_strlit("estatus");
}

/// The service's table keeps every rule of a schema; its key is its first
/// column.
pub proof fn lemma_service_table_is_valid()
    ensures
        valid_columns(service_columns()),
        primary_key_index(service_columns()) == 0,
{
    reveal_columns();
    let cols = service_columns();
    assert forall|i: int, j: int| 0 <= i < j < cols.len() implies cols[i].name != cols[j].name by {
        assert(cols[i].name.len() != cols[j].name.len() || cols[i].name[0] != cols[j].name[0]
            || cols[i].name[3] != cols[j].name[3] || cols[i].name[4] != cols[j].name[4]);
    }
    lemma_single_primary_key(cols, 0);
}

/// The users table as the service stores it.
pub fn service_table() -> (table: TableSpec)
    ensures
        table@ == service_model(),
{
    let mut columns: Vec<ColumnSpec> = Vec::new();
    columns.push(ColumnSpec::new("id", SqlType::Integer).primary_key().server_default());
    columns.push(ColumnSpec::new("rut", SqlType::Text));
    columns.push(ColumnSpec::new("nombre", SqlType::Text));
    columns.push(ColumnSpec::new("ap_paterno", SqlType::Text));
    columns.push(ColumnSpec::new("ap_materno", SqlType::Text));
    columns.push(ColumnSpec::new("email", SqlType::Text));
    columns.push(ColumnSpec::new("telefonos", SqlType::Text));
    columns.push(ColumnSpec::new("cod_zona", SqlType::Text).nullable());
    columns.push(ColumnSpec::new("nivel_acceso", SqlType::Integer).nullable());
    columns.push(ColumnSpec::new("cod_cliente", SqlType::Integer).nullable());
    columns.push(ColumnSpec::new("clave_acceso", SqlType::Text));
    columns.push(ColumnSpec::new("estatus", SqlType::Integer));
    proof {
        assert(column_models(columns@) == service_columns());
        lemma_service_table_is_valid();
    }
    TableSpec::from_checked(String::from_str("usuarios"), columns)
}

/// The handler that carries out a writing operation.
pub open spec fn kind_of(op: Operation) -> HandlerKind {
    match op {
        Operation::Create => HandlerKind::Create,
        Operation::Update => HandlerKind::Update,
        Operation::Delete => HandlerKind::Delete,
    }
}

/// A user has a value for every parameter of the statements that write to
/// the service's table, and for the parameter of a lookup.
pub proof fn lemma_service_parameters_are_columns(usuario: Usuario, kind: HandlerKind)
    requires
        kind != HandlerKind::FetchPage,
    ensures
        !names_unknown_column(usuario, parameters_of(service_model(), kind)),
{
    lemma_service_table_is_valid();
    let cols = service_columns();
    lemma_primary_key_index(cols);
    assert forall|k: int| 0 <= k < cols.len() implies value_of(usuario, #[trigger] cols[k].name)
        is Some by {}
    let parameters = parameters_of(service_model(), kind);
    let op = match kind {
        HandlerKind::Create => Operation::Create,
        HandlerKind::Update => Operation::Update,
        _ => Operation::Delete,
    };
    lemma_set_places(cols, op);
    assert forall|i: int| 0 <= i < parameters.len() implies value_of(
        usuario,
        #[trigger] parameters[i],
    ) is Some by {
        if i < set_names(cols, op).len() && kind != HandlerKind::FetchOne {
            assert(parameters[i] == cols[set_places(cols, op)[i]].name);
        }
    }
}

/// The statement that writes a user to the service's table, and the user's
/// values in the order of its parameters.
pub fn write_call(op: Operation, usuario: &Usuario) -> (call: (Statement, Vec<SqlValue>))
    ensures
        call.0@ == statement_of(service_model(), kind_of(op)),
        values_follow(
            *usuario,
            bind_order_of(service_columns(), op),
            value_models(call.1@),
        ),
{
    let kind = match op {
        Operation::Create => HandlerKind::Create,
        Operation::Update => HandlerKind::Update,
        Operation::Delete => HandlerKind::Delete,
    };
    let table = service_table();
    proof {
        lemma_service_parameters_are_columns(*usuario, kind);
    }
    match call_for(&table, kind, usuario) {
        Some(call) => call,
        None => vstd::pervasive::unreached(),
    }
}

/// The operation that saves a user: an update where a row with the user's key
/// exists, a create where none does.
pub open spec fn saving_operation(existing: Option<u32>) -> Operation {
    if existing is Some {
        Operation::Update
    } else {
        Operation::Create
    }
}

/// The statement that saves a user, and the user's values in the order of its
/// parameters. `existing` is the key that a lookup of the user found.
pub fn save_call(existing: Option<u32>, usuario: &Usuario) -> (call: (Statement, Vec<SqlValue>))
    ensures
        call.0@ == statement_of(service_model(), kind_of(saving_operation(existing))),
        values_follow(
            *usuario,
            bind_order_of(service_columns(), saving_operation(existing)),
            value_models(call.1@),
        ),
{
    match existing {
        Some(_) => write_call(Operation::Update, usuario),
        None => write_call(Operation::Create, usuario),
    }
}

/// The statement that looks a user up by key, with the key as its one value.
pub fn lookup_call(id: u32) -> (call: (Statement, Vec<SqlValue>))
    ensures
        call.0@ == statement_of(service_model(), HandlerKind::FetchOne),
        value_models(call.1@) == seq![SqlValueModel::Integer(id as i64)],
{
    let st = statement(&service_table(), HandlerKind::FetchOne);
    let mut values: Vec<SqlValue> = Vec::new();
    values.push(SqlValue::Integer(id as i64));
    (st, values)
}

/// The statement that deletes the user with a given key, with the key as its
/// one value.
pub fn delete_call(id: u32) -> (call: (Statement, Vec<SqlValue>))
    ensures
        call.0@ == statement_of(service_model(), HandlerKind::Delete),
        value_models(call.1@) == seq![SqlValueModel::Integer(id as i64)],
{
    let st = statement(&service_table(), HandlerKind::Delete);
    let mut values: Vec<SqlValue> = Vec::new();
    values.push(SqlValue::Integer(id as i64));
    (st, values)
}

/// The statement that lists a page of users, with the limit and the offset of
/// `query` as its values.
pub fn page_call(query: &PaginationQuery) -> (call: (Statement, Vec<SqlValue>))
    ensures
        call.0@ == statement_of(service_model(), HandlerKind::FetchPage),
        value_models(call.1@) == seq![
            SqlValueModel::Integer(limit_of(*query)),
            SqlValueModel::Integer(offset_of(*query)),
        ],
{
    let st = statement(&service_table(), HandlerKind::FetchPage);
    let (limit, offset) = query.arguments();
    let mut values: Vec<SqlValue> = Vec::new();
    values.push(SqlValue::Integer(limit));
    values.push(SqlValue::Integer(offset));
    assert(value_models(values@) == seq![
        SqlValueModel::Integer(limit_of(*query)),
        SqlValueModel::Integer(offset_of(*query)),
    ]);
    (st, values)
}

} // verus!
