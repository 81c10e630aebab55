//! The types that the generator makes for the users table, as Rust values:
//! the entity, and the two inputs as the rules of validation see them.

use vstd::prelude::*;
use vstd::string::*;
use crate::generate::{artifacts_of, generate_for, lemma_generation_succeeds, Artifacts};
use crate::handler::first_mismatch;
use crate::naming::{has_wire_collision, is_snake_case};
use crate::render::{map_table, mapped_of};
use crate::schema::{
    column_models, lemma_single_primary_key, primary_key_index, valid_columns, ColumnModel,
    ColumnSpec, SqlType, TableModel, TableSpec,
};
use crate::validation::{
    failed_models, input_models, validate, violations_of, FieldInput, FieldInputModel,
    ValidationFailed,
};

verus! {

/// `chrono::NaiveDateTime`: a date with a time of day, without a time zone.
/// Nothing inside it is looked at here; values are only carried.
#[verifier::external_type_specification]
#[verifier::external_body]
pub struct ExNaiveDateTime(chrono::NaiveDateTime);

/// `Clone::clone` of `chrono::NaiveDateTime`, a `Copy` type whose `Clone` is
/// derived: the clone is the value itself. Assumed, not proved.
pub assume_specification[ <chrono::NaiveDateTime as Clone>::clone ](
    moment: &chrono::NaiveDateTime,
) -> (copy: chrono::NaiveDateTime)
    ensures
        copy == *moment,
;

/// A column of the users table that is not its key.
pub open spec fn users_column(
    name: Seq<char>,
    sql_type: SqlType,
    nullable: bool,
    max_length: Option<u32>,
) -> ColumnModel {
    ColumnModel {
        name,
        sql_type,
        nullable,
        max_length,
        is_primary_key: false,
        has_server_default: false,
    }
}

/// The columns of the users table. The caller supplies every value.
pub open spec fn usuarios_columns() -> Seq<ColumnModel> {
    seq![
        ColumnModel { is_primary_key: true, ..users_column("id"@, SqlType::Integer, false, None) },
        users_column("rut"@, SqlType::Text, false, Some(12u32)),
        users_column("nombre"@, SqlType::Text, false, Some(50u32)),
        users_column("ap_paterno"@, SqlType::Text, false, Some(50u32)),
        users_column("ap_materno"@, SqlType::Text, true, Some(50u32)),
        users_column("email"@, SqlType::Text, true, Some(100u32)),
        users_column("telefonos"@, SqlType::Text, true, Some(100u32)),
        users_column("cod_zona"@, SqlType::Text, true, Some(6u32)),
        users_column("nivel_acceso"@, SqlType::Integer, true, None),
        users_column("cod_cliente"@, SqlType::Integer, true, None),
        users_column("clave_acceso"@, SqlType::Text, true, Some(100u32)),
        users_column("estatus"@, SqlType::Integer, true, None),
        users_column("fecha_creacion"@, SqlType::DateTime, false, None),
        users_column("fecha_actualizacion"@, SqlType::DateTime, false, None),
    ]
}

/// The users table.
pub open spec fn usuarios_model() -> TableModel {
    TableModel { name: "usuarios"@, columns: usuarios_columns() }
}

proof fn reveal_names()
    ensures
        "usuarios"@.len() == 8,
        "id"@ == seq!['i', 'd'],
        "rut"@ == seq!['r', 'u', 't'],
        "nombre"@ == seq!['n', 'o', 'm', 'b', 'r', 'e'],
        "ap_paterno"@ == seq!['a', 'p', '_', 'p', 'a', 't', 'e', 'r', 'n', 'o'],
        "ap_materno"@ == seq!['a', 'p', '_', 'm', 'a', 't', 'e', 'r', 'n', 'o'],
        "email"@ == seq!['e', 'm', 'a', 'i', 'l'],
        "telefonos"@ == seq!['t', 'e', 'l', 'e', 'f', 'o', 'n', 'o', 's'],
        "cod_zona"@ == seq!['c', 'o', 'd', '_', 'z', 'o', 'n', 'a'],
        "nivel_acceso"@ == seq!['n', 'i', 'v', 'e', 'l', '_', 'a', 'c', 'c', 'e', 's', 'o'],
        "cod_cliente"@ == seq!['c', 'o', 'd', '_', 'c', 'l', 'i', 'e', 'n', 't', 'e'],
        "clave_acceso"@ == seq!['c', 'l', 'a', 'v', 'e', '_', 'a', 'c', 'c', 'e', 's', 'o'],
        "estatus"@ == seq!['e', 's', 't', 'a', 't', 'u', 's'],
        "fecha_creacion"@ == seq![
            'f',
            'e',
            'c',
            'h',
            'a',
            '_',
            'c',
            'r',
            'e',
            'a',
            'c',
            'i',
            'o',
            'n',
        ],
        "fecha_actualizacion"@ == seq![
            'f',
            'e',
            'c',
            'h',
            'a',
            '_',
            'a',
            'c',
            't',
            'u',
            'a',
            'l',
            'i',
            'z',
            'a',
            'c',
            'i',
            'o',
            'n',
        ],
{
    reveal_strlit("usuarios");
    reveal_strlit("id");
    reveal_strlit("rut");
    reveal_strlit("nombre");
    reveal_strlit("ap_paterno");
    reveal_strlit("ap_materno");
    reveal_strlit("email");
    reveal_strlit("telefonos");
    reveal_strlit("cod_zona");
    reveal_strlit("nivel_acceso");
    reveal_strlit("cod_cliente");
    reveal_strlit("clave_acceso");
    reveal_strlit("estatus");
    reveal_strlit("fecha_creacion");
    reveal_strlit("fecha_actualizacion");
}

/// The users table keeps every rule of a schema; its key is its first column.
pub proof fn lemma_usuarios_is_valid()
    ensures
        valid_columns(usuarios_columns()),
        primary_key_index(usuarios_columns()) == 0,
{
    reveal_names();
    let cols = usuarios_columns();
    assert forall|i: int, j: int| 0 <= i < j < cols.len() implies cols[i].name != cols[j].name by {
        assert(cols[i].name.len() != cols[j].name.len() || cols[i].name[0] != cols[j].name[0]
            || cols[i].name[3] != cols[j].name[3] || cols[i].name[4] != cols[j].name[4]);
    }
    lemma_single_primary_key(cols, 0);
}

/// The users table, with the columns of `usuarios_columns`.
pub fn usuarios_table() -> (table: TableSpec)
    ensures
        table@ == usuarios_model(),
{
    let mut columns: Vec<ColumnSpec> = Vec::new();
    columns.push(ColumnSpec::new("id", SqlType::Integer).primary_key());
    columns.push(ColumnSpec::new("rut", SqlType::Text).with_max_length(12));
    columns.push(ColumnSpec::new("nombre", SqlType::Text).with_max_length(50));
    columns.push(ColumnSpec::new("ap_paterno", SqlType::Text).with_max_length(50));
    columns.push(ColumnSpec::new("ap_materno", SqlType::Text).nullable().with_max_length(50));
    columns.push(ColumnSpec::new("email", SqlType::Text).nullable().with_max_length(100));
    columns.push(ColumnSpec::new("telefonos", SqlType::Text).nullable().with_max_length(100));
    columns.push(ColumnSpec::new("cod_zona", SqlType::Text).nullable().with_max_length(6));
    columns.push(ColumnSpec::new("nivel_acceso", SqlType::Integer).nullable());
    columns.push(ColumnSpec::new("cod_cliente", SqlType::Integer).nullable());
    columns.push(ColumnSpec::new("clave_acceso", SqlType::Text).nullable().with_max_length(100));
    columns.push(ColumnSpec::new("estatus", SqlType::Integer).nullable());
    columns.push(ColumnSpec::new("fecha_creacion", SqlType::DateTime));
    columns.push(ColumnSpec::new("fecha_actualizacion", SqlType::DateTime));
    proof {
        assert(column_models(columns@) == usuarios_columns());
        lemma_usuarios_is_valid();
    }
    TableSpec::from_checked(String::from_str("usuarios"), columns)
}

/// Generating for the users table succeeds: no two of its columns share a
/// wire name, and each of its statements has as many placeholders as
/// parameters.
pub proof fn lemma_usuarios_generates()
    ensures
        !has_wire_collision(usuarios_columns()),
        first_mismatch(usuarios_model()) is None,
{
    reveal_names();
    lemma_usuarios_is_valid();
    let t = usuarios_model();
    assert(!t.name.contains('?')) by {
        reveal_strlit("usuarios");
    }
    assert forall|i: int| 0 <= i < t.columns.len() implies is_snake_case(
        #[trigger] t.columns[i].name,
    ) && !t.columns[i].name.contains('?') by {}
    lemma_generation_succeeds(t);
}

/// The artifacts of the users table. Generating them cannot fail.
pub fn usuarios_artifacts() -> (artifacts: Artifacts)
    ensures
        artifacts@ == artifacts_of(usuarios_model()),
{
    let table = usuarios_table();
    proof {
        lemma_usuarios_generates();
    }
    match generate_for(&table) {
        Ok(artifacts) => artifacts,
        Err(_) => vstd::pervasive::unreached(),
    }
}

/// One row of the users table.
#[derive(Debug, Clone)]
pub struct Usuarios {
    pub id: i32,
    pub rut: String,
    pub nombre: String,
    pub ap_paterno: String,
    pub ap_materno: Option<String>,
    pub email: Option<String>,
    pub telefonos: Option<String>,
    pub cod_zona: Option<String>,
    pub nivel_acceso: Option<i32>,
    pub cod_cliente: Option<i32>,
    pub clave_acceso: Option<String>,
    pub estatus: Option<i32>,
    pub fecha_creacion: chrono::NaiveDateTime,
    pub fecha_actualizacion: chrono::NaiveDateTime,
}

impl Usuarios {
    /// Makes a row of its values, given in the order of the columns.
    pub fn new(
        id: i32,
        rut: String,
        nombre: String,
        ap_paterno: String,
        ap_materno: Option<String>,
        email: Option<String>,
        telefonos: Option<String>,
        cod_zona: Option<String>,
        nivel_acceso: Option<i32>,
        cod_cliente: Option<i32>,
        clave_acceso: Option<String>,
        estatus: Option<i32>,
        fecha_creacion: chrono::NaiveDateTime,
        fecha_actualizacion: chrono::NaiveDateTime,
    ) -> (row: Self)
        ensures
            row == (Usuarios {
                id,
                rut,
                nombre,
                ap_paterno,
                ap_materno,
                email,
                telefonos,
                cod_zona,
                nivel_acceso,
                cod_cliente,
                clave_acceso,
                estatus,
                fecha_creacion,
                fecha_actualizacion,
            }),
    {
        Self {
            id: id,
            rut: rut,
            nombre: nombre,
            ap_paterno: ap_paterno,
            ap_materno: ap_materno,
            email: email,
            telefonos: telefonos,
            cod_zona: cod_zona,
            nivel_acceso: nivel_acceso,
            cod_cliente: cod_cliente,
            clave_acceso: clave_acceso,
            estatus: estatus,
            fecha_creacion: fecha_creacion,
            fecha_actualizacion: fecha_actualizacion,
        }
    }
}

/// What an input says of a field that may be left out and may be null: the
/// two ways of being missing are told apart.
#[derive(Debug, Clone, PartialEq, Eq)]
pub enum Patch<T> {
    /// The input does not name the field: leave it as it is.
    Absent,
    /// The input sets the field to null: empty it.
    SetToNull,
    /// The input gives a value.
    SetTo(T),
}

/// How validation sees a character string that may be missing.
pub open spec fn text_input(patch: Patch<String>) -> FieldInputModel {
    match patch {
        Patch::Absent => FieldInputModel::Absent,
        Patch::SetToNull => FieldInputModel::Null,
        Patch::SetTo(value) => FieldInputModel::Text(value@),
    }
}

/// How validation sees a number that may be missing.
pub open spec fn number_input(patch: Patch<i32>) -> FieldInputModel {
    match patch {
        Patch::Absent => FieldInputModel::Absent,
        Patch::SetToNull => FieldInputModel::Null,
        Patch::SetTo(_) => FieldInputModel::Other,
    }
}

fn input_of_text(patch: &Patch<String>) -> (input: FieldInput)
    ensures
        input@ == text_input(*patch),
{
    match patch {
        Patch::Absent => FieldInput::Absent,
        Patch::SetToNull => FieldInput::Null,
        Patch::SetTo(value) => FieldInput::Text(value.clone()),
    }
}

fn input_of_number(patch: &Patch<i32>) -> (input: FieldInput)
    ensures
        input@ == number_input(*patch),
{
    match patch {
        Patch::Absent => FieldInput::Absent,
        Patch::SetToNull => FieldInput::Null,
        Patch::SetTo(_) => FieldInput::Other,
    }
}

/// The input of a create.
#[derive(Debug, Clone)]
pub struct UsuariosCreateCreate {
    pub id: i32,
    pub rut: String,
    pub nombre: String,
    pub ap_paterno: String,
    pub ap_materno: Patch<String>,
    pub email: Patch<String>,
    pub telefonos: Patch<String>,
    pub cod_zona: Patch<String>,
    pub nivel_acceso: Patch<i32>,
    pub cod_cliente: Patch<i32>,
    pub clave_acceso: Patch<String>,
    pub estatus: Patch<i32>,
    pub fecha_creacion: chrono::NaiveDateTime,
    pub fecha_actualizacion: chrono::NaiveDateTime,
}

/// The input of an update.
#[derive(Debug, Clone)]
pub struct UsuariosUpdateUpdate {
    pub id: i32,
    pub rut: String,
    pub nombre: String,
    pub ap_paterno: String,
    pub ap_materno: Patch<String>,
    pub email: Patch<String>,
    pub telefonos: Patch<String>,
    pub cod_zona: Patch<String>,
    pub nivel_acceso: Patch<i32>,
    pub cod_cliente: Patch<i32>,
    pub clave_acceso: Patch<String>,
    pub estatus: Patch<i32>,
    pub fecha_creacion: chrono::NaiveDateTime,
    pub fecha_actualizacion: chrono::NaiveDateTime,
}

/// The inputs of the fourteen columns of the users table, in canonical order.
pub open spec fn record_of(
    rut: String,
    nombre: String,
    ap_paterno: String,
    ap_materno: Patch<String>,
    email: Patch<String>,
    telefonos: Patch<String>,
    cod_zona: Patch<String>,
    nivel_acceso: Patch<i32>,
    cod_cliente: Patch<i32>,
    clave_acceso: Patch<String>,
    estatus: Patch<i32>,
) -> Seq<FieldInputModel> {
    seq![
        FieldInputModel::Other,
        FieldInputModel::Text(rut@),
        FieldInputModel::Text(nombre@),
        FieldInputModel::Text(ap_paterno@),
        text_input(ap_materno),
        text_input(email),
        text_input(telefonos),
        text_input(cod_zona),
        number_input(nivel_acceso),
        number_input(cod_cliente),
        text_input(clave_acceso),
        number_input(estatus),
        FieldInputModel::Other,
        FieldInputModel::Other,
    ]
}

fn record_from(
    rut: &String,
    nombre: &String,
    ap_paterno: &String,
    ap_materno: &Patch<String>,
    email: &Patch<String>,
    telefonos: &Patch<String>,
    cod_zona: &Patch<String>,
    nivel_acceso: &Patch<i32>,
    cod_cliente: &Patch<i32>,
    clave_acceso: &Patch<String>,
    estatus: &Patch<i32>,
) -> (record: Vec<FieldInput>)
    ensures
        input_models(record@) == record_of(
            *rut,
            *nombre,
            *ap_paterno,
            *ap_materno,
            *email,
            *telefonos,
            *cod_zona,
            *nivel_acceso,
            *cod_cliente,
            *clave_acceso,
            *estatus,
        ),
{
    let mut record: Vec<FieldInput> = Vec::new();
    record.push(FieldInput::Other);
    record.push(FieldInput::Text(rut.clone()));
    record.push(FieldInput::Text(nombre.clone()));
    record.push(FieldInput::Text(ap_paterno.clone()));
    record.push(input_of_text(ap_materno));
    record.push(input_of_text(email));
    record.push(input_of_text(telefonos));
    record.push(input_of_text(cod_zona));
    record.push(input_of_number(nivel_acceso));
    record.push(input_of_number(cod_cliente));
    record.push(input_of_text(clave_acceso));
    record.push(input_of_number(estatus));
    record.push(FieldInput::Other);
    record.push(FieldInput::Other);
    record
}

impl UsuariosCreateCreate {
    /// Runs the rules of the users table against the input and collects all
    /// that it breaks.
    pub fn validate(&self) -> (failed: Vec<ValidationFailed>)
        ensures
            failed_models(failed@) == violations_of(
                mapped_of(usuarios_columns()),
                record_of(
                    self.rut,
                    self.nombre,
                    self.ap_paterno,
                    self.ap_materno,
                    self.email,
                    self.telefonos,
                    self.cod_zona,
                    self.nivel_acceso,
                    self.cod_cliente,
                    self.clave_acceso,
                    self.estatus,
                ),
            ),
    {
        validate(&map_table(&usuarios_table()), &self.record())
    }

    /// The input as validation sees it: one entry per column, in canonical
    /// order.
    pub fn record(&self) -> (record: Vec<FieldInput>)
        ensures
            input_models(record@) == record_of(
                self.rut,
                self.nombre,
                self.ap_paterno,
                self.ap_materno,
                self.email,
                self.telefonos,
                self.cod_zona,
                self.nivel_acceso,
                self.cod_cliente,
                self.clave_acceso,
                self.estatus,
            ),
    {
        record_from(
            &self.rut,
            &self.nombre,
            &self.ap_paterno,
            &self.ap_materno,
            &self.email,
            &self.telefonos,
            &self.cod_zona,
            &self.nivel_acceso,
            &self.cod_cliente,
            &self.clave_acceso,
            &self.estatus,
        )
    }
}

impl UsuariosUpdateUpdate {
    /// Runs the rules of the users table against the input and collects all
    /// that it breaks.
    pub fn validate(&self) -> (failed: Vec<ValidationFailed>)
        ensures
            failed_models(failed@) == violations_of(
                mapped_of(usuarios_columns()),
                record_of(
                    self.rut,
                    self.nombre,
                    self.ap_paterno,
                    self.ap_materno,
                    self.email,
                    self.telefonos,
                    self.cod_zona,
                    self.nivel_acceso,
                    self.cod_cliente,
                    self.clave_acceso,
                    self.estatus,
                ),
            ),
    {
        validate(&map_table(&usuarios_table()), &self.record())
    }

    /// The input as validation sees it: one entry per column, in canonical
    /// order.
    pub fn record(&self) -> (record: Vec<FieldInput>)
        ensures
            input_models(record@) == record_of(
                self.rut,
                self.nombre,
                self.ap_paterno,
                self.ap_materno,
                self.email,
                self.telefonos,
                self.cod_zona,
                self.nivel_acceso,
                self.cod_cliente,
                self.clave_acceso,
                self.estatus,
            ),
    {
        record_from(
            &self.rut,
            &self.nombre,
            &self.ap_paterno,
            &self.ap_materno,
            &self.email,
            &self.telefonos,
            &self.cod_zona,
            &self.nivel_acceso,
            &self.cod_cliente,
            &self.clave_acceso,
            &self.estatus,
        )
    }
}

} // verus!
