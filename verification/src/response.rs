//! The envelope in which the users service answers: the data, a code that is
//! 0 for success and 1 for failure, and a message.

use vstd::prelude::*;
use vstd::string::*;
use crate::error::{status_of, AppError, AppErrorModel};
use crate::models::Usuario;
use crate::statement::HandlerKind;

verus! {

/// An answer without data.
#[derive(Debug, Clone, PartialEq, Eq)]
pub struct BasicResponse {
    pub cod_err: u8,
    pub msg_err: String,
}

/// An answer with one user, or none.
#[derive(Debug, Clone, PartialEq, Eq)]
pub struct UsuarioResponse {
    pub datos: Option<Usuario>,
    pub cod_err: u8,
    pub msg_err: String,
}

/// An answer with a list of users.
#[derive(Debug, Clone, PartialEq, Eq)]
pub struct UsuariosListResponse {
    pub datos: Vec<Usuario>,
    pub cod_err: u8,
    pub msg_err: String,
}

/// The answer to a request that was carried out.
pub fn ok_response() -> (response: BasicResponse)
    ensures
        response.cod_err == 0,
        response.msg_err@ == "OK"@,
{
    BasicResponse { cod_err: 0, msg_err: String::from_str("OK") }
}

/// The answer to a lookup: the user with code 0, or no user with code 1.
pub fn usuario_response(found: Option<Usuario>) -> (response: UsuarioResponse)
    ensures
        response.datos == found,
        found is Some ==> response.cod_err == 0 && response.msg_err@ == "OK"@,
        found is None ==> response.cod_err == 1 && response.msg_err@ == "Usuario no encontrado"@,
{
    match found {
        Some(usuario) => UsuarioResponse {
            datos: Some(usuario),
            cod_err: 0,
            msg_err: String::from_str("OK"),
        },
        None => UsuarioResponse {
            datos: None,
            cod_err: 1,
            msg_err: String::from_str("Usuario no encontrado"),
        },
    }
}

/// The answer to a listing: the rows as they came, with code 0.
pub fn usuarios_response(rows: Vec<Usuario>) -> (response: UsuariosListResponse)
    ensures
        response.datos == rows,
        response.cod_err == 0,
        response.msg_err@ == "OK"@,
{
    UsuariosListResponse { datos: rows, cod_err: 0, msg_err: String::from_str("OK") }
}

/// The answer to a delete: code 0 where a row was deleted, code 1 where none
/// had the key.
pub fn delete_response(rows_affected: u64) -> (response: BasicResponse)
    ensures
        rows_affected > 0 ==> response.cod_err == 0 && response.msg_err@ == "OK"@,
        rows_affected == 0 ==> response.cod_err == 1 && response.msg_err@
            == "Usuario no encontrado"@,
{
    if rows_affected > 0 {
        ok_response()
    } else {
        BasicResponse { cod_err: 1, msg_err: String::from_str("Usuario no encontrado") }
    }
}

/// What saving a user does: it updates the row where one with the user's key
/// exists, and creates a row otherwise. `existing` is the key that the lookup
/// found.
pub fn upsert_kind(existing: Option<u32>) -> (kind: HandlerKind)
    ensures
        kind == (if existing is Some {
            HandlerKind::Update
        } else {
            HandlerKind::Create
        }),
{
    match existing {
        Some(_) => HandlerKind::Update,
        None => HandlerKind::Create,
    }
}

/// The message of the envelope for an error. None shows the error's own text.
pub open spec fn envelope_text(e: AppErrorModel) -> Seq<char> {
    match e {
        AppErrorModel::Database(_) => "Database error"@,
        AppErrorModel::Config(_) => "Configuration error"@,
        AppErrorModel::NotFound => "Not found"@,
        AppErrorModel::Validation(_) => "Invalid JSON"@,
        AppErrorModel::Internal(_) => "Internal server error"@,
    }
}

/// The HTTP status and the envelope for an error: the code is always 1.
pub fn error_envelope(e: &AppError) -> (answer: (u16, BasicResponse))
    ensures
        answer.0 == status_of(e@),
        answer.1.cod_err == 1,
        answer.1.msg_err@ == envelope_text(e@),
{
    let msg_err = match e {
        AppError::Database(_) => String::from_str("Database error"),
        AppError::Config(_) => String::from_str("Configuration error"),
        AppError::NotFound => String::from_str("Not found"),
        AppError::Validation(_) => String::from_str("Invalid JSON"),
        AppError::Internal(_) => String::from_str("Internal server error"),
    };
    (e.status_code(), BasicResponse { cod_err: 1, msg_err })
}

} // verus!
