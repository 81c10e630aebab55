//! What the routes of the users service decide once the repository has
//! answered, and what they hand to it.

use vstd::prelude::*;
use crate::error::{AppError, AppErrorModel};
use crate::models::{row_of, Usuario, UsuarioInput};

verus! {

/// The HTTP status of a request that succeeded.
#[derive(Clone, Copy, Debug, PartialEq, Eq, Structural)]
pub enum Success {
    /// 200, with a body.
    Found,
    /// 201, without a body.
    Created,
    /// 204, without a body.
    NoContent,
}

impl Success {
    /// The number of the status.
    pub open spec fn code(self) -> u16 {
        match self {
            Success::Found => 200,
            Success::Created => 201,
            Success::NoContent => 204,
        }
    }

    /// The number of the status, as HTTP writes it.
    pub fn status_code(self) -> (status: u16)
        ensures
            status == self.code(),
    {
        match self {
            Success::Found => 200,
            Success::Created => 201,
            Success::NoContent => 204,
        }
    }
}

/// The routes of the service.
#[derive(Clone, Copy, Debug, PartialEq, Eq, Structural)]
pub enum Route {
    GetById,
    GetAll,
    Create,
    Update,
    Delete,
}

impl Route {
    /// What a route answers where nothing went wrong: a create answers
    /// `Created`, a delete `NoContent`, the others `Found`.
    pub open spec fn answer(self) -> Success {
        match self {
            Route::Create => Success::Created,
            Route::Delete => Success::NoContent,
            _ => Success::Found,
        }
    }

    /// The status of the route's answer where nothing went wrong.
    pub fn success(self) -> (status: Success)
        ensures
            status == self.answer(),
    {
        match self {
            Route::Create => Success::Created,
            Route::Delete => Success::NoContent,
            _ => Success::Found,
        }
    }
}

/// The answer to a lookup: the user, or `NotFound` where the repository had
/// none.
pub fn get_by_id(found: Option<Usuario>) -> (answer: Result<Usuario, AppError>)
    ensures
        match found {
            Some(usuario) => answer == Ok::<Usuario, AppError>(usuario),
            None => answer is Err && answer->Err_0@ == AppErrorModel::NotFound,
        },
{
    match found {
        Some(usuario) => Ok(usuario),
        None => Err(AppError::NotFound),
    }
}

/// The row that a create stores: the input as it is.
pub fn create(input: UsuarioInput) -> (row: Result<Usuario, AppError>)
    ensures
        row == Ok::<Usuario, AppError>(row_of(input)),
{
    Usuario::try_from(input)
}

/// The row that an update stores: the input, under the key of the path and
/// not the one in its body.
pub fn update(id: u32, input: UsuarioInput) -> (row: Result<Usuario, AppError>)
    ensures
        row == Ok::<Usuario, AppError>(Usuario { id, ..row_of(input) }),
{
    match Usuario::try_from(input) {
        Ok(usuario) => {
            let mut usuario = usuario;
            usuario.id = id;
            Ok(usuario)
        },
        Err(e) => Err(e),
    }
}

/// The answer to a delete: `NotFound` where the repository deleted nothing.
pub fn delete(deleted: bool) -> (answer: Result<Success, AppError>)
    ensures
        deleted ==> answer == Ok::<Success, AppError>(Route::Delete.answer()),
        !deleted ==> answer is Err && answer->Err_0@ == AppErrorModel::NotFound,
{
    if deleted {
        Ok(Route::Delete.success())
    } else {
        Err(AppError::NotFound)
    }
}

} // verus!
