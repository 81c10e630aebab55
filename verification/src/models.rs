//! A user as storage holds it, and as a caller sends it.

use vstd::prelude::*;
use vstd::std_specs::convert::TryFromSpecImpl;
use crate::error::AppError;

verus! {

/// One row of the users table.
#[derive(Debug, Clone, PartialEq, Eq)]
pub struct Usuario {
    pub id: u32,
    pub rut: String,
    pub nombre: String,
    pub ap_paterno: String,
    pub ap_materno: String,
    pub email: String,
    pub telefonos: String,
    pub cod_zona: Option<String>,
    pub nivel_acceso: Option<u8>,
    pub cod_cliente: Option<u8>,
    pub clave_acceso: String,
    pub estatus: u8,
}

/// A user as a request carries it: every value is given.
#[derive(Debug, Clone, PartialEq, Eq)]
pub struct UsuarioInput {
    pub id: u32,
    pub rut: String,
    pub nombre: String,
    pub ap_paterno: String,
    pub ap_materno: String,
    pub email: String,
    pub telefonos: String,
    pub cod_zona: String,
    pub nivel_acceso: u8,
    pub cod_cliente: u8,
    pub clave_acceso: String,
    pub estatus: u8,
}

/// The row that an input stands for: the same values, those that storage may
/// leave empty wrapped in `Some`.
pub open spec fn row_of(input: UsuarioInput) -> Usuario {
    Usuario {
        id: input.id,
        rut: input.rut,
        nombre: input.nombre,
        ap_paterno: input.ap_paterno,
        ap_materno: input.ap_materno,
        email: input.email,
        telefonos: input.telefonos,
        cod_zona: Some(input.cod_zona),
        nivel_acceso: Some(input.nivel_acceso),
        cod_cliente: Some(input.cod_cliente),
        clave_acceso: input.clave_acceso,
        estatus: input.estatus,
    }
}

impl TryFrom<UsuarioInput> for Usuario {
    type Error = AppError;

    /// Every input is a row: the conversion never fails.
    fn try_from(input: UsuarioInput) -> (row: Result<Self, Self::Error>) {
        Ok(
            Usuario {
                id: input.id,
                rut: input.rut,
                nombre: input.nombre,
                ap_paterno: input.ap_paterno,
                ap_materno: input.ap_materno,
                email: input.email,
                telefonos: input.telefonos,
                cod_zona: Some(input.cod_zona),
                nivel_acceso: Some(input.nivel_acceso),
                cod_cliente: Some(input.cod_cliente),
                clave_acceso: input.clave_acceso,
                estatus: input.estatus,
            },
        )
    }
}

impl TryFromSpecImpl<UsuarioInput> for Usuario {
    open spec fn obeys_try_from_spec() -> bool {
        true
    }

    open spec fn try_from_spec(input: UsuarioInput) -> Result<Self, Self::Error> {
        Ok(row_of(input))
    }
}

} // verus!
