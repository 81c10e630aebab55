//! The errors of the users service, and what each shows to a caller.

use vstd::prelude::*;
use vstd::string::*;

verus! {

/// What can go wrong while a request is served. The texts that the variants
/// carry are for the log; `error_response` decides what the caller sees.
#[derive(Clone, Debug, PartialEq, Eq)]
pub enum AppError {
    /// Storage failed; the text is what it reported.
    Database(String),
    /// The configuration is incomplete or unreadable.
    Config(String),
    NotFound,
    /// The request is malformed; the text says how.
    Validation(String),
    Internal(String),
}

/// An error as a mathematical value.
pub enum AppErrorModel {
    Database(Seq<char>),
    Config(Seq<char>),
    NotFound,
    Validation(Seq<char>),
    Internal(Seq<char>),
}

impl View for AppError {
    type V = AppErrorModel;

    open spec fn view(&self) -> AppErrorModel {
        match self {
            AppError::Database(detail) => AppErrorModel::Database(detail@),
            AppError::Config(detail) => AppErrorModel::Config(detail@),
            AppError::NotFound => AppErrorModel::NotFound,
            AppError::Validation(detail) => AppErrorModel::Validation(detail@),
            AppError::Internal(detail) => AppErrorModel::Internal(detail@),
        }
    }
}

/// The status and the text that a caller gets for an error.
#[derive(Clone, Debug, PartialEq, Eq)]
pub struct ErrorResponse {
    /// The HTTP status.
    pub status: u16,
    /// The value of the body's `error` field.
    pub error: String,
}

/// The HTTP status of an error: 404 where nothing was found, 400 for a
/// malformed request, 500 for everything else.
pub open spec fn status_of(e: AppErrorModel) -> u16 {
    match e {
        AppErrorModel::NotFound => 404,
        AppErrorModel::Validation(_) => 400,
        _ => 500,
    }
}

/// The text shown to the caller. Only a validation error shows its own text;
/// what storage or the configuration reported stays inside.
pub open spec fn public_text(e: AppErrorModel) -> Seq<char> {
    match e {
        AppErrorModel::Database(_) => "Database operation failed"@,
        AppErrorModel::Config(_) => "Configuration error"@,
        AppErrorModel::NotFound => "Not found"@,
        AppErrorModel::Validation(detail) => detail,
        AppErrorModel::Internal(_) => "Internal server error"@,
    }
}

/// The text written to the log.
pub open spec fn log_text(e: AppErrorModel) -> Seq<char> {
    match e {
        AppErrorModel::Database(detail) => "Database error: "@ + detail,
        AppErrorModel::Config(detail) => "Configuration error: "@ + detail,
        AppErrorModel::NotFound => "Resource not found"@,
        AppErrorModel::Validation(detail) => "Validation error: "@ + detail,
        AppErrorModel::Internal(detail) => "Internal error: "@ + detail,
    }
}

impl AppError {
    /// The HTTP status of the error.
    pub fn status_code(&self) -> (status: u16)
        ensures
            status == status_of(self@),
    {
        match self {
            AppError::NotFound => 404,
            AppError::Validation(_) => 400,
            _ => 500,
        }
    }

    /// What the caller gets to see of the error.
    pub fn error_response(&self) -> (response: ErrorResponse)
        ensures
            response.status == status_of(self@),
            response.error@ == public_text(self@),
    {
        let error = match self {
            AppError::Database(_) => String::from_str("Database operation failed"),
            AppError::Config(_) => String::from_str("Configuration error"),
            AppError::NotFound => String::from_str("Not found"),
            AppError::Validation(detail) => detail.clone(),
            AppError::Internal(_) => String::from_str("Internal server error"),
        };
        ErrorResponse { status: self.status_code(), error }
    }

    /// The line that the log gets for the error.
    pub fn message(&self) -> (text: String)
        ensures
            text@ == log_text(self@),
    {
        match self {
            AppError::Database(detail) => {
                let mut text = String::from_str("Database error: ");
                text.append(detail.as_str());
                text
            },
            AppError::Config(detail) => {
                let mut text = String::from_str("Configuration error: ");
                text.append(detail.as_str());
                text
            },
            AppError::NotFound => String::from_str("Resource not found"),
            AppError::Validation(detail) => {
                let mut text = String::from_str("Validation error: ");
                text.append(detail.as_str());
                text
            },
            AppError::Internal(detail) => {
                let mut text = String::from_str("Internal error: ");
                text.append(detail.as_str());
                text
            },
        }
    }
}

} // verus!
