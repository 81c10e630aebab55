//! What a handler decides around its one call into storage: whether the call
//! is made at all, and what its result means to the caller.

use vstd::prelude::*;
use vstd::string::*;
use crate::render::{map_table, mapped_of};
use crate::schema::TableSpec;
use crate::statement::{statement, statement_of, HandlerKind, Statement};
use crate::validation::{
    failed_models, input_models, validate, violations_of, FieldInput, ValidationFailed,
    ValidationFailedModel,
};

verus! {

/// What storage reports when a call fails.
#[derive(Clone, Debug, PartialEq, Eq)]
pub enum StorageError {
    /// A row was asked for and none was there.
    RowNotFound,
    /// Anything else; the text is storage's own and stays inside.
    Other(String),
}

/// How a handler fails.
#[derive(Clone, Debug, PartialEq, Eq)]
pub enum HandlerError {
    /// No row has the primary key that was asked for.
    NotFound,
    /// The input breaks rules; all of them are listed.
    ValidationFailed(Vec<ValidationFailed>),
    /// Storage failed. The text is a fixed diagnostic.
    StorageFailure(String),
}

/// A handler's failure as a mathematical value.
pub enum HandlerErrorModel {
    NotFound,
    ValidationFailed(Seq<ValidationFailedModel>),
    StorageFailure(Seq<char>),
}

impl View for HandlerError {
    type V = HandlerErrorModel;

    open spec fn view(&self) -> HandlerErrorModel {
        match self {
            HandlerError::NotFound => HandlerErrorModel::NotFound,
            HandlerError::ValidationFailed(failed) => HandlerErrorModel::ValidationFailed(
                failed_models(failed@),
            ),
            HandlerError::StorageFailure(diagnostic) => HandlerErrorModel::StorageFailure(
                diagnostic@,
            ),
        }
    }
}

/// What a failure of storage means to the caller: a missing row is
/// `NotFound`; everything else is `StorageFailure` with the same diagnostic,
/// whatever storage reported.
pub open spec fn failure_of(e: StorageError) -> HandlerErrorModel {
    match e {
        StorageError::RowNotFound => HandlerErrorModel::NotFound,
        StorageError::Other(_) => HandlerErrorModel::StorageFailure("storage failure"@),
    }
}

/// Turns a failure of storage into the failure of the handler.
pub fn storage_failure(e: StorageError) -> (failure: HandlerError)
    ensures
        failure@ == failure_of(e),
{
    match e {
        StorageError::RowNotFound => HandlerError::NotFound,
        StorageError::Other(_) => HandlerError::StorageFailure(String::from_str("storage failure")),
    }
}

/// The outcome of a lookup by primary key: the row, or `NotFound` where
/// storage had none.
pub fn fetch_one_outcome<R>(found: Result<Option<R>, StorageError>) -> (outcome: Result<
    R,
    HandlerError,
>)
    ensures
        match found {
            Ok(Some(row)) => outcome == Ok::<R, HandlerError>(row),
            Ok(None) => outcome is Err && outcome->Err_0@ == HandlerErrorModel::NotFound,
            Err(e) => outcome is Err && outcome->Err_0@ == failure_of(e),
        },
{
    match found {
        Ok(Some(row)) => Ok(row),
        Ok(None) => Err(HandlerError::NotFound),
        Err(e) => Err(storage_failure(e)),
    }
}

/// The outcome of a page: the rows as storage gave them.
pub fn fetch_page_outcome<R>(rows: Result<Vec<R>, StorageError>) -> (outcome: Result<
    Vec<R>,
    HandlerError,
>)
    ensures
        match rows {
            Ok(page) => outcome == Ok::<Vec<R>, HandlerError>(page),
            Err(e) => outcome is Err && outcome->Err_0@ == failure_of(e),
        },
{
    match rows {
        Ok(page) => Ok(page),
        Err(e) => Err(storage_failure(e)),
    }
}

/// The outcome of a create, from the number of rows that storage wrote.
pub fn create_outcome(written: Result<u64, StorageError>) -> (outcome: Result<(), HandlerError>)
    ensures
        match written {
            Ok(_) => outcome is Ok,
            Err(e) => outcome is Err && outcome->Err_0@ == failure_of(e),
        },
{
    match written {
        Ok(_) => Ok(()),
        Err(e) => Err(storage_failure(e)),
    }
}

/// The outcome of an update or a delete, from the number of rows that storage
/// touched: `NotFound` where it touched none.
pub fn change_outcome(touched: Result<u64, StorageError>) -> (outcome: Result<(), HandlerError>)
    ensures
        match touched {
            Ok(rows) => if rows == 0 {
                outcome is Err && outcome->Err_0@ == HandlerErrorModel::NotFound
            } else {
                outcome is Ok
            },
            Err(e) => outcome is Err && outcome->Err_0@ == failure_of(e),
        },
{
    match touched {
        Ok(rows) => if rows == 0 {
            Err(HandlerError::NotFound)
        } else {
            Ok(())
        },
        Err(e) => Err(storage_failure(e)),
    }
}

/// What a create or an update does with a request: the statement to run where
/// the request breaks no rule, and otherwise all that it breaks. Storage is
/// only called with what comes back as `Ok`.
fn write_plan(table: &TableSpec, kind: HandlerKind, record: &Vec<FieldInput>) -> (plan: Result<
    Statement,
    HandlerError,
>)
    ensures
        match plan {
            Ok(st) => violations_of(mapped_of(table@.columns), input_models(record@)).len() == 0
                && st@ == statement_of(table@, kind),
            Err(e) => violations_of(mapped_of(table@.columns), input_models(record@)).len() > 0
                && e@ == HandlerErrorModel::ValidationFailed(
                violations_of(mapped_of(table@.columns), input_models(record@)),
            ),
        },
{
    let fields = map_table(table);
    let failed = validate(&fields, record);
    if failed.len() > 0 {
        Err(HandlerError::ValidationFailed(failed))
    } else {
        Ok(statement(table, kind))
    }
}

/// Decides what a create handler does with a request. `record` holds one
/// input per column, in the order of the columns.
pub fn create_plan(table: &TableSpec, record: &Vec<FieldInput>) -> (plan: Result<
    Statement,
    HandlerError,
>)
    ensures
        match plan {
            Ok(st) => violations_of(mapped_of(table@.columns), input_models(record@)).len() == 0
                && st@ == statement_of(table@, HandlerKind::Create),
            Err(e) => violations_of(mapped_of(table@.columns), input_models(record@)).len() > 0
                && e@ == HandlerErrorModel::ValidationFailed(
                violations_of(mapped_of(table@.columns), input_models(record@)),
            ),
        },
{
    write_plan(table, HandlerKind::Create, record)
}

/// Decides what an update handler does with a request. `record` holds one
/// input per column, in the order of the columns.
pub fn update_plan(table: &TableSpec, record: &Vec<FieldInput>) -> (plan: Result<
    Statement,
    HandlerError,
>)
    ensures
        match plan {
            Ok(st) => violations_of(mapped_of(table@.columns), input_models(record@)).len() == 0
                && st@ == statement_of(table@, HandlerKind::Update),
            Err(e) => violations_of(mapped_of(table@.columns), input_models(record@)).len() > 0
                && e@ == HandlerErrorModel::ValidationFailed(
                violations_of(mapped_of(table@.columns), input_models(record@)),
            ),
        },
{
    write_plan(table, HandlerKind::Update, record)
}

} // verus!
