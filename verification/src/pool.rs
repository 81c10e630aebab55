//! The one long-lived handle to storage. It is held in a slot that is passed
//! to whoever needs it: filled once when the service starts, read by every
//! request.

use vstd::prelude::*;
use vstd::string::*;
use crate::error::{AppError, AppErrorModel};

verus! {

/// The place of the pool. `P` is the pool of whatever storage is in use.
pub struct PoolSlot<P> {
    pool: Option<P>,
}

impl<P> PoolSlot<P> {
    /// The pool in the slot, if it was filled.
    pub closed spec fn held(&self) -> Option<P> {
        self.pool
    }

    /// A slot without a pool.
    pub fn new() -> (slot: Self)
        ensures
            slot.held() is None,
    {
        PoolSlot { pool: None }
    }

    /// Whether the slot holds a pool.
    pub fn is_initialised(&self) -> (filled: bool)
        ensures
            filled == self.held() is Some,
    {
        self.pool.is_some()
    }
}

/// The error of a request that comes before the pool was set up.
pub open spec fn pool_missing() -> AppErrorModel {
    AppErrorModel::Internal("connection pool is not initialised"@)
}

/// Puts the pool that was opened into the slot.
///
/// `opened` is what opening the pool gave: the pool, or what storage reported.
/// A pool replaces the one in the slot; a failure leaves the slot as it was
/// and comes back as a database error with that report.
pub fn init_db_pool<P>(slot: &mut PoolSlot<P>, opened: Result<P, String>) -> (done: Result<
    (),
    AppError,
>)
    ensures
        match opened {
            Ok(pool) => done is Ok && final(slot).held() == Some(pool),
            Err(report) => done is Err && done->Err_0@ == AppErrorModel::Database(report@)
                && final(slot).held() == old(slot).held(),
        },
{
    match opened {
        Ok(pool) => {
            slot.pool = Some(pool);
            Ok(())
        },
        Err(report) => Err(AppError::Database(report)),
    }
}

/// The pool from which a request takes its connection: an internal error
/// where the slot was never filled.
pub fn get_conn<P>(slot: &PoolSlot<P>) -> (pool: Result<&P, AppError>)
    ensures
        match pool {
            Ok(p) => slot.held() == Some(*p),
            Err(e) => slot.held() is None && e@ == pool_missing(),
        },
{
    match &slot.pool {
        Some(pool) => Ok(pool),
        None => Err(AppError::Internal(String::from_str("connection pool is not initialised"))),
    }
}

/// What taking a connection from the pool gave: the connection, or a
/// database error with what storage reported.
pub fn connection<C>(taken: Result<C, String>) -> (conn: Result<C, AppError>)
    ensures
        match taken {
            Ok(c) => conn == Ok::<C, AppError>(c),
            Err(report) => conn is Err && conn->Err_0@ == AppErrorModel::Database(report@),
        },
{
    match taken {
        Ok(c) => Ok(c),
        Err(report) => Err(AppError::Database(report)),
    }
}

} // verus!
