//! The claim protocol's decisions, independent of the storage engine.
//!
//! A claim is an "insert unless present" of a pending record for the pair
//! (user, key), made inside a fresh unit of work. When the insert affected a
//! row the caller owns the pair and must run the operation; otherwise the
//! existing record is read and either replayed or reported as inconsistent.

use crate::key::KeyError;
use crate::response::{
    ColumnsView, ResponseColumns, ResponseView, RestoreError, SavedResponse, restore,
    restore_spec,
};
use vstd::prelude::*;

verus! {

/// The ways a coordinated request can fail.
#[derive(Debug, Clone, Copy, PartialEq, Eq, Structural)]
pub enum IdempotencyError {
    /// The key supplied by the caller is malformed.
    Validation(KeyError),
    /// The storage engine failed, or returned data it could not have stored.
    Storage,
    /// A record exists for the pair but holds no completed response.
    InconsistentState,
}

impl IdempotencyError {
    /// The HTTP status code under which the error reaches a client.
    pub fn status_code(&self) -> (r: u16)
        ensures
            r == (match self {
                IdempotencyError::Validation(_) => 400u16,
                _ => 500u16,
            }),
    {
        match self {
            IdempotencyError::Validation(_) => 400,
            _ => 500,
        }
    }
}

/// What follows the claiming insert.
#[derive(Debug, Clone, Copy, PartialEq, Eq, Structural)]
pub enum InsertStep {
    /// The insert created the record: the caller holds the claim.
    Claimed,
    /// A record was already there: read it.
    ReadExisting,
}

/// Decides from the number of rows the claiming insert affected.
pub fn after_insert(rows_affected: u64) -> (r: InsertStep)
    ensures
        r == (if rows_affected > 0 {
            InsertStep::Claimed
        } else {
            InsertStep::ReadExisting
        }),
{
    if rows_affected > 0 {
        InsertStep::Claimed
    } else {
        InsertStep::ReadExisting
    }
}

/// What reading the existing record yields: its response when completed;
/// `InconsistentState` when it is pending or has vanished; `Storage` when its
/// status column holds no HTTP status code.
pub open spec fn lookup_outcome(row: Option<ColumnsView>) -> Result<ResponseView, IdempotencyError> {
    match row {
        None => Err(IdempotencyError::InconsistentState),
        Some(c) => match restore_spec(c) {
            Ok(v) => Ok(v),
            Err(RestoreError::Pending) => Err(IdempotencyError::InconsistentState),
            Err(RestoreError::InvalidStatus) => Err(IdempotencyError::Storage),
        },
    }
}

pub open spec fn row_view(row: Option<ResponseColumns>) -> Option<ColumnsView> {
    match row {
        Some(c) => Some(c@),
        None => None,
    }
}

/// Decides from the record read after a lost claim.
pub fn after_lookup(row: Option<ResponseColumns>) -> (r: Result<SavedResponse, IdempotencyError>)
    ensures
        match (r, lookup_outcome(row_view(row))) {
            (Ok(resp), Ok(v)) => resp@ == v && resp.wf(),
            (Err(e), Err(f)) => e == f,
            _ => false,
        },
{
    match row {
        None => Err(IdempotencyError::InconsistentState),
        Some(columns) => match restore(columns) {
            Ok(resp) => Ok(resp),
            Err(RestoreError::Pending) => Err(IdempotencyError::InconsistentState),
            Err(RestoreError::InvalidStatus) => Err(IdempotencyError::Storage),
        },
    }
}

} // verus!
