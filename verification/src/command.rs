//! Steps shared by every write service: the truth cursors that mark derived views
//! stale, the expected version of an audit trail, and the idempotency key gate.

use vstd::prelude::*;

use crate::contracts::{FormalWorkKind, FormalWorkRef};
use crate::errors::ApplicationError;
use crate::ports::{classify_repository_error, repository_failure, RepositoryError};
use crate::text::{decimal, u64_to_decimal};

verus! {

/// The truth cursor of one versioned record: `prefix:id:v<version>`.
pub open spec fn cursor_text(prefix: Seq<char>, id: Seq<char>, version: u64) -> Seq<char> {
    prefix + ":"@ + id + ":v"@ + decimal(version as nat)
}

/// Renders the truth cursor of a record at a version.
pub fn versioned_cursor(prefix: &str, id: &str, version: u64) -> (r: String)
    ensures
        r@ == cursor_text(prefix@, id@, version),
{
    let mut cursor = String::from_str(prefix);
    cursor.append(":");
    cursor.append(id);
    cursor.append(":v");
    cursor.append(u64_to_decimal(version).as_str());
    cursor
}

/// The truth cursor of a formal work record at a version.
pub open spec fn work_cursor_text(work_ref: (FormalWorkKind, Seq<char>), version: u64) -> Seq<char> {
    match work_ref.0 {
        FormalWorkKind::WorkItem => cursor_text("work_item"@, work_ref.1, version),
        FormalWorkKind::ChildWorkItem => cursor_text("child_work_item"@, work_ref.1, version),
    }
}


/// Renders the truth cursor of formal work at a version.
pub fn formal_work_cursor(work_ref: &FormalWorkRef, version: u64) -> (r: String)
    ensures
        r@ == work_cursor_text(work_ref@, version),
{
    match work_ref.kind {
        FormalWorkKind::WorkItem => versioned_cursor("work_item", work_ref.id.as_str(), version),
        FormalWorkKind::ChildWorkItem => versioned_cursor("child_work_item", work_ref.id.as_str(), version),
    }
}

/// The version an audit trail is saved against: none when the trail has a gap (it is
/// rewritten whole), otherwise the number of traces it held before the append.
pub fn expected_audit_version(has_gap: bool, trace_count: usize) -> (r: Option<u64>)
    requires
        trace_count <= u64::MAX,
    ensures
        r == (if has_gap { None } else { Some(trace_count as u64) }),
{
    if has_gap {
        None
    } else {
        Some(trace_count as u64)
    }
}

/// Every protected write needs an idempotency key: without one the request is invalid.
pub fn require_idempotency_key(key: Option<String>) -> (r: Result<String, ApplicationError>)
    ensures
        key is Some ==> r == Ok::<String, ApplicationError>(key->Some_0),
        key is None ==> r == Err::<String, ApplicationError>(ApplicationError::InvalidRequest),
{
    match key {
        Some(key) => Ok(key),
        None => Err(ApplicationError::InvalidRequest),
    }
}

/// The outcome of an awaited step inside an open transaction: its value, or its error
/// after the transaction was rolled back (a failed rollback is a transient failure).
pub open spec fn step_outcome<T>(step: Result<T, ApplicationError>, rollback: Result<(), crate::ports::UnitOfWorkError>) -> Result<T, ApplicationError> {
    match step {
        Ok(value) => Ok(value),
        Err(error) => Err(crate::ports::after_rollback(error, rollback)),
    }
}

/// Settles one awaited step: the rollback reply only matters when the step failed.
pub fn settle_step<T>(step: Result<T, ApplicationError>, rollback: Result<(), crate::ports::UnitOfWorkError>) -> (r: Result<T, ApplicationError>)
    ensures
        r == step_outcome(step, rollback),
{
    match step {
        Ok(value) => Ok(value),
        Err(error) => Err(crate::ports::rollback_and_err(error, rollback)),
    }
}

/// A record that the operation needs: a missing record is `NotFound`, a failed read is
/// the write-service classification of the repository failure.
pub open spec fn found<T>(loaded: Result<Option<T>, RepositoryError>) -> Result<T, ApplicationError> {
    match loaded {
        Ok(Some(record)) => Ok(record),
        Ok(None) => Err(ApplicationError::NotFound),
        Err(error) => Err(repository_failure(error)),
    }
}

/// Requires a loaded record to exist.
pub fn require_found<T>(loaded: Result<Option<T>, RepositoryError>) -> (r: Result<T, ApplicationError>)
    ensures
        r == found(loaded),
{
    match loaded {
        Ok(Some(record)) => Ok(record),
        Ok(None) => Err(ApplicationError::NotFound),
        Err(error) => Err(classify_repository_error(error)),
    }
}

/// Truth cursors tell versions apart: two cursors of the same record are equal only
/// when they name the same version, so a stale mark always names the version it saw.
pub proof fn lemma_cursor_names_one_version(prefix: Seq<char>, id: Seq<char>, v1: u64, v2: u64)
    requires
        cursor_text(prefix, id, v1) == cursor_text(prefix, id, v2),
    ensures
        v1 == v2,
{
    let head = prefix + ":"@ + id + ":v"@;
    assert(cursor_text(prefix, id, v1) == head + decimal(v1 as nat));
    assert(cursor_text(prefix, id, v2) == head + decimal(v2 as nat));
    let n = head.len() as int;
    let c1 = head + decimal(v1 as nat);
    let c2 = head + decimal(v2 as nat);
    assert(c1.subrange(n, c1.len() as int) =~= decimal(v1 as nat));
    assert(c2.subrange(n, c2.len() as int) =~= decimal(v2 as nat));
    crate::text::lemma_decimal_digits(v1 as nat);
    crate::text::lemma_decimal_digits(v2 as nat);
}

} // verus!
