//! Failure classes reported by repositories, ports and transaction boundaries, the
//! paging values they exchange, and the ways services classify failures into
//! application errors.

use vstd::prelude::*;

use crate::errors::ApplicationError;

verus! {

/// Classifies persistence and local store failures before service mapping.
#[derive(Clone, Copy, Debug, PartialEq, Eq, Structural)]
pub enum RepositoryError {
    /// The requested record does not exist.
    NotFound,
    /// The expected optimistic version did not match the stored version.
    VersionConflict,
    /// The local transaction boundary rejected the operation.
    TransactionRejected,
    /// The store is unavailable or failed for a technical reason.
    StoreUnavailable,
}

/// Classifies external resolver, publisher, and handoff failures.
#[derive(Clone, Copy, Debug, PartialEq, Eq, Structural)]
pub enum PortError {
    /// The referenced external object could not be resolved.
    NotFound,
    /// The external reference exists but cannot be used by this operation.
    Rejected,
    /// The external dependency is temporarily unavailable.
    Unavailable,
    /// The external dependency returned an invalid or unsupported response.
    InvalidResponse,
}

/// Classifies domain rule failures reported by Work entities and policies.
#[derive(Clone, Copy, Debug, PartialEq, Eq, Structural)]
pub enum DomainError {
    MissingRequiredValue,
    InvalidStateTransition,
    PolicyRejected,
    InvariantViolation,
    ExternalBodyRejected,
    ProjectionMutationRejected,
    RefMismatch,
}

/// Classifies local transaction boundary failures.
#[derive(Clone, Copy, Debug, PartialEq, Eq, Structural)]
pub enum UnitOfWorkError {
    /// The transaction could not be started.
    BeginFailed,
    /// The transaction could not be committed.
    CommitFailed,
    /// The transaction could not be rolled back.
    RollbackFailed,
}

/// Classifies idempotency storage failures.
#[derive(Clone, Copy, Debug, PartialEq, Eq, Structural)]
pub enum IdempotencyError {
    /// The same key is already in-flight.
    AlreadyReserved,
    /// The same key was used with a different digest.
    Conflict,
    /// The idempotency store failed.
    StoreUnavailable,
}

/// A page request: how many items, starting where.
#[derive(Clone, Debug)]
pub struct PageRequest {
    pub limit: u32,
    pub page_token: Option<String>,
}

/// Cursor metadata for repository page reads.
#[derive(Clone, Debug)]
pub struct PageInfo {
    /// Token for the next page.
    pub next_page_token: Option<String>,
    /// Whether more repository items may exist.
    pub has_more: bool,
}

/// A repository page returned before public query mapping.
pub struct Page<T> {
    /// Items returned by repository read.
    pub items: Vec<T>,
    /// Cursor metadata for the next repository read.
    pub page_info: PageInfo,
}

/// One repository-loaded record paired with its current optimistic version.
pub struct Versioned<T> {
    /// Stored record payload.
    pub record: T,
    /// Current optimistic version for subsequent write paths.
    pub version: u64,
}

// ---------------------------------------------------------------------------
// How services classify failures.
// ---------------------------------------------------------------------------

/// Repository failures as write services report them.
pub open spec fn repository_failure(error: RepositoryError) -> ApplicationError {
    match error {
        RepositoryError::NotFound => ApplicationError::NotFound,
        RepositoryError::VersionConflict => ApplicationError::VersionConflict,
        _ => ApplicationError::TemporarilyUnavailable,
    }
}

/// Repository failures as the read-only query service reports them: only a missing
/// record is distinguished.
pub open spec fn query_repository_failure(error: RepositoryError) -> ApplicationError {
    match error {
        RepositoryError::NotFound => ApplicationError::NotFound,
        _ => ApplicationError::TemporarilyUnavailable,
    }
}

/// Idempotency store failures: only a digest conflict is surfaced as such.
pub open spec fn idempotency_failure(error: IdempotencyError) -> ApplicationError {
    match error {
        IdempotencyError::Conflict => ApplicationError::IdempotencyConflict,
        _ => ApplicationError::TemporarilyUnavailable,
    }
}

/// A failed commit may have partially applied; every other boundary failure is transient.
pub open spec fn commit_failure(error: UnitOfWorkError) -> ApplicationError {
    match error {
        UnitOfWorkError::CommitFailed => ApplicationError::CommitStatusUnknown,
        _ => ApplicationError::TemporarilyUnavailable,
    }
}

/// Port failures for the project service: an invalid response is treated as transient.
pub open spec fn port_failure_transient(error: PortError) -> ApplicationError {
    match error {
        PortError::NotFound | PortError::Rejected => ApplicationError::ExternalReferenceUnresolved,
        _ => ApplicationError::TemporarilyUnavailable,
    }
}

/// Port failures for the formal-work, member, promote, dependency and iteration
/// services: an invalid response is a domain rejection.
pub open spec fn port_failure_domain(error: PortError) -> ApplicationError {
    match error {
        PortError::NotFound | PortError::Rejected => ApplicationError::ExternalReferenceUnresolved,
        PortError::Unavailable => ApplicationError::TemporarilyUnavailable,
        PortError::InvalidResponse => ApplicationError::DomainRejected,
    }
}

/// Port failures for the outbox publisher: an invalid response marks the source invalid.
pub open spec fn port_failure_outbox(error: PortError) -> ApplicationError {
    match error {
        PortError::NotFound | PortError::Rejected => ApplicationError::ExternalReferenceUnresolved,
        PortError::Unavailable => ApplicationError::TemporarilyUnavailable,
        PortError::InvalidResponse => ApplicationError::InvalidOutboxSource,
    }
}

/// Port failures for operations jobs: an invalid response is an invalid request.
pub open spec fn port_failure_job(error: PortError) -> ApplicationError {
    match error {
        PortError::NotFound | PortError::Rejected => ApplicationError::ExternalReferenceUnresolved,
        PortError::Unavailable => ApplicationError::TemporarilyUnavailable,
        PortError::InvalidResponse => ApplicationError::InvalidRequest,
    }
}

/// Domain failures for services that only distinguish a missing required value.
pub open spec fn domain_failure_fine(error: DomainError) -> ApplicationError {
    match error {
        DomainError::MissingRequiredValue => ApplicationError::InvalidRequest,
        _ => ApplicationError::DomainRejected,
    }
}

/// Write-service classification of a repository failure.
pub fn classify_repository_error(error: RepositoryError) -> (r: ApplicationError)
    ensures
        r == repository_failure(error),
{
    match error {
        RepositoryError::NotFound => ApplicationError::NotFound,
        RepositoryError::VersionConflict => ApplicationError::VersionConflict,
        RepositoryError::TransactionRejected | RepositoryError::StoreUnavailable => {
            ApplicationError::TemporarilyUnavailable
        },
    }
}

/// Classification of an idempotency store failure.
pub fn classify_idempotency_error(error: IdempotencyError) -> (r: ApplicationError)
    ensures
        r == idempotency_failure(error),
{
    match error {
        IdempotencyError::AlreadyReserved | IdempotencyError::StoreUnavailable => {
            ApplicationError::TemporarilyUnavailable
        },
        IdempotencyError::Conflict => ApplicationError::IdempotencyConflict,
    }
}

/// Classification of a failed commit.
pub fn classify_commit_error(error: UnitOfWorkError) -> (r: ApplicationError)
    ensures
        r == commit_failure(error),
{
    match error {
        UnitOfWorkError::CommitFailed => ApplicationError::CommitStatusUnknown,
        UnitOfWorkError::BeginFailed | UnitOfWorkError::RollbackFailed => {
            ApplicationError::TemporarilyUnavailable
        },
    }
}

/// Classification of a port failure where an invalid response is a domain rejection.
pub fn classify_port_error_domain(error: PortError) -> (r: ApplicationError)
    ensures
        r == port_failure_domain(error),
{
    match error {
        PortError::NotFound | PortError::Rejected => ApplicationError::ExternalReferenceUnresolved,
        PortError::Unavailable => ApplicationError::TemporarilyUnavailable,
        PortError::InvalidResponse => ApplicationError::DomainRejected,
    }
}

/// Classification of a domain failure that distinguishes a missing required value.
pub fn classify_domain_error_fine(error: DomainError) -> (r: ApplicationError)
    ensures
        r == domain_failure_fine(error),
{
    match error {
        DomainError::MissingRequiredValue => ApplicationError::InvalidRequest,
        DomainError::InvalidStateTransition
        | DomainError::PolicyRejected
        | DomainError::InvariantViolation
        | DomainError::ExternalBodyRejected
        | DomainError::ProjectionMutationRejected
        | DomainError::RefMismatch => ApplicationError::DomainRejected,
    }
}

/// The error a failed operation surfaces after its transaction was rolled back: the
/// step's own error when the rollback succeeded, a transient failure otherwise.
pub open spec fn after_rollback(error: ApplicationError, rollback: Result<(), UnitOfWorkError>) -> ApplicationError {
    match rollback {
        Ok(()) => error,
        Err(_) => ApplicationError::TemporarilyUnavailable,
    }
}

/// Combines a failure with the outcome of the rollback attempted for it.
pub fn rollback_and_err(error: ApplicationError, rollback: Result<(), UnitOfWorkError>) -> (r: ApplicationError)
    ensures
        r == after_rollback(error, rollback),
{
    match rollback {
        Ok(()) => error,
        Err(_) => ApplicationError::TemporarilyUnavailable,
    }
}

} // verus!
