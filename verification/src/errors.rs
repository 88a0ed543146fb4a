//! Application error taxonomy and its mapping to the public protocol.

use vstd::prelude::*;

verus! {

/// Errors returned by application services before protocol mapping.
#[derive(Clone, Copy, Debug, PartialEq, Eq, Structural)]
pub enum ApplicationError {
    /// Required actor, metadata, idempotency, or body field is missing.
    InvalidRequest,
    /// A Work-owned record required by the operation does not exist.
    NotFound,
    /// The caller is not allowed to see or modify the target.
    NotVisible,
    /// Domain invariants or policies rejected the requested change.
    DomainRejected,
    /// The expected optimistic version did not match stored state.
    VersionConflict,
    /// The idempotency key was reused with a different canonical digest.
    IdempotencyConflict,
    /// A required external reference could not be resolved or accepted.
    ExternalReferenceUnresolved,
    /// A repository, port, or local transaction is temporarily unavailable.
    TemporarilyUnavailable,
    /// Commit may have partially applied and requires reconciliation.
    CommitStatusUnknown,
    /// Duplicate replay could not load the stored result surface.
    DuplicateResultMissing,
    /// An outbox record points at a source that cannot back a publication.
    InvalidOutboxSource,
}

/// Public command and query protocol errors.
#[derive(Clone, Copy, Debug, PartialEq, Eq, Structural)]
pub enum WorkProtocolError {
    InvalidRequest,
    NotFound,
    NotVisible,
    DomainRejected,
    VersionConflict,
    IdempotencyConflict,
    ExternalReferenceUnresolved,
    TemporarilyUnavailable,
}

/// The protocol error that an application error surfaces as.
pub open spec fn protocol_error_of(error: ApplicationError) -> WorkProtocolError {
    match error {
        ApplicationError::InvalidRequest => WorkProtocolError::InvalidRequest,
        ApplicationError::NotFound => WorkProtocolError::NotFound,
        ApplicationError::NotVisible => WorkProtocolError::NotVisible,
        ApplicationError::DomainRejected => WorkProtocolError::DomainRejected,
        ApplicationError::VersionConflict => WorkProtocolError::VersionConflict,
        ApplicationError::IdempotencyConflict => WorkProtocolError::IdempotencyConflict,
        ApplicationError::ExternalReferenceUnresolved => WorkProtocolError::ExternalReferenceUnresolved,
        _ => WorkProtocolError::TemporarilyUnavailable,
    }
}

impl ApplicationError {
    /// Maps the application error to the public command protocol error.
    pub fn into_protocol_error(self) -> (r: WorkProtocolError)
        ensures
            r == protocol_error_of(self),
            // Internal failures surface as temporarily unavailable, and nothing else does.
            r == WorkProtocolError::TemporarilyUnavailable <==> (self == ApplicationError::TemporarilyUnavailable
                || self == ApplicationError::CommitStatusUnknown || self == ApplicationError::DuplicateResultMissing
                || self == ApplicationError::InvalidOutboxSource),
            // Every other error keeps its meaning on the protocol.
            self == ApplicationError::InvalidRequest ==> r == WorkProtocolError::InvalidRequest,
            self == ApplicationError::NotFound ==> r == WorkProtocolError::NotFound,
            self == ApplicationError::NotVisible ==> r == WorkProtocolError::NotVisible,
            self == ApplicationError::DomainRejected ==> r == WorkProtocolError::DomainRejected,
            self == ApplicationError::VersionConflict ==> r == WorkProtocolError::VersionConflict,
            self == ApplicationError::IdempotencyConflict ==> r == WorkProtocolError::IdempotencyConflict,
            self == ApplicationError::ExternalReferenceUnresolved ==> r == WorkProtocolError::ExternalReferenceUnresolved,
    {
        match self {
            ApplicationError::InvalidRequest => WorkProtocolError::InvalidRequest,
            ApplicationError::NotFound => WorkProtocolError::NotFound,
            ApplicationError::NotVisible => WorkProtocolError::NotVisible,
            ApplicationError::DomainRejected => WorkProtocolError::DomainRejected,
            ApplicationError::VersionConflict => WorkProtocolError::VersionConflict,
            ApplicationError::IdempotencyConflict => WorkProtocolError::IdempotencyConflict,
            ApplicationError::ExternalReferenceUnresolved => WorkProtocolError::ExternalReferenceUnresolved,
            ApplicationError::TemporarilyUnavailable
            | ApplicationError::CommitStatusUnknown
            | ApplicationError::DuplicateResultMissing
            | ApplicationError::InvalidOutboxSource => WorkProtocolError::TemporarilyUnavailable,
        }
    }
}

/// The text an application error is displayed with.
pub open spec fn error_message(error: ApplicationError) -> Seq<char> {
    match error {
        ApplicationError::InvalidRequest => "invalid request"@,
        ApplicationError::NotFound => "not found"@,
        ApplicationError::NotVisible => "not visible"@,
        ApplicationError::DomainRejected => "domain rejected"@,
        ApplicationError::VersionConflict => "version conflict"@,
        ApplicationError::IdempotencyConflict => "idempotency conflict"@,
        ApplicationError::ExternalReferenceUnresolved => "external reference unresolved"@,
        ApplicationError::TemporarilyUnavailable => "temporarily unavailable"@,
        ApplicationError::CommitStatusUnknown => "commit status unknown"@,
        ApplicationError::DuplicateResultMissing => "duplicate result missing"@,
        ApplicationError::InvalidOutboxSource => "invalid outbox source"@,
    }
}

impl ApplicationError {
    /// The text the error is displayed with.
    pub fn message(&self) -> (r: &'static str)
        ensures
            r@ == error_message(*self),
    {
        match self {
            ApplicationError::InvalidRequest => "invalid request",
            ApplicationError::NotFound => "not found",
            ApplicationError::NotVisible => "not visible",
            ApplicationError::DomainRejected => "domain rejected",
            ApplicationError::VersionConflict => "version conflict",
            ApplicationError::IdempotencyConflict => "idempotency conflict",
            ApplicationError::ExternalReferenceUnresolved => "external reference unresolved",
            ApplicationError::TemporarilyUnavailable => "temporarily unavailable",
            ApplicationError::CommitStatusUnknown => "commit status unknown",
            ApplicationError::DuplicateResultMissing => "duplicate result missing",
            ApplicationError::InvalidOutboxSource => "invalid outbox source",
        }
    }
}

} // verus!
