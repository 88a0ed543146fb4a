//! Idempotency values for Work write paths: request digests, reservation records and
//! the replies of the idempotency store.

use vstd::prelude::*;

use crate::contracts::ApplicationResultRef;

verus! {

/// Canonical digest used to distinguish same-intent retries from key reuse conflicts.
#[derive(Clone, Debug)]
pub struct RequestDigest(pub String);

/// Current idempotency lifecycle state for one protected operation.
#[derive(Clone, Copy, Debug, PartialEq, Eq, Structural)]
pub enum IdempotencyStatus {
    /// The key has been reserved and may still be in flight.
    Reserved,
    /// The key completed successfully and has a stable result surface.
    Completed,
    /// The key was reused with a different canonical digest.
    Conflict,
}

/// Stores idempotency state for a write or job operation.
#[derive(Clone, Debug)]
pub struct IdempotencyRecord {
    /// Operation-specific idempotency key.
    pub idempotency_key: String,
    /// Operation name protected by this record.
    pub operation: String,
    /// Canonical request digest.
    pub request_digest: RequestDigest,
    /// Existing result when completed.
    pub result_ref: Option<ApplicationResultRef>,
    /// Current idempotency status.
    pub status: IdempotencyStatus,
}

impl IdempotencyRecord {
    /// Returns a new reserved record for the supplied request identity.
    pub fn reserved(idempotency_key: String, operation: String, request_digest: RequestDigest) -> (r: Self)
        ensures
            r.idempotency_key == idempotency_key,
            r.operation == operation,
            r.request_digest == request_digest,
            r.result_ref.is_none(),
            r.status == IdempotencyStatus::Reserved,
    {
        IdempotencyRecord {
            idempotency_key,
            operation,
            request_digest,
            result_ref: None,
            status: IdempotencyStatus::Reserved,
        }
    }
}

/// Records a conflicting idempotency request.
#[derive(Clone, Debug)]
pub struct IdempotencyConflict {
    /// Idempotency key that collided.
    pub idempotency_key: String,
    /// Operation protected by the key.
    pub operation: String,
    /// Digest stored for the existing request.
    pub existing_digest: RequestDigest,
    /// Digest presented by the new request.
    pub incoming_digest: RequestDigest,
}

/// Result of reserving an idempotency key.
#[derive(Clone, Debug)]
pub enum IdempotencyReservation {
    /// This request may execute the operation.
    Reserved(IdempotencyRecord),
    /// The same digest already completed and should return the stored result.
    Duplicate(ApplicationResultRef),
    /// The same key was used with a different request digest.
    Conflict(IdempotencyConflict),
}

} // verus!
