//! The idempotent transaction protocol shared by every Work write path.
//!
//! A command or job first reserves its idempotency key inside a fresh unit of work,
//! then runs its body, then stores its result surface, completes the reservation and
//! commits. The services perform the port calls; the decisions between those calls are
//! the two step machines below: each takes the current phase and what the last call
//! returned, and gives the next phase and the next call to make.

use vstd::prelude::*;

use crate::contracts::ApplicationResultRef;
use crate::errors::ApplicationError;
use crate::idempotency::{IdempotencyConflict, IdempotencyRecord, IdempotencyReservation};
use crate::ports::{
    after_rollback, idempotency_failure, repository_failure, commit_failure, IdempotencyError,
    RepositoryError, UnitOfWorkError,
};

verus! {

/// How a write path orders its identity checks and its unit of work.
#[derive(Clone, Copy, Debug, PartialEq, Eq, Structural)]
pub enum ReservationStyle {
    /// Commands and the outbox publisher: the idempotency key and request digest are
    /// checked before the unit of work begins, and a conflicting key is recorded.
    CheckThenBegin,
    /// Operations jobs: the unit of work begins first, the job metadata, key and digest
    /// are checked inside it, and a conflicting key is not recorded.
    BeginThenCheck,
}

/// Where a reservation stands. `T` is the replayable result surface of the operation.
pub enum ReservePhase<T> {
    /// Waiting for the unit of work to begin.
    AwaitBegin,
    /// Inside the unit of work, waiting for the job identity check.
    AwaitIdentity,
    /// Waiting for the idempotency store's reply.
    AwaitReservation,
    /// The key completed before: waiting for the rollback, then the stored result is read.
    AwaitDuplicateRollback(ApplicationResultRef),
    /// Waiting for the stored result surface (already decoded for this operation).
    AwaitStoredResult,
    /// The key was reused with another digest: waiting for the conflict to be recorded.
    AwaitConflictMark,
    /// Waiting for the rollback that ends a conflicting request.
    AwaitConflictRollback,
    /// Waiting for the rollback that ends a failed reservation with the given error.
    AwaitErrorRollback(ApplicationError),
    /// The operation may run its body under this reservation.
    Reserved(IdempotencyRecord),
    /// The operation completed before; this is its stored result surface.
    Replayed(T),
    /// The operation ends with this error.
    Failed(ApplicationError),
}

/// The next call a service makes while reserving.
pub enum ReserveAction {
    BeginUnitOfWork,
    CheckIdentity,
    Reserve,
    Rollback,
    MarkConflict(IdempotencyConflict),
    LoadStoredResult(ApplicationResultRef),
    /// Run the operation body.
    Proceed,
    /// Nothing more to do: the phase is final.
    Stop,
}

/// What the last call returned.
pub enum ReserveEvent<T> {
    Begun(Result<(), UnitOfWorkError>),
    IdentityChecked(bool),
    Reservation(Result<IdempotencyReservation, IdempotencyError>),
    RolledBack(Result<(), UnitOfWorkError>),
    ConflictMarked(Result<(), IdempotencyError>),
    /// The stored result surface for the duplicate key, `None` when it is missing or
    /// belongs to another operation.
    StoredResult(Result<Option<T>, RepositoryError>),
}

impl<T> ReservePhase<T> {
    /// Whether the phase is final.
    pub open spec fn is_final(&self) -> bool {
        ||| self is Reserved
        ||| self is Replayed
        ||| self is Failed
    }
}

/// The first phase and call of a reservation: a write path that checks its identity
/// first fails at once, without a unit of work, when the key or digest is missing.
pub open spec fn reservation_start<T>(style: ReservationStyle, identity_ok: bool) -> (ReservePhase<T>, ReserveAction) {
    if style == ReservationStyle::CheckThenBegin && !identity_ok {
        (ReservePhase::Failed(ApplicationError::InvalidRequest), ReserveAction::Stop)
    } else {
        (ReservePhase::AwaitBegin, ReserveAction::BeginUnitOfWork)
    }
}

/// One transition of the reservation protocol.
pub open spec fn reservation_next<T>(style: ReservationStyle, phase: ReservePhase<T>, event: ReserveEvent<T>) -> (ReservePhase<T>, ReserveAction) {
    match (phase, event) {
        (ReservePhase::AwaitBegin, ReserveEvent::Begun(Ok(()))) => {
            if style == ReservationStyle::CheckThenBegin {
                (ReservePhase::AwaitReservation, ReserveAction::Reserve)
            } else {
                (ReservePhase::AwaitIdentity, ReserveAction::CheckIdentity)
            }
        },
        (ReservePhase::AwaitBegin, ReserveEvent::Begun(Err(_))) => {
            (ReservePhase::Failed(ApplicationError::TemporarilyUnavailable), ReserveAction::Stop)
        },
        (ReservePhase::AwaitIdentity, ReserveEvent::IdentityChecked(ok)) => {
            if ok {
                (ReservePhase::AwaitReservation, ReserveAction::Reserve)
            } else {
                (ReservePhase::Failed(ApplicationError::InvalidRequest), ReserveAction::Stop)
            }
        },
        (ReservePhase::AwaitReservation, ReserveEvent::Reservation(Ok(IdempotencyReservation::Reserved(record)))) => {
            (ReservePhase::Reserved(record), ReserveAction::Proceed)
        },
        (ReservePhase::AwaitReservation, ReserveEvent::Reservation(Ok(IdempotencyReservation::Duplicate(result_ref)))) => {
            (ReservePhase::AwaitDuplicateRollback(result_ref), ReserveAction::Rollback)
        },
        (ReservePhase::AwaitReservation, ReserveEvent::Reservation(Ok(IdempotencyReservation::Conflict(conflict)))) => {
            if style == ReservationStyle::CheckThenBegin {
                (ReservePhase::AwaitConflictMark, ReserveAction::MarkConflict(conflict))
            } else {
                (ReservePhase::AwaitConflictRollback, ReserveAction::Rollback)
            }
        },
        (ReservePhase::AwaitReservation, ReserveEvent::Reservation(Err(error))) => {
            (ReservePhase::AwaitErrorRollback(idempotency_failure(error)), ReserveAction::Rollback)
        },
        (ReservePhase::AwaitDuplicateRollback(result_ref), ReserveEvent::RolledBack(Ok(()))) => {
            (ReservePhase::AwaitStoredResult, ReserveAction::LoadStoredResult(result_ref))
        },
        (ReservePhase::AwaitStoredResult, ReserveEvent::StoredResult(Ok(Some(surface)))) => {
            (ReservePhase::Replayed(surface), ReserveAction::Stop)
        },
        (ReservePhase::AwaitStoredResult, ReserveEvent::StoredResult(Ok(None))) => {
            (ReservePhase::Failed(ApplicationError::DuplicateResultMissing), ReserveAction::Stop)
        },
        (ReservePhase::AwaitStoredResult, ReserveEvent::StoredResult(Err(error))) => {
            (ReservePhase::Failed(repository_failure(error)), ReserveAction::Stop)
        },
        (ReservePhase::AwaitConflictMark, ReserveEvent::ConflictMarked(Ok(()))) => {
            (ReservePhase::AwaitConflictRollback, ReserveAction::Rollback)
        },
        (ReservePhase::AwaitConflictMark, ReserveEvent::ConflictMarked(Err(error))) => {
            (ReservePhase::Failed(idempotency_failure(error)), ReserveAction::Stop)
        },
        (ReservePhase::AwaitDuplicateRollback(_), ReserveEvent::RolledBack(Err(_))) => {
            (ReservePhase::Failed(ApplicationError::TemporarilyUnavailable), ReserveAction::Stop)
        },
        (ReservePhase::AwaitConflictRollback, ReserveEvent::RolledBack(rollback)) => {
            (ReservePhase::Failed(after_rollback(ApplicationError::IdempotencyConflict, rollback)), ReserveAction::Stop)
        },
        (ReservePhase::AwaitErrorRollback(error), ReserveEvent::RolledBack(rollback)) => {
            (ReservePhase::Failed(after_rollback(error, rollback)), ReserveAction::Stop)
        },
        (phase, _) => (phase, ReserveAction::Stop),
    }
}

/// Starts a reservation.
pub fn start_reservation<T>(style: ReservationStyle, identity_ok: bool) -> (r: (ReservePhase<T>, ReserveAction))
    ensures
        r == reservation_start::<T>(style, identity_ok),
{
    if style == ReservationStyle::CheckThenBegin && !identity_ok {
        (ReservePhase::Failed(ApplicationError::InvalidRequest), ReserveAction::Stop)
    } else {
        (ReservePhase::AwaitBegin, ReserveAction::BeginUnitOfWork)
    }
}

/// Advances a reservation by what the last call returned.
pub fn step_reservation<T>(style: ReservationStyle, phase: ReservePhase<T>, event: ReserveEvent<T>) -> (r: (ReservePhase<T>, ReserveAction))
    ensures
        r == reservation_next(style, phase, event),
{
    match (phase, event) {
        (ReservePhase::AwaitBegin, ReserveEvent::Begun(Ok(()))) => {
            if style == ReservationStyle::CheckThenBegin {
                (ReservePhase::AwaitReservation, ReserveAction::Reserve)
            } else {
                (ReservePhase::AwaitIdentity, ReserveAction::CheckIdentity)
            }
        },
        (ReservePhase::AwaitBegin, ReserveEvent::Begun(Err(_))) => {
            (ReservePhase::Failed(ApplicationError::TemporarilyUnavailable), ReserveAction::Stop)
        },
        (ReservePhase::AwaitIdentity, ReserveEvent::IdentityChecked(ok)) => {
            if ok {
                (ReservePhase::AwaitReservation, ReserveAction::Reserve)
            } else {
                (ReservePhase::Failed(ApplicationError::InvalidRequest), ReserveAction::Stop)
            }
        },
        (ReservePhase::AwaitReservation, ReserveEvent::Reservation(Ok(reply))) => {
            match reply {
                IdempotencyReservation::Reserved(record) => (ReservePhase::Reserved(record), ReserveAction::Proceed),
                IdempotencyReservation::Duplicate(result_ref) => {
                    (ReservePhase::AwaitDuplicateRollback(result_ref), ReserveAction::Rollback)
                },
                IdempotencyReservation::Conflict(conflict) => {
                    if style == ReservationStyle::CheckThenBegin {
                        (ReservePhase::AwaitConflictMark, ReserveAction::MarkConflict(conflict))
                    } else {
                        (ReservePhase::AwaitConflictRollback, ReserveAction::Rollback)
                    }
                },
            }
        },
        (ReservePhase::AwaitReservation, ReserveEvent::Reservation(Err(error))) => {
            (ReservePhase::AwaitErrorRollback(crate::ports::classify_idempotency_error(error)), ReserveAction::Rollback)
        },
        (ReservePhase::AwaitDuplicateRollback(result_ref), ReserveEvent::RolledBack(Ok(()))) => {
            (ReservePhase::AwaitStoredResult, ReserveAction::LoadStoredResult(result_ref))
        },
        (ReservePhase::AwaitStoredResult, ReserveEvent::StoredResult(Ok(Some(surface)))) => {
            (ReservePhase::Replayed(surface), ReserveAction::Stop)
        },
        (ReservePhase::AwaitStoredResult, ReserveEvent::StoredResult(Ok(None))) => {
            (ReservePhase::Failed(ApplicationError::DuplicateResultMissing), ReserveAction::Stop)
        },
        (ReservePhase::AwaitStoredResult, ReserveEvent::StoredResult(Err(error))) => {
            (ReservePhase::Failed(crate::ports::classify_repository_error(error)), ReserveAction::Stop)
        },
        (ReservePhase::AwaitConflictMark, ReserveEvent::ConflictMarked(Ok(()))) => {
            (ReservePhase::AwaitConflictRollback, ReserveAction::Rollback)
        },
        (ReservePhase::AwaitConflictMark, ReserveEvent::ConflictMarked(Err(error))) => {
            (ReservePhase::Failed(crate::ports::classify_idempotency_error(error)), ReserveAction::Stop)
        },
        (ReservePhase::AwaitDuplicateRollback(_), ReserveEvent::RolledBack(Err(_))) => {
            (ReservePhase::Failed(ApplicationError::TemporarilyUnavailable), ReserveAction::Stop)
        },
        (ReservePhase::AwaitConflictRollback, ReserveEvent::RolledBack(rollback)) => {
            (ReservePhase::Failed(crate::ports::rollback_and_err(ApplicationError::IdempotencyConflict, rollback)), ReserveAction::Stop)
        },
        (ReservePhase::AwaitErrorRollback(error), ReserveEvent::RolledBack(rollback)) => {
            (ReservePhase::Failed(crate::ports::rollback_and_err(error, rollback)), ReserveAction::Stop)
        },
        (phase, _) => (phase, ReserveAction::Stop),
    }
}

/// The phase a reservation reaches from `phase` after the given replies, in order.
pub open spec fn reservation_run<T>(style: ReservationStyle, phase: ReservePhase<T>, events: Seq<ReserveEvent<T>>) -> ReservePhase<T>
    decreases events.len(),
{
    if events.len() == 0 {
        phase
    } else {
        reservation_run(style, reservation_next(style, phase, events[0]).0, events.drop_first())
    }
}

/// Whether the replies hold a reservation reply that reserved the key with `record`.
pub open spec fn replies_reserved<T>(events: Seq<ReserveEvent<T>>, record: IdempotencyRecord) -> bool {
    exists|i: int| 0 <= i < events.len() && events[i] == ReserveEvent::<T>::Reservation(Ok(IdempotencyReservation::Reserved(record)))
}

/// A final phase takes no further transition.
pub proof fn lemma_final_phase_is_stable<T>(style: ReservationStyle, phase: ReservePhase<T>, event: ReserveEvent<T>)
    requires
        phase.is_final(),
    ensures
        reservation_next(style, phase, event) == (phase, ReserveAction::Stop),
{
}

/// The operation body runs only under a reservation the idempotency store granted:
/// from any phase short of `Reserved`, whatever replies follow, the reservation ends
/// `Reserved(record)` only if one of those replies was `Reserved(record)`.
pub proof fn lemma_body_runs_only_when_reserved<T>(
    style: ReservationStyle,
    phase: ReservePhase<T>,
    events: Seq<ReserveEvent<T>>,
    record: IdempotencyRecord,
)
    requires
        !(phase is Reserved),
        reservation_run(style, phase, events) == ReservePhase::<T>::Reserved(record),
    ensures
        replies_reserved(events, record),
    decreases events.len(),
{
    if events.len() == 0 {
    } else {
        let next = reservation_next(style, phase, events[0]).0;
        if let ReservePhase::Reserved(granted) = next {
            lemma_reserved_is_absorbing(style, next, events.drop_first());
            assert(granted == record);
            assert(events[0] == ReserveEvent::<T>::Reservation(Ok(IdempotencyReservation::Reserved(record))));
        } else {
            lemma_body_runs_only_when_reserved(style, next, events.drop_first(), record);
            let i = choose|i: int| 0 <= i < events.drop_first().len() && events.drop_first()[i] == ReserveEvent::<T>::Reservation(Ok(IdempotencyReservation::Reserved(record)));
            assert(events[i + 1] == events.drop_first()[i]);
        }
    }
}

/// Once reserved, a reservation stays reserved.
pub proof fn lemma_reserved_is_absorbing<T>(style: ReservationStyle, phase: ReservePhase<T>, events: Seq<ReserveEvent<T>>)
    requires
        phase is Reserved,
    ensures
        reservation_run(style, phase, events) == phase,
    decreases events.len(),
{
    if events.len() > 0 {
        lemma_reserved_is_absorbing(style, phase, events.drop_first());
    }
}

/// A replayed key never runs the body again: once the store names the key a duplicate,
/// no later reply leads to `Reserved`.
pub proof fn lemma_duplicate_never_runs_body<T>(
    style: ReservationStyle,
    result_ref: ApplicationResultRef,
    events: Seq<ReserveEvent<T>>,
)
    ensures
        !(reservation_run(style, ReservePhase::<T>::AwaitDuplicateRollback(result_ref), events) is Reserved),
    decreases events.len(),
{
    if events.len() > 0 {
        let next = reservation_next(style, ReservePhase::<T>::AwaitDuplicateRollback(result_ref), events[0]).0;
        if let ReservePhase::AwaitDuplicateRollback(r) = next {
            lemma_duplicate_never_runs_body(style, r, events.drop_first());
        } else if next is AwaitStoredResult {
            lemma_stored_result_never_runs_body(style, events.drop_first());
        } else {
            lemma_final_never_reserves(style, next, events.drop_first());
        }
    }
}

proof fn lemma_stored_result_never_runs_body<T>(style: ReservationStyle, events: Seq<ReserveEvent<T>>)
    ensures
        !(reservation_run(style, ReservePhase::<T>::AwaitStoredResult, events) is Reserved),
    decreases events.len(),
{
    if events.len() > 0 {
        let next = reservation_next(style, ReservePhase::<T>::AwaitStoredResult, events[0]).0;
        if next is AwaitStoredResult {
            lemma_stored_result_never_runs_body(style, events.drop_first());
        } else {
            lemma_final_never_reserves(style, next, events.drop_first());
        }
    }
}

proof fn lemma_final_never_reserves<T>(style: ReservationStyle, phase: ReservePhase<T>, events: Seq<ReserveEvent<T>>)
    requires
        phase is Replayed || phase is Failed,
    ensures
        reservation_run(style, phase, events) == phase,
    decreases events.len(),
{
    if events.len() > 0 {
        lemma_final_never_reserves(style, phase, events.drop_first());
    }
}

/// A key reused with another digest ends the request: after a conflict reply the only
/// outcomes are an idempotency conflict or a transient failure, never the body and never
/// a replay.
pub proof fn lemma_conflict_is_rejected<T>(
    style: ReservationStyle,
    conflict: IdempotencyConflict,
    event: ReserveEvent<T>,
    events: Seq<ReserveEvent<T>>,
)
    ensures
        ({
            let after = reservation_run(
                style,
                reservation_next(style, ReservePhase::<T>::AwaitReservation, ReserveEvent::Reservation(Ok(IdempotencyReservation::Conflict(conflict)))).0,
                events,
            );
            ||| after is AwaitConflictMark
            ||| after is AwaitConflictRollback
            ||| after == ReservePhase::<T>::Failed(ApplicationError::IdempotencyConflict)
            ||| after == ReservePhase::<T>::Failed(ApplicationError::TemporarilyUnavailable)
        }),
    decreases events.len(),
{
    let first = reservation_next(style, ReservePhase::<T>::AwaitReservation, ReserveEvent::Reservation(Ok(IdempotencyReservation::Conflict(conflict)))).0;
    lemma_conflict_phases(style, first, events);
}

proof fn lemma_conflict_phases<T>(style: ReservationStyle, phase: ReservePhase<T>, events: Seq<ReserveEvent<T>>)
    requires
        ({
            ||| phase is AwaitConflictMark
            ||| phase is AwaitConflictRollback
            ||| phase == ReservePhase::<T>::Failed(ApplicationError::IdempotencyConflict)
            ||| phase == ReservePhase::<T>::Failed(ApplicationError::TemporarilyUnavailable)
        }),
    ensures
        ({
            let after = reservation_run(style, phase, events);
            ||| after is AwaitConflictMark
            ||| after is AwaitConflictRollback
            ||| after == ReservePhase::<T>::Failed(ApplicationError::IdempotencyConflict)
            ||| after == ReservePhase::<T>::Failed(ApplicationError::TemporarilyUnavailable)
        }),
    decreases events.len(),
{
    if events.len() > 0 {
        let next = reservation_next(style, phase, events[0]).0;
        lemma_conflict_phases(style, next, events.drop_first());
    }
}

// ---------------------------------------------------------------------------
// Finishing: store the result surface, complete the reservation, commit.
// ---------------------------------------------------------------------------

/// How a write path reacts when storing its result or completing its reservation fails.
#[derive(Clone, Copy, Debug, PartialEq, Eq, Structural)]
pub enum FinishStyle {
    /// Commands and operations jobs return the failure at once.
    ReturnFailure,
    /// The outbox publisher rolls its job transaction back first.
    RollBackFirst,
}

/// Where finishing stands.
#[derive(Clone, Copy, Debug, PartialEq, Eq, Structural)]
pub enum FinishPhase {
    AwaitSave,
    AwaitComplete,
    AwaitCommit,
    AwaitRollback(ApplicationError),
    Committed,
    Failed(ApplicationError),
}

/// The next call while finishing.
#[derive(Clone, Copy, Debug, PartialEq, Eq, Structural)]
pub enum FinishAction {
    SaveResult,
    CompleteReservation,
    Commit,
    Rollback,
    Stop,
}

/// What the last finishing call returned.
#[derive(Clone, Copy, Debug)]
pub enum FinishEvent {
    Saved(Result<(), RepositoryError>),
    Completed(Result<(), IdempotencyError>),
    CommitReturned(Result<(), UnitOfWorkError>),
    RolledBack(Result<(), UnitOfWorkError>),
}

/// A failure while finishing, under the given style.
pub open spec fn finish_failure(style: FinishStyle, error: ApplicationError) -> (FinishPhase, FinishAction) {
    if style == FinishStyle::RollBackFirst {
        (FinishPhase::AwaitRollback(error), FinishAction::Rollback)
    } else {
        (FinishPhase::Failed(error), FinishAction::Stop)
    }
}

/// One transition of finishing.
pub open spec fn finish_next(style: FinishStyle, phase: FinishPhase, event: FinishEvent) -> (FinishPhase, FinishAction) {
    match (phase, event) {
        (FinishPhase::AwaitSave, FinishEvent::Saved(Ok(()))) => (FinishPhase::AwaitComplete, FinishAction::CompleteReservation),
        (FinishPhase::AwaitSave, FinishEvent::Saved(Err(error))) => finish_failure(style, repository_failure(error)),
        (FinishPhase::AwaitComplete, FinishEvent::Completed(Ok(()))) => (FinishPhase::AwaitCommit, FinishAction::Commit),
        (FinishPhase::AwaitComplete, FinishEvent::Completed(Err(error))) => finish_failure(style, idempotency_failure(error)),
        (FinishPhase::AwaitCommit, FinishEvent::CommitReturned(Ok(()))) => (FinishPhase::Committed, FinishAction::Stop),
        (FinishPhase::AwaitCommit, FinishEvent::CommitReturned(Err(error))) => (FinishPhase::Failed(commit_failure(error)), FinishAction::Stop),
        (FinishPhase::AwaitRollback(error), FinishEvent::RolledBack(rollback)) => (FinishPhase::Failed(after_rollback(error, rollback)), FinishAction::Stop),
        (phase, _) => (phase, FinishAction::Stop),
    }
}

/// The first call of finishing.
pub fn start_finish() -> (r: (FinishPhase, FinishAction))
    ensures
        r == (FinishPhase::AwaitSave, FinishAction::SaveResult),
{
    (FinishPhase::AwaitSave, FinishAction::SaveResult)
}

/// Advances finishing by what the last call returned.
pub fn step_finish(style: FinishStyle, phase: FinishPhase, event: FinishEvent) -> (r: (FinishPhase, FinishAction))
    ensures
        r == finish_next(style, phase, event),
{
    let failure = |error: ApplicationError| -> (f: (FinishPhase, FinishAction))
        ensures
            f == finish_failure(style, error),
        {
            if style == FinishStyle::RollBackFirst {
                (FinishPhase::AwaitRollback(error), FinishAction::Rollback)
            } else {
                (FinishPhase::Failed(error), FinishAction::Stop)
            }
        };
    match (phase, event) {
        (FinishPhase::AwaitSave, FinishEvent::Saved(Ok(()))) => (FinishPhase::AwaitComplete, FinishAction::CompleteReservation),
        (FinishPhase::AwaitSave, FinishEvent::Saved(Err(error))) => failure(crate::ports::classify_repository_error(error)),
        (FinishPhase::AwaitComplete, FinishEvent::Completed(Ok(()))) => (FinishPhase::AwaitCommit, FinishAction::Commit),
        (FinishPhase::AwaitComplete, FinishEvent::Completed(Err(error))) => failure(crate::ports::classify_idempotency_error(error)),
        (FinishPhase::AwaitCommit, FinishEvent::CommitReturned(Ok(()))) => (FinishPhase::Committed, FinishAction::Stop),
        (FinishPhase::AwaitCommit, FinishEvent::CommitReturned(Err(error))) => {
            (FinishPhase::Failed(crate::ports::classify_commit_error(error)), FinishAction::Stop)
        },
        (FinishPhase::AwaitRollback(error), FinishEvent::RolledBack(rollback)) => {
            (FinishPhase::Failed(crate::ports::rollback_and_err(error, rollback)), FinishAction::Stop)
        },
        (phase, _) => (phase, FinishAction::Stop),
    }
}

/// The phase finishing reaches from `phase` after the given replies, in order.
pub open spec fn finish_run(style: FinishStyle, phase: FinishPhase, events: Seq<FinishEvent>) -> FinishPhase
    decreases events.len(),
{
    if events.len() == 0 {
        phase
    } else {
        finish_run(style, finish_next(style, phase, events[0]).0, events.drop_first())
    }
}

/// How far finishing has been acknowledged: 0 before anything, 1 once the result is
/// stored, 2 once the reservation is completed, 3 once committed.
pub open spec fn finish_progress(phase: FinishPhase) -> int {
    match phase {
        FinishPhase::AwaitSave => 0,
        FinishPhase::AwaitComplete => 1,
        FinishPhase::AwaitCommit => 2,
        FinishPhase::Committed => 3,
        _ => -1,
    }
}

/// A reply acknowledging that the result surface was stored.
pub open spec fn is_saved(event: FinishEvent) -> bool {
    event matches FinishEvent::Saved(Ok(_))
}

/// A reply acknowledging that the reservation was completed.
pub open spec fn is_completed(event: FinishEvent) -> bool {
    event matches FinishEvent::Completed(Ok(_))
}

/// A reply acknowledging the commit.
pub open spec fn is_committed(event: FinishEvent) -> bool {
    event matches FinishEvent::CommitReturned(Ok(_))
}

/// Whether `events` holds a successful save, then a successful completion, then a
/// successful commit (in that order).
pub open spec fn saved_completed_committed(events: Seq<FinishEvent>) -> bool {
    exists|i: int, j: int, k: int|
        0 <= i < j < k < events.len()
        && #[trigger] is_saved(events[i])
        && #[trigger] is_completed(events[j])
        && #[trigger] is_committed(events[k])
}

/// A write path commits only after its result surface was stored and its reservation
/// completed: finishing from the start ends `Committed` only if the replies hold a
/// successful save, then a successful completion, then a successful commit.
pub proof fn lemma_commit_follows_save_and_complete(style: FinishStyle, events: Seq<FinishEvent>)
    requires
        finish_run(style, FinishPhase::AwaitSave, events) == FinishPhase::Committed,
    ensures
        saved_completed_committed(events),
{
    lemma_finish_progress(style, FinishPhase::AwaitSave, events, Seq::empty());
}

/// Induction for the finishing law: `done` are the replies already consumed.
proof fn lemma_finish_progress(style: FinishStyle, phase: FinishPhase, events: Seq<FinishEvent>, done: Seq<FinishEvent>)
    requires
        finish_progress(phase) >= 0,
        finish_run(style, phase, events) == FinishPhase::Committed,
        finish_progress(phase) >= 1 ==> exists|i: int| 0 <= i < done.len() && is_saved(done[i]),
        finish_progress(phase) >= 2 ==> exists|i: int, j: int| 0 <= i < j < done.len() && is_saved(done[i]) && is_completed(done[j]),
        finish_progress(phase) >= 3 ==> saved_completed_committed(done),
    ensures
        saved_completed_committed(done + events),
    decreases events.len(),
{
    if events.len() == 0 {
        assert(done + events =~= done);
        if phase != FinishPhase::Committed {
            assert(finish_run(style, phase, events) == phase);
        }
    } else {
        let e = events[0];
        let next = finish_next(style, phase, e).0;
        let done2 = done.push(e);
        assert(done2 + events.drop_first() =~= done + events);
        if finish_progress(next) < 0 {
            lemma_failed_stays(style, next, events.drop_first());
        } else {
            if finish_progress(phase) >= 1 {
                let i = choose|i: int| 0 <= i < done.len() && is_saved(done[i]);
                assert(done2[i] == done[i]);
            }
            if finish_progress(phase) >= 2 {
                let (i, j) = choose|i: int, j: int| 0 <= i < j < done.len() && is_saved(done[i]) && is_completed(done[j]);
                assert(done2[i] == done[i] && done2[j] == done[j]);
            }
            if finish_progress(phase) >= 3 {
                let (i, j, k) = choose|i: int, j: int, k: int| 0 <= i < j < k < done.len()
                    && is_saved(done[i]) && is_completed(done[j])
                    && is_committed(done[k]);
                assert(done2[i] == done[i] && done2[j] == done[j] && done2[k] == done[k]);
            }
            if finish_progress(next) > finish_progress(phase) {
                assert(done2[done.len() as int] == e);
                if finish_progress(next) == 1 {
                    assert(phase == FinishPhase::AwaitSave);
                    assert(is_saved(e));
                }
                if finish_progress(next) == 2 {
                    assert(is_completed(e));
                    let i = choose|i: int| 0 <= i < done.len() && is_saved(done[i]);
                    assert(done2[i] == done[i]);
                }
                if finish_progress(next) == 3 {
                    assert(is_committed(e));
                    let (i, j) = choose|i: int, j: int| 0 <= i < j < done.len() && is_saved(done[i]) && is_completed(done[j]);
                    assert(done2[i] == done[i] && done2[j] == done[j]);
                }
            }
            lemma_finish_progress(style, next, events.drop_first(), done2);
        }
    }
}

proof fn lemma_failed_stays(style: FinishStyle, phase: FinishPhase, events: Seq<FinishEvent>)
    requires
        finish_progress(phase) < 0,
    ensures
        finish_run(style, phase, events) != FinishPhase::Committed,
    decreases events.len(),
{
    if events.len() > 0 {
        lemma_failed_stays(style, finish_next(style, phase, events[0]).0, events.drop_first());
    }
}

} // verus!
