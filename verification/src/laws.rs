//! Properties of the Work services that hold across operations and calls.

use vstd::prelude::*;

use crate::consumer::{
    delivery_outcome, promote_route, reservation_step, runtime_promote_answer, screening,
    ConsumerDisposition, InboundReservationStep, RuntimePromoteRoute,
};
use crate::contracts::{IdempotencyResultView, ProjectMemberResponsibilityState, PromoteResultState};
use crate::dependency::{dependency_plan_of, reason_for, DependencyChangeReasonKind, DependencyPlan, DependencyTarget};
use crate::errors::{protocol_error_of, ApplicationError, WorkProtocolError};
use crate::idempotency::IdempotencyReservation;
use crate::iteration::{lifecycle_commitment_of, IterationCommitmentRecord, IterationLifecycleTarget};
use crate::member::{activation_of, responsibility_plan_of, ProjectMemberReasonKind, ResponsibilityPlan, ResponsibilityTarget};
use crate::ports::RepositoryError;
use crate::project::{replayed_project, replayed_backlog};
use crate::promote::{accept_project, request_admitted, reviewable, PromoteResultRecord};
use crate::records::{FormalWorkRecord, ProjectMemberRecord, WorkItemRecord};
use crate::contracts::WorkItemState;
use crate::workitem::{child_parent_of, creation_assignee_of, evidence_step_of, is_terminal, EvidenceStep, WorkLifecycleTarget};
use crate::outbox::WorkOutboxRecord;
use crate::publication::{publication_of, LoadedTruth, WorkOutboundPublication};
use crate::query::DependencyRecord;
use crate::results::{
    duplicate_of, BacklogCommandResult, IterationCommandResult, ProjectCommandResult,
    StoredCommandResult, WorkItemCommandResult,
};
use crate::iteration::replayed_iteration;
use crate::workitem::replayed_work;

verus! {

/// A duplicate request replays the stored project result of its operation unchanged,
/// except that its receipt says it is a replay.
pub proof fn lemma_project_replay_returns_stored_result(operation: Seq<char>, result: ProjectCommandResult)
    requires
        result.receipt.result_ref.operation@ == operation,
    ensures
        replayed_project(operation, Ok(Some(StoredCommandResult::Project(result))))
            == Ok::<ProjectCommandResult, ApplicationError>(ProjectCommandResult { receipt: duplicate_of(result.receipt), ..result }),
        duplicate_of(result.receipt).idempotency == IdempotencyResultView::Duplicate,
        duplicate_of(result.receipt).result_ref == result.receipt.result_ref,
        duplicate_of(result.receipt).outbox_refs == result.receipt.outbox_refs,
        duplicate_of(result.receipt).version == result.receipt.version,
{
}

/// A duplicate request replays the stored formal work result of its operation.
pub proof fn lemma_work_replay_returns_stored_result(operation: Seq<char>, result: WorkItemCommandResult)
    requires
        result.receipt.result_ref.operation@ == operation,
    ensures
        replayed_work(operation, Ok(Some(StoredCommandResult::WorkItem(result))))
            == Ok::<WorkItemCommandResult, ApplicationError>(WorkItemCommandResult { receipt: duplicate_of(result.receipt), ..result }),
{
}

/// A duplicate request replays the stored iteration result of its operation.
pub proof fn lemma_iteration_replay_returns_stored_result(operation: Seq<char>, result: IterationCommandResult)
    requires
        result.receipt.result_ref.operation@ == operation,
    ensures
        replayed_iteration(operation, Ok(Some(StoredCommandResult::Iteration(result))))
            == Ok::<IterationCommandResult, ApplicationError>(IterationCommandResult { receipt: duplicate_of(result.receipt), ..result }),
{
}

/// A stored surface of another operation, or of another kind, is never replayed: the
/// duplicate fails as missing its result, which callers see as a transient failure.
pub proof fn lemma_foreign_or_missing_surface_is_not_replayed(operation: Seq<char>, stored: Option<StoredCommandResult>)
    requires
        match stored {
            Some(StoredCommandResult::Project(result)) => result.receipt.result_ref.operation@ != operation,
            _ => true,
        },
    ensures
        replayed_project(operation, Ok(stored)) == Err::<ProjectCommandResult, ApplicationError>(ApplicationError::DuplicateResultMissing),
        protocol_error_of(ApplicationError::DuplicateResultMissing) == WorkProtocolError::TemporarilyUnavailable,
{
}

/// A backlog operation and a project operation never replay each other's surfaces.
pub proof fn lemma_backlog_replay_ignores_project_surface(operation: Seq<char>, result: ProjectCommandResult)
    ensures
        replayed_backlog(operation, Ok(Some(StoredCommandResult::Project(result))))
            == Err::<BacklogCommandResult, ApplicationError>(ApplicationError::DuplicateResultMissing),
{
}

/// A released member cannot return to active: asking for the active state plans a
/// reactivation, and no released member can be reactivated.
pub proof fn lemma_released_member_cannot_return_to_active(reason_kind: ProjectMemberReasonKind)
    ensures
        responsibility_plan_of(ResponsibilityTarget::Active, reason_kind) == Ok::<ResponsibilityPlan, ApplicationError>(ResponsibilityPlan::Reactivate),
        activation_of(ProjectMemberResponsibilityState::Released) is Err,
        activation_of(ProjectMemberResponsibilityState::Active) is Err,
{
}

/// Once a promote result is accepted or rejected, every further review of it loses with
/// a version conflict: a promotion is decided once.
pub proof fn lemma_decided_promotion_is_not_reviewed_again(record: PromoteResultRecord)
    requires
        record.result_state != PromoteResultState::PendingReview,
    ensures
        reviewable(Ok::<Option<PromoteResultRecord>, RepositoryError>(Some(record)))
            == Err::<PromoteResultRecord, ApplicationError>(ApplicationError::VersionConflict),
{
}

/// A redelivered event whose key completed before is acknowledged as a duplicate and
/// never processed again.
pub proof fn lemma_duplicate_event_is_not_processed(reservation: IdempotencyReservation)
    requires
        reservation is Duplicate,
    ensures
        reservation_step(Ok(reservation)) == InboundReservationStep::Stop(ConsumerDisposition::AckDuplicate),
        !(reservation_step(Ok(reservation)) is Proceed),
{
}

/// Starting an iteration needs its commitment; without one the start is rejected.
pub proof fn lemma_start_requires_commitment()
    ensures
        lifecycle_commitment_of(IterationLifecycleTarget::InProgress, Ok(None))
            == Err::<Option<IterationCommitmentRecord>, ApplicationError>(ApplicationError::DomainRejected),
{
}

/// A dependency moves to a state only with the reason that names that state.
pub proof fn lemma_dependency_change_needs_its_reason(target: DependencyTarget, reason_kind: DependencyChangeReasonKind, evidence_ref: Option<String>)
    requires
        reason_kind != reason_for(target),
    ensures
        dependency_plan_of(target, reason_kind, evidence_ref) == Err::<crate::dependency::DependencyPlan, ApplicationError>(ApplicationError::InvalidRequest),
{
}

/// A valid dependency change plans the move to the state it targets: activating plans
/// an activation, satisfying a satisfaction with the given evidence, waiving a waiver and
/// cancelling a cancellation; a change is valid exactly when its reason names its target
/// and, to satisfy, evidence is given.
pub proof fn lemma_dependency_plan_names_its_target(target: DependencyTarget, reason_kind: DependencyChangeReasonKind, evidence_ref: Option<String>)
    ensures
        ({
            let plan = dependency_plan_of(target, reason_kind, evidence_ref);
            &&& plan is Ok <==> (reason_kind == reason_for(target) && (target != DependencyTarget::Satisfied || evidence_ref is Some))
            &&& plan is Ok ==> (target == DependencyTarget::Active <==> plan->Ok_0 is Activate)
            &&& plan is Ok ==> (target == DependencyTarget::Satisfied <==> plan->Ok_0 is Satisfy)
            &&& plan is Ok ==> (target == DependencyTarget::Waived <==> plan->Ok_0 is Waive)
            &&& plan is Ok ==> (target == DependencyTarget::Cancelled <==> plan->Ok_0 is Cancel)
            &&& plan is Ok && target == DependencyTarget::Satisfied ==> plan->Ok_0 == DependencyPlan::Satisfy(evidence_ref->Some_0)
        }),
{
}

/// A dependency is published in the direction it is stored: the event built from a
/// dependency names its stored upstream work as upstream, its stored downstream work as
/// downstream, and its stored state.
pub proof fn lemma_dependency_published_in_stored_direction(
    record: WorkOutboxRecord,
    dependency: DependencyRecord,
    publication: WorkOutboundPublication,
)
    requires
        publication_of(record, LoadedTruth::Dependency(dependency), publication),
    ensures
        publication is WorkDependencyChanged,
        record.source_ref is Dependency,
        publication->WorkDependencyChanged_0.payload.upstream_work_ref == dependency.upstream_work_ref,
        publication->WorkDependencyChanged_0.payload.downstream_work_ref == dependency.downstream_work_ref,
        publication->WorkDependencyChanged_0.payload.dependency_state == dependency.dependency_state,
        publication->WorkDependencyChanged_0.payload.dependency_ref == record.source_ref->Dependency_0,
{
}

/// Accepted work lands only with an active assignee: a found member yields its own
/// project exactly when its responsibility is active, and a proposed, paused or released
/// member yields `NotFound`.
pub proof fn lemma_accepted_work_needs_an_active_assignee(member: ProjectMemberRecord)
    ensures
        accept_project(Ok(Some(member))) is Ok <==> member.responsibility_state == ProjectMemberResponsibilityState::Active,
        member.responsibility_state == ProjectMemberResponsibilityState::Active
            ==> accept_project(Ok(Some(member))) == Ok::<Seq<char>, ApplicationError>(member.project_id@),
        member.responsibility_state != ProjectMemberResponsibilityState::Active
            ==> accept_project(Ok(Some(member))) == Err::<Seq<char>, ApplicationError>(ApplicationError::NotFound),
{
}

/// A record another run already marked (its version moved on) is reported as a failed
/// reference without failing the job, and is not counted as changed.
pub proof fn lemma_conflicting_mark_is_reported_not_fatal(target: crate::outbox::PublishOneOutcome, outbox_id: Seq<char>)
    ensures
        crate::outbox::mark_result(target, Err(RepositoryError::VersionConflict), Ok(()))
            == Ok::<crate::outbox::PublishOneOutcome, ApplicationError>(crate::outbox::PublishOneOutcome::AlreadyHandled),
        crate::outbox::tally(seq![(outbox_id, crate::outbox::PublishOneOutcome::AlreadyHandled)]) == (0nat, seq![outbox_id]),
{
    let one = seq![(outbox_id, crate::outbox::PublishOneOutcome::AlreadyHandled)];
    assert(one.drop_last() =~= Seq::<(Seq<char>, crate::outbox::PublishOneOutcome)>::empty());
    assert(crate::outbox::tally(one.drop_last()) == (0nat, Seq::<Seq<char>>::empty()));
    assert(one.last() == (outbox_id, crate::outbox::PublishOneOutcome::AlreadyHandled));
    assert(crate::outbox::tally(one).1 =~= seq![outbox_id]);
}

/// A record whose event kind and source disagree is never published: its source is
/// invalid, which marks it failed instead of aborting the page.
pub proof fn lemma_mismatched_source_is_not_published(kind: crate::outbox::WorkOutboxEventKind, source: crate::outbox::WorkOutboxSourceRef)
    requires
        !crate::outbox::source_fits_kind(kind, source),
    ensures
        crate::outbox::is_invalid_source(ApplicationError::InvalidOutboxSource),
        protocol_error_of(ApplicationError::InvalidOutboxSource) == WorkProtocolError::TemporarilyUnavailable,
{
}

/// A retried command replays what its first run stored: when the idempotency store names
/// the key a duplicate and the stored project result of the operation is read back, the
/// reservation ends with that result, its receipt marked as a replay, and never runs the
/// body again.
pub proof fn lemma_retry_replays_first_result(
    style: crate::transaction::ReservationStyle,
    operation: Seq<char>,
    stored: ProjectCommandResult,
    result_ref: crate::contracts::ApplicationResultRef,
)
    requires
        stored.receipt.result_ref.operation@ == operation,
    ensures
        ({
            let replayed = ProjectCommandResult { receipt: duplicate_of(stored.receipt), ..stored };
            let replies = seq![
                crate::transaction::ReserveEvent::<ProjectCommandResult>::Reservation(Ok(IdempotencyReservation::Duplicate(result_ref))),
                crate::transaction::ReserveEvent::<ProjectCommandResult>::RolledBack(Ok(())),
                crate::transaction::ReserveEvent::<ProjectCommandResult>::StoredResult(Ok(Some(replayed))),
            ];
            &&& replayed_project(operation, Ok(Some(StoredCommandResult::Project(stored))))
                == Ok::<ProjectCommandResult, ApplicationError>(replayed)
            &&& crate::transaction::reservation_run(style, crate::transaction::ReservePhase::AwaitReservation, replies)
                == crate::transaction::ReservePhase::<ProjectCommandResult>::Replayed(replayed)
        }),
{
    reveal_with_fuel(crate::transaction::reservation_run, 4);
    let replayed = ProjectCommandResult { receipt: duplicate_of(stored.receipt), ..stored };
    let replies = seq![
        crate::transaction::ReserveEvent::<ProjectCommandResult>::Reservation(Ok(IdempotencyReservation::Duplicate(result_ref))),
        crate::transaction::ReserveEvent::<ProjectCommandResult>::RolledBack(Ok(())),
        crate::transaction::ReserveEvent::<ProjectCommandResult>::StoredResult(Ok(Some(replayed))),
    ];
    assert(replies.drop_first() =~= seq![replies[1], replies[2]]);
    assert(replies.drop_first().drop_first() =~= seq![replies[2]]);
    assert(replies.drop_first().drop_first().drop_first() =~= Seq::<crate::transaction::ReserveEvent<ProjectCommandResult>>::empty());
}

/// An inbound event screened out (an unsupported version or content it cannot be
/// processed with) is dead-lettered whatever the later stages would reply: it is never
/// reserved, processed or completed.
pub proof fn lemma_screened_out_event_is_dead_lettered(
    version_supported: bool,
    content_valid: bool,
    reservation: InboundReservationStep,
    processed: Result<ConsumerDisposition, ConsumerDisposition>,
    complete: Result<(), crate::ports::IdempotencyError>,
    commit: Result<(), crate::ports::UnitOfWorkError>,
)
    requires
        !(version_supported && content_valid),
    ensures
        delivery_outcome(screening(version_supported, content_valid), reservation, processed, complete, commit)
            == ConsumerDisposition::DeadLetter,
{
}

/// Screening lets an event through only when its version is supported and its content
/// valid; every other event is dead-lettered.
pub proof fn lemma_screening_admits_only_supported_valid_events(version_supported: bool, content_valid: bool)
    ensures
        screening(version_supported, content_valid) is None <==> (version_supported && content_valid),
        screening(version_supported, content_valid) is Some
            ==> screening(version_supported, content_valid) == Some(ConsumerDisposition::DeadLetter),
{
}

/// A runtime promote request that is recorded (its source resolved without an external
/// body, or is unknown or refused) is acknowledged with a marker once its steps ran and it
/// was completed; redelivered, the same event is acknowledged as a duplicate.
pub proof fn lemma_recorded_promote_request_is_acked_with_marker(
    resolved: Result<bool, crate::ports::PortError>,
    record: crate::idempotency::IdempotencyRecord,
    result_ref: crate::contracts::ApplicationResultRef,
)
    requires
        promote_route(resolved) == RuntimePromoteRoute::RecordIntake || promote_route(resolved) == RuntimePromoteRoute::RecordUnresolved,
    ensures
        delivery_outcome(
            None,
            reservation_step(Ok(IdempotencyReservation::Reserved(record))),
            Ok(runtime_promote_answer(resolved)),
            Ok(()),
            Ok(()),
        ) == ConsumerDisposition::AckWithMarker,
        delivery_outcome(
            None,
            reservation_step(Ok(IdempotencyReservation::Duplicate(result_ref))),
            Ok(runtime_promote_answer(resolved)),
            Ok(()),
            Ok(()),
        ) == ConsumerDisposition::AckDuplicate,
{
}

/// A runtime promote request is never acknowledged as a change of Work: every answer is
/// a marker, a retry or a dead letter.
pub proof fn lemma_promote_request_never_changes_work(resolved: Result<bool, crate::ports::PortError>)
    ensures
        runtime_promote_answer(resolved) != ConsumerDisposition::Ack,
        runtime_promote_answer(resolved) != ConsumerDisposition::AckDuplicate,
{
}

/// A new promote request for a source is refused while the latest result for that
/// source still waits for review, and admitted when there is none or it was decided.
pub proof fn lemma_promote_request_admitted_once_per_pending_source(latest: Option<PromoteResultRecord>)
    ensures
        latest matches Some(r) && r.result_state == PromoteResultState::PendingReview
            ==> request_admitted(Ok(latest)) == Err::<(), ApplicationError>(ApplicationError::DomainRejected),
        latest is None ==> request_admitted(Ok(latest)) == Ok::<(), ApplicationError>(()),
        latest matches Some(r) && r.result_state != PromoteResultState::PendingReview
            ==> request_admitted(Ok(latest)) == Ok::<(), ApplicationError>(()),
{
}

/// A promote result is reviewed at most once: a pending result can be reviewed, any
/// decided one is answered with a version conflict.
pub proof fn lemma_only_pending_promotion_is_reviewed(record: PromoteResultRecord)
    ensures
        reviewable(Ok(Some(record))) is Ok <==> record.result_state == PromoteResultState::PendingReview,
        reviewable(Ok(Some(record))) is Ok ==> reviewable(Ok(Some(record))) == Ok::<PromoteResultRecord, ApplicationError>(record),
        record.result_state != PromoteResultState::PendingReview
            ==> reviewable(Ok(Some(record))) == Err::<PromoteResultRecord, ApplicationError>(ApplicationError::VersionConflict),
{
}

/// New work is assigned only to an active member of the work's own project; any other
/// member is not found.
pub proof fn lemma_new_work_needs_active_assignee_of_its_project(member: ProjectMemberRecord, project_id: Seq<char>)
    ensures
        creation_assignee_of(Ok(Some(member)), project_id) is Ok
            <==> (member.project_id@ == project_id && member.responsibility_state == ProjectMemberResponsibilityState::Active),
        !(member.project_id@ == project_id && member.responsibility_state == ProjectMemberResponsibilityState::Active)
            ==> creation_assignee_of(Ok(Some(member)), project_id) == Err::<ProjectMemberRecord, ApplicationError>(ApplicationError::NotFound),
{
}

/// Completed, cancelled and superseded work is terminal; formalized, committed and
/// in-progress work is not.
/// A child hangs only from a root work item that is not terminal.
pub proof fn lemma_children_hang_from_open_root_items(parent: FormalWorkRecord)
    ensures
        is_terminal(WorkItemState::Completed) && is_terminal(WorkItemState::Cancelled) && is_terminal(WorkItemState::Superseded),
        !is_terminal(WorkItemState::Formalized) && !is_terminal(WorkItemState::Committed) && !is_terminal(WorkItemState::InProgress),
        child_parent_of(parent) is Ok <==> (parent matches FormalWorkRecord::WorkItem(item)
            && item.work_state != WorkItemState::Completed
            && item.work_state != WorkItemState::Cancelled
            && item.work_state != WorkItemState::Superseded),
        child_parent_of(parent) is Err ==> child_parent_of(parent) == Err::<WorkItemRecord, ApplicationError>(ApplicationError::DomainRejected),
{
}

/// Completing work needs evidence, which is resolved before the transition; other
/// lifecycle targets pass on whatever evidence was given.
pub proof fn lemma_completion_needs_evidence(target: WorkLifecycleTarget, evidence_ref: Option<String>)
    ensures
        target == WorkLifecycleTarget::Completed && evidence_ref is None
            ==> evidence_step_of(target, evidence_ref) == Err::<EvidenceStep, ApplicationError>(ApplicationError::InvalidRequest),
        target == WorkLifecycleTarget::Completed && evidence_ref is Some
            ==> evidence_step_of(target, evidence_ref) == Ok::<EvidenceStep, ApplicationError>(EvidenceStep::Resolve(evidence_ref->Some_0)),
        target != WorkLifecycleTarget::Completed
            ==> evidence_step_of(target, evidence_ref) == Ok::<EvidenceStep, ApplicationError>(EvidenceStep::PassThrough(evidence_ref)),
{
}

/// Only a fresh reservation lets an inbound event be processed: a duplicate is
/// acknowledged as one, a digest conflict or an idempotency conflict is dead-lettered,
/// and a failing idempotency store asks for redelivery.
pub proof fn lemma_only_reserved_event_is_processed(reply: Result<IdempotencyReservation, crate::ports::IdempotencyError>)
    ensures
        reservation_step(reply) is Proceed <==> (reply matches Ok(IdempotencyReservation::Reserved(_))),
        reply matches Ok(IdempotencyReservation::Duplicate(_))
            ==> reservation_step(reply) == InboundReservationStep::Stop(ConsumerDisposition::AckDuplicate),
        reply == Err::<IdempotencyReservation, crate::ports::IdempotencyError>(crate::ports::IdempotencyError::Conflict)
            ==> reservation_step(reply) == InboundReservationStep::Stop(ConsumerDisposition::DeadLetter),
        reply matches Err(e) && e != crate::ports::IdempotencyError::Conflict
            ==> reservation_step(reply) == InboundReservationStep::Stop(ConsumerDisposition::Retry),
{
}

/// A processed event is answered as its processing decided only once its reservation was
/// completed and its transaction committed; if either failed, it is delivered again.
pub proof fn lemma_processed_event_answers_after_commit(
    reservation: IdempotencyReservation,
    disposition: ConsumerDisposition,
    complete: Result<(), crate::ports::IdempotencyError>,
    commit: Result<(), crate::ports::UnitOfWorkError>,
)
    ensures
        complete is Ok && commit is Ok ==> delivery_outcome(None, InboundReservationStep::Proceed(reservation), Ok(disposition), complete, commit)
            == disposition,
        complete is Err || commit is Err ==> delivery_outcome(None, InboundReservationStep::Proceed(reservation), Ok(disposition), complete, commit)
            == ConsumerDisposition::Retry,
{
}

/// A runtime promote request whose source carries an external body, or whose lookup
/// answered nonsense, is dead-lettered; an unavailable lookup asks for redelivery; any
/// other request is recorded and acknowledged with a marker.
pub proof fn lemma_runtime_promote_answers(resolved: Result<bool, crate::ports::PortError>)
    ensures
        resolved == Ok::<bool, crate::ports::PortError>(true) ==> runtime_promote_answer(resolved) == ConsumerDisposition::DeadLetter,
        resolved == Ok::<bool, crate::ports::PortError>(false) ==> runtime_promote_answer(resolved) == ConsumerDisposition::AckWithMarker,
        resolved == Err::<bool, crate::ports::PortError>(crate::ports::PortError::NotFound)
            ==> runtime_promote_answer(resolved) == ConsumerDisposition::AckWithMarker,
        resolved == Err::<bool, crate::ports::PortError>(crate::ports::PortError::Rejected)
            ==> runtime_promote_answer(resolved) == ConsumerDisposition::AckWithMarker,
        resolved == Err::<bool, crate::ports::PortError>(crate::ports::PortError::Unavailable)
            ==> runtime_promote_answer(resolved) == ConsumerDisposition::Retry,
        resolved == Err::<bool, crate::ports::PortError>(crate::ports::PortError::InvalidResponse)
            ==> runtime_promote_answer(resolved) == ConsumerDisposition::DeadLetter,
{
}

} // verus!
