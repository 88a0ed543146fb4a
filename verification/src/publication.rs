//! Outbound publications: the payload of each event kind, rebuilt from the committed
//! truth that backs an outbox record, inside the envelope the publisher sends.

use vstd::prelude::*;

use crate::contracts::{
    BacklogRef, BacklogState, BlockerState, DependencyState, DerivedFreshnessState,
    DerivedWorkViewRef, FormalWorkRef, IterationState, ProjectLifecycleState,
    ProjectMemberRef, ProjectMemberResponsibilityState, ProjectRef, PromoteResultState,
};
use crate::errors::ApplicationError;
use crate::iteration::IterationCommitmentRecord;
use crate::ops::DerivedWorkViewState;
use crate::outbox::{
    iteration_payload_of, source_fits_kind, work_item_payload_of, IterationChangedEvent, WorkItemChangedEvent, WorkOutboundEventEnvelope,
    WorkOutboxEventKind, WorkOutboxRecord, WorkOutboxSourceRef,
};
use crate::promote::PromoteResultRecord;
use crate::query::{BlockerRecord, DependencyRecord};
use crate::records::{BacklogRecord, FormalWorkRecord, FormalWorkScope, ProjectMemberRecord, ProjectRecord};
use crate::references::ExternalReferenceRef;

verus! {

/// A project changed: its lifecycle state and the reason of the change.
#[derive(Clone, Debug)]
pub struct ProjectChangedEvent {
    pub project_ref: ProjectRef,
    pub lifecycle_state: ProjectLifecycleState,
    pub reason: String,
}

/// A backlog changed: its project, its availability and the reason of the change.
#[derive(Clone, Debug)]
pub struct BacklogChangedEvent {
    pub backlog_ref: BacklogRef,
    pub project_ref: ProjectRef,
    pub backlog_state: BacklogState,
    pub reason: String,
}

/// A project member responsibility changed.
#[derive(Clone, Debug)]
pub struct ProjectMemberChangedEvent {
    pub project_member_ref: ProjectMemberRef,
    pub project_ref: ProjectRef,
    /// The global member holding the responsibility.
    pub member_ref: String,
    pub responsibility_state: ProjectMemberResponsibilityState,
}

/// A promote result was recorded or decided.
#[derive(Clone, Debug)]
pub struct PromoteResultRecordedEvent {
    pub promote_result_ref: String,
    pub source_ref: ExternalReferenceRef,
    pub result_state: PromoteResultState,
    pub created_work_ref: Option<FormalWorkRef>,
}

/// A dependency between two formal work records changed.
#[derive(Clone, Debug)]
pub struct WorkDependencyChangedEvent {
    pub dependency_ref: String,
    pub upstream_work_ref: FormalWorkRef,
    pub downstream_work_ref: FormalWorkRef,
    pub dependency_state: DependencyState,
}

/// A blocker changed, with the evidence it was resolved with.
#[derive(Clone, Debug)]
pub struct WorkBlockerChangedEvent {
    pub blocker_ref: String,
    pub blocked_work_ref: FormalWorkRef,
    pub blocker_state: BlockerState,
    pub evidence_ref: Option<String>,
}

/// A trace record was handed off and can be read.
#[derive(Clone, Debug)]
pub struct WorkTraceAvailableEvent {
    pub subject_ref: String,
    pub trace_id: String,
    pub handoff_ref: Option<String>,
}

/// A derived view changed freshness.
#[derive(Clone, Debug)]
pub struct DerivedWorkViewChangedEvent {
    pub view_ref: DerivedWorkViewRef,
    pub freshness_state: DerivedFreshnessState,
    pub source_cursor: String,
}

/// A stored trace record: its id and the subject it traces.
#[derive(Clone, Debug)]
pub struct WorkTraceRecord {
    pub trace_id: String,
    pub subject_ref: String,
}

/// One outbound publication, by event kind.
#[derive(Clone, Debug)]
pub enum WorkOutboundPublication {
    ProjectChanged(WorkOutboundEventEnvelope<ProjectChangedEvent>),
    BacklogChanged(WorkOutboundEventEnvelope<BacklogChangedEvent>),
    ProjectMemberChanged(WorkOutboundEventEnvelope<ProjectMemberChangedEvent>),
    WorkItemChanged(WorkOutboundEventEnvelope<WorkItemChangedEvent>),
    PromoteResultRecorded(WorkOutboundEventEnvelope<PromoteResultRecordedEvent>),
    WorkDependencyChanged(WorkOutboundEventEnvelope<WorkDependencyChangedEvent>),
    WorkBlockerChanged(WorkOutboundEventEnvelope<WorkBlockerChangedEvent>),
    IterationChanged(WorkOutboundEventEnvelope<IterationChangedEvent>),
    WorkTraceAvailable(WorkOutboundEventEnvelope<WorkTraceAvailableEvent>),
    DerivedWorkViewChanged(WorkOutboundEventEnvelope<DerivedWorkViewChangedEvent>),
}

/// The committed truth read for one outbox record (the read `lookup_for` names).
#[derive(Clone, Debug)]
pub enum LoadedTruth {
    Project(ProjectRecord),
    Backlog(BacklogRecord),
    ProjectMember(ProjectMemberRecord),
    FormalWork(FormalWorkRecord, FormalWorkScope),
    PromoteResult(PromoteResultRecord),
    Dependency(DependencyRecord),
    Blocker(BlockerRecord),
    /// The iteration's project and state, with its commitment when there is one.
    Iteration { project_id: String, iteration_state: IterationState, commitment: Option<IterationCommitmentRecord> },
    TraceRecord(WorkTraceRecord),
    Freshness(DerivedWorkViewState),
}

/// Whether the truth read is of the kind the source names.
pub open spec fn truth_fits_source(source: WorkOutboxSourceRef, truth: LoadedTruth) -> bool {
    match (source, truth) {
        (WorkOutboxSourceRef::Project { .. }, LoadedTruth::Project(_)) => true,
        (WorkOutboxSourceRef::Backlog { .. }, LoadedTruth::Backlog(_)) => true,
        (WorkOutboxSourceRef::ProjectMember(_), LoadedTruth::ProjectMember(_)) => true,
        (WorkOutboxSourceRef::FormalWork(_), LoadedTruth::FormalWork(_, _)) => true,
        (WorkOutboxSourceRef::PromoteResult(_), LoadedTruth::PromoteResult(_)) => true,
        (WorkOutboxSourceRef::Dependency(_), LoadedTruth::Dependency(_)) => true,
        (WorkOutboxSourceRef::Blocker(_), LoadedTruth::Blocker(_)) => true,
        (WorkOutboxSourceRef::Iteration(_), LoadedTruth::Iteration { .. }) => true,
        (WorkOutboxSourceRef::TraceAvailable { .. }, LoadedTruth::TraceRecord(_)) => true,
        (WorkOutboxSourceRef::DerivedView(_), LoadedTruth::Freshness(_)) => true,
        _ => false,
    }
}

/// The envelope of a record around some payload: the record's id, trace context and
/// time, at schema version `v1`.
pub open spec fn wraps<T>(e: WorkOutboundEventEnvelope<T>, record: WorkOutboxRecord) -> bool {
    &&& e.outbox_id == record.outbox_id
    &&& e.event_version@ == "v1"@
    &&& e.trace_context_ref == record.trace_context_ref
    &&& e.occurred_at == record.occurred_at
}

/// Whether a publication is the one a record and the truth read for it make: its kind
/// is the record's, its envelope the record's, its payload built from that truth.
pub open spec fn publication_of(record: WorkOutboxRecord, truth: LoadedTruth, p: WorkOutboundPublication) -> bool {
    match (record.source_ref, truth, p) {
        (WorkOutboxSourceRef::Project { reason, .. }, LoadedTruth::Project(project), WorkOutboundPublication::ProjectChanged(e)) => {
            &&& wraps(e, record)
            &&& e.payload == (ProjectChangedEvent {
                project_ref: project.project_ref,
                lifecycle_state: project.lifecycle_state,
                reason,
            })
        },
        (WorkOutboxSourceRef::Backlog { reason, .. }, LoadedTruth::Backlog(backlog), WorkOutboundPublication::BacklogChanged(e)) => {
            &&& wraps(e, record)
            &&& e.payload.backlog_ref == backlog.backlog_ref
            &&& e.payload.project_ref.project_id == backlog.project_id
            &&& e.payload.backlog_state == backlog.backlog_state
            &&& e.payload.reason == reason
        },
        (WorkOutboxSourceRef::ProjectMember(_), LoadedTruth::ProjectMember(member), WorkOutboundPublication::ProjectMemberChanged(e)) => {
            &&& wraps(e, record)
            &&& e.payload.project_member_ref == member.project_member_ref
            &&& e.payload.project_ref.project_id == member.project_id
            &&& e.payload.member_ref == member.member_id
            &&& e.payload.responsibility_state == member.responsibility_state
        },
        (WorkOutboxSourceRef::FormalWork(_), LoadedTruth::FormalWork(work, scope), WorkOutboundPublication::WorkItemChanged(e)) => {
            wraps(e, record) && work_item_payload_of(e.payload, work, scope)
        },
        (WorkOutboxSourceRef::PromoteResult(_), LoadedTruth::PromoteResult(result), WorkOutboundPublication::PromoteResultRecorded(e)) => {
            &&& wraps(e, record)
            &&& e.payload == (PromoteResultRecordedEvent {
                promote_result_ref: result.promote_result_id,
                source_ref: result.source_ref,
                result_state: result.result_state,
                created_work_ref: result.created_work_ref,
            })
        },
        (WorkOutboxSourceRef::Dependency(id), LoadedTruth::Dependency(dependency), WorkOutboundPublication::WorkDependencyChanged(e)) => {
            &&& wraps(e, record)
            &&& e.payload == (WorkDependencyChangedEvent {
                dependency_ref: id,
                upstream_work_ref: dependency.upstream_work_ref,
                downstream_work_ref: dependency.downstream_work_ref,
                dependency_state: dependency.dependency_state,
            })
        },
        (WorkOutboxSourceRef::Blocker(id), LoadedTruth::Blocker(blocker), WorkOutboundPublication::WorkBlockerChanged(e)) => {
            &&& wraps(e, record)
            &&& e.payload == (WorkBlockerChangedEvent {
                blocker_ref: id,
                blocked_work_ref: blocker.blocked_work_ref,
                blocker_state: blocker.blocker_state,
                evidence_ref: blocker.resolved_evidence_ref,
            })
        },
        (WorkOutboxSourceRef::Iteration(iteration_ref), LoadedTruth::Iteration { project_id, iteration_state, commitment }, WorkOutboundPublication::IterationChanged(e)) => {
            wraps(e, record) && iteration_payload_of(e.payload, iteration_ref, project_id, iteration_state, commitment)
        },
        (WorkOutboxSourceRef::TraceAvailable { handoff_ref, .. }, LoadedTruth::TraceRecord(trace), WorkOutboundPublication::WorkTraceAvailable(e)) => {
            &&& wraps(e, record)
            &&& e.payload == (WorkTraceAvailableEvent { subject_ref: trace.subject_ref, trace_id: trace.trace_id, handoff_ref })
        },
        (WorkOutboxSourceRef::DerivedView(_), LoadedTruth::Freshness(state), WorkOutboundPublication::DerivedWorkViewChanged(e)) => {
            &&& wraps(e, record)
            &&& e.payload == (DerivedWorkViewChangedEvent {
                view_ref: state.view_ref,
                freshness_state: state.freshness_state,
                source_cursor: state.source_cursor,
            })
        },
        _ => false,
    }
}

/// Whether an event kind and a source reference belong together.
fn kind_fits_source(kind: WorkOutboxEventKind, source: &WorkOutboxSourceRef) -> (r: bool)
    ensures
        r == source_fits_kind(kind, *source),
{
    match source {
        WorkOutboxSourceRef::Project { .. } => kind == WorkOutboxEventKind::ProjectChanged,
        WorkOutboxSourceRef::Backlog { .. } => kind == WorkOutboxEventKind::BacklogChanged,
        WorkOutboxSourceRef::ProjectMember(_) => kind == WorkOutboxEventKind::ProjectMemberChanged,
        WorkOutboxSourceRef::FormalWork(_) => kind == WorkOutboxEventKind::WorkItemChanged,
        WorkOutboxSourceRef::PromoteResult(_) => kind == WorkOutboxEventKind::PromoteResultRecorded,
        WorkOutboxSourceRef::Dependency(_) => kind == WorkOutboxEventKind::WorkDependencyChanged,
        WorkOutboxSourceRef::Blocker(_) => kind == WorkOutboxEventKind::WorkBlockerChanged,
        WorkOutboxSourceRef::Iteration(_) => kind == WorkOutboxEventKind::IterationChanged,
        WorkOutboxSourceRef::TraceAvailable { .. } => kind == WorkOutboxEventKind::WorkTraceAvailable,
        WorkOutboxSourceRef::DerivedView(_) => kind == WorkOutboxEventKind::DerivedWorkViewChanged,
    }
}

/// The envelope of a record's parts around a payload.
fn wrap<T>(outbox_id: String, trace_context_ref: String, occurred_at: String, payload: T) -> (r: WorkOutboundEventEnvelope<T>)
    ensures
        r.outbox_id == outbox_id,
        r.event_version@ == "v1"@,
        r.trace_context_ref == trace_context_ref,
        r.occurred_at == occurred_at,
        r.payload == payload,
{
    WorkOutboundEventEnvelope { outbox_id, event_version: String::from_str("v1"), trace_context_ref, occurred_at, payload }
}

/// Builds the publication of an outbox record from the committed truth read for it. A
/// record whose event kind and source disagree, or whose truth is not of the kind its
/// source names, cannot be published.
pub fn build_publication(record: WorkOutboxRecord, truth: LoadedTruth) -> (r: Result<WorkOutboundPublication, ApplicationError>)
    ensures
        source_fits_kind(record.event_kind, record.source_ref) && truth_fits_source(record.source_ref, truth)
            ==> r is Ok && publication_of(record, truth, r->Ok_0),
        !(source_fits_kind(record.event_kind, record.source_ref) && truth_fits_source(record.source_ref, truth))
            ==> r == Err::<WorkOutboundPublication, ApplicationError>(ApplicationError::InvalidOutboxSource),
        // A project change names the stored project and lifecycle state, and the record's reason.
        record.event_kind == WorkOutboxEventKind::ProjectChanged && record.source_ref is Project && truth is Project
            ==> (r matches Ok(WorkOutboundPublication::ProjectChanged(e))
                && e.payload.project_ref == truth->Project_0.project_ref
                && e.payload.lifecycle_state == truth->Project_0.lifecycle_state
                && e.payload.reason == record.source_ref->Project_reason
                && e.outbox_id == record.outbox_id),
        // A backlog change names the stored backlog, its project and state, and the record's reason.
        record.event_kind == WorkOutboxEventKind::BacklogChanged && record.source_ref is Backlog && truth is Backlog
            ==> (r matches Ok(WorkOutboundPublication::BacklogChanged(e))
                && e.payload.backlog_ref == truth->Backlog_0.backlog_ref
                && e.payload.project_ref.project_id == truth->Backlog_0.project_id
                && e.payload.backlog_state == truth->Backlog_0.backlog_state
                && e.payload.reason == record.source_ref->Backlog_reason
                && e.outbox_id == record.outbox_id),
        // A work change names the stored work, the project of its scope and its stored state.
        record.event_kind == WorkOutboxEventKind::WorkItemChanged && record.source_ref is FormalWork && truth is FormalWork
            ==> (r matches Ok(WorkOutboundPublication::WorkItemChanged(e))
                && e.payload.work_ref@ == crate::records::record_ref(truth->FormalWork_0)
                && e.payload.project_ref == truth->FormalWork_1.project_ref
                && e.payload.work_state == crate::records::record_state(truth->FormalWork_0)
                && e.outbox_id == record.outbox_id),
        // An iteration change names the record's iteration and the stored project and state.
        record.event_kind == WorkOutboxEventKind::IterationChanged && record.source_ref is Iteration && truth is Iteration
            ==> (r matches Ok(WorkOutboundPublication::IterationChanged(e))
                && e.payload.iteration_ref == record.source_ref->Iteration_0
                && e.payload.project_ref.project_id == truth->project_id
                && e.payload.iteration_state == truth->iteration_state
                && e.outbox_id == record.outbox_id),
        // A trace announcement names the stored trace and its subject, and the record's handoff.
        record.event_kind == WorkOutboxEventKind::WorkTraceAvailable && record.source_ref is TraceAvailable && truth is TraceRecord
            ==> (r matches Ok(WorkOutboundPublication::WorkTraceAvailable(e))
                && e.payload.trace_id == truth->TraceRecord_0.trace_id
                && e.payload.subject_ref == truth->TraceRecord_0.subject_ref
                && e.payload.handoff_ref == record.source_ref->handoff_ref
                && e.outbox_id == record.outbox_id),
        // A derived view change names the stored view, freshness and cursor.
        record.event_kind == WorkOutboxEventKind::DerivedWorkViewChanged && record.source_ref is DerivedView && truth is Freshness
            ==> (r matches Ok(WorkOutboundPublication::DerivedWorkViewChanged(e))
                && e.payload.view_ref == truth->Freshness_0.view_ref
                && e.payload.freshness_state == truth->Freshness_0.freshness_state
                && e.payload.source_cursor == truth->Freshness_0.source_cursor
                && e.outbox_id == record.outbox_id),
        // A dependency is announced in its stored direction, in its stored state.
        record.event_kind == WorkOutboxEventKind::WorkDependencyChanged && record.source_ref is Dependency && truth is Dependency
            ==> (r matches Ok(WorkOutboundPublication::WorkDependencyChanged(e))
                && e.payload.dependency_ref == record.source_ref->Dependency_0
                && e.payload.upstream_work_ref == truth->Dependency_0.upstream_work_ref
                && e.payload.downstream_work_ref == truth->Dependency_0.downstream_work_ref
                && e.payload.dependency_state == truth->Dependency_0.dependency_state
                && e.outbox_id == record.outbox_id),
        // A blocker is announced on the work it blocks, with its stored state and evidence.
        record.event_kind == WorkOutboxEventKind::WorkBlockerChanged && record.source_ref is Blocker && truth is Blocker
            ==> (r matches Ok(WorkOutboundPublication::WorkBlockerChanged(e))
                && e.payload.blocker_ref == record.source_ref->Blocker_0
                && e.payload.blocked_work_ref == truth->Blocker_0.blocked_work_ref
                && e.payload.blocker_state == truth->Blocker_0.blocker_state
                && e.payload.evidence_ref == truth->Blocker_0.resolved_evidence_ref
                && e.outbox_id == record.outbox_id),
        // A member change names the stored project, member and responsibility state.
        record.event_kind == WorkOutboxEventKind::ProjectMemberChanged && record.source_ref is ProjectMember && truth is ProjectMember
            ==> (r matches Ok(WorkOutboundPublication::ProjectMemberChanged(e))
                && e.payload.project_member_ref == truth->ProjectMember_0.project_member_ref
                && e.payload.project_ref.project_id == truth->ProjectMember_0.project_id
                && e.payload.member_ref == truth->ProjectMember_0.member_id
                && e.payload.responsibility_state == truth->ProjectMember_0.responsibility_state
                && e.outbox_id == record.outbox_id),
        // A promote result is announced with its stored state and created work.
        record.event_kind == WorkOutboxEventKind::PromoteResultRecorded && record.source_ref is PromoteResult && truth is PromoteResult
            ==> (r matches Ok(WorkOutboundPublication::PromoteResultRecorded(e))
                && e.payload.promote_result_ref == truth->PromoteResult_0.promote_result_id
                && e.payload.source_ref == truth->PromoteResult_0.source_ref
                && e.payload.result_state == truth->PromoteResult_0.result_state
                && e.payload.created_work_ref == truth->PromoteResult_0.created_work_ref
                && e.outbox_id == record.outbox_id),
{
    let ghost original = record;
    if !kind_fits_source(record.event_kind, &record.source_ref) {
        return Err(ApplicationError::InvalidOutboxSource);
    }
    let WorkOutboxRecord { outbox_id, event_kind: _, source_ref, trace_context_ref, occurred_at } = record;
    match (source_ref, truth) {
        (WorkOutboxSourceRef::Project { reason, .. }, LoadedTruth::Project(project)) => {
            let payload = ProjectChangedEvent { project_ref: project.project_ref, lifecycle_state: project.lifecycle_state, reason };
            Ok(WorkOutboundPublication::ProjectChanged(wrap(outbox_id, trace_context_ref, occurred_at, payload)))
        },
        (WorkOutboxSourceRef::Backlog { reason, .. }, LoadedTruth::Backlog(backlog)) => {
            let payload = BacklogChangedEvent {
                backlog_ref: backlog.backlog_ref,
                project_ref: ProjectRef { project_id: backlog.project_id },
                backlog_state: backlog.backlog_state,
                reason,
            };
            Ok(WorkOutboundPublication::BacklogChanged(wrap(outbox_id, trace_context_ref, occurred_at, payload)))
        },
        (WorkOutboxSourceRef::ProjectMember(_), LoadedTruth::ProjectMember(member)) => {
            let payload = ProjectMemberChangedEvent {
                project_member_ref: member.project_member_ref,
                project_ref: ProjectRef { project_id: member.project_id },
                member_ref: member.member_id,
                responsibility_state: member.responsibility_state,
            };
            Ok(WorkOutboundPublication::ProjectMemberChanged(wrap(outbox_id, trace_context_ref, occurred_at, payload)))
        },
        (WorkOutboxSourceRef::FormalWork(_), LoadedTruth::FormalWork(work, scope)) => {
            let payload = crate::outbox::work_item_changed_payload(work, scope);
            Ok(WorkOutboundPublication::WorkItemChanged(wrap(outbox_id, trace_context_ref, occurred_at, payload)))
        },
        (WorkOutboxSourceRef::PromoteResult(_), LoadedTruth::PromoteResult(result)) => {
            let payload = PromoteResultRecordedEvent {
                promote_result_ref: result.promote_result_id,
                source_ref: result.source_ref,
                result_state: result.result_state,
                created_work_ref: result.created_work_ref,
            };
            Ok(WorkOutboundPublication::PromoteResultRecorded(wrap(outbox_id, trace_context_ref, occurred_at, payload)))
        },
        (WorkOutboxSourceRef::Dependency(id), LoadedTruth::Dependency(dependency)) => {
            let payload = WorkDependencyChangedEvent {
                dependency_ref: id,
                upstream_work_ref: dependency.upstream_work_ref,
                downstream_work_ref: dependency.downstream_work_ref,
                dependency_state: dependency.dependency_state,
            };
            Ok(WorkOutboundPublication::WorkDependencyChanged(wrap(outbox_id, trace_context_ref, occurred_at, payload)))
        },
        (WorkOutboxSourceRef::Blocker(id), LoadedTruth::Blocker(blocker)) => {
            let payload = WorkBlockerChangedEvent {
                blocker_ref: id,
                blocked_work_ref: blocker.blocked_work_ref,
                blocker_state: blocker.blocker_state,
                evidence_ref: blocker.resolved_evidence_ref,
            };
            Ok(WorkOutboundPublication::WorkBlockerChanged(wrap(outbox_id, trace_context_ref, occurred_at, payload)))
        },
        (WorkOutboxSourceRef::Iteration(iteration_ref), LoadedTruth::Iteration { project_id, iteration_state, commitment }) => {
            let payload = crate::outbox::iteration_changed_payload(iteration_ref, project_id, iteration_state, commitment);
            Ok(WorkOutboundPublication::IterationChanged(wrap(outbox_id, trace_context_ref, occurred_at, payload)))
        },
        (WorkOutboxSourceRef::TraceAvailable { handoff_ref, .. }, LoadedTruth::TraceRecord(trace)) => {
            let payload = WorkTraceAvailableEvent { subject_ref: trace.subject_ref, trace_id: trace.trace_id, handoff_ref };
            Ok(WorkOutboundPublication::WorkTraceAvailable(wrap(outbox_id, trace_context_ref, occurred_at, payload)))
        },
        (WorkOutboxSourceRef::DerivedView(_), LoadedTruth::Freshness(state)) => {
            let payload = DerivedWorkViewChangedEvent {
                view_ref: state.view_ref,
                freshness_state: state.freshness_state,
                source_cursor: state.source_cursor,
            };
            Ok(WorkOutboundPublication::DerivedWorkViewChanged(wrap(outbox_id, trace_context_ref, occurred_at, payload)))
        },
        _ => Err(ApplicationError::InvalidOutboxSource),
    }
}

} // verus!
