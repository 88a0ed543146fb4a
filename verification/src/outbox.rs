//! Outbox publication: which committed truth backs each pending outbox record, how a
//! publisher reply is recorded, and how one publication job tallies its page.

use vstd::prelude::*;

use crate::contracts::{
    BacklogRef, DerivedWorkViewRef, FormalWorkRef, IterationRef, ProjectMemberRef, ProjectRef,
    WorkCommandReceipt,
};
use crate::errors::ApplicationError;
use crate::ports::{
    after_rollback, commit_failure, idempotency_failure, port_failure_outbox, repository_failure,
    IdempotencyError, PortError, RepositoryError, UnitOfWorkError,
};

verus! {

/// The kind of outbound event an outbox record announces.
#[derive(Clone, Copy, Debug, PartialEq, Eq, Structural)]
pub enum WorkOutboxEventKind {
    ProjectChanged,
    BacklogChanged,
    ProjectMemberChanged,
    WorkItemChanged,
    PromoteResultRecorded,
    WorkDependencyChanged,
    WorkBlockerChanged,
    IterationChanged,
    WorkTraceAvailable,
    DerivedWorkViewChanged,
}

/// The committed truth an outbox record was written for.
#[derive(Clone, Debug)]
pub enum WorkOutboxSourceRef {
    /// A project change, with the reason the change was made for.
    Project { project_ref: ProjectRef, reason: String },
    /// A backlog change, with the reason the change was made for.
    Backlog { backlog_ref: BacklogRef, reason: String },
    ProjectMember(ProjectMemberRef),
    FormalWork(FormalWorkRef),
    PromoteResult(String),
    Dependency(String),
    Blocker(String),
    Iteration(IterationRef),
    TraceAvailable { trace_id: String, handoff_ref: Option<String> },
    DerivedView(DerivedWorkViewRef),
}

/// The repository read that rebuilds a publication payload from committed truth.
#[derive(Clone, Debug)]
pub enum SourceLookup {
    /// Load the project.
    Project(ProjectRef),
    /// Load the backlog.
    Backlog(BacklogRef),
    /// Load the project member.
    ProjectMember(ProjectMemberRef),
    /// Load the formal work record and its scope.
    FormalWork(FormalWorkRef),
    /// Load the promote result.
    PromoteResult(String),
    /// Load the dependency.
    Dependency(String),
    /// Load the blocker.
    Blocker(String),
    /// Load the iteration and, when present, its commitment.
    Iteration(IterationRef),
    /// Load the trace record; the handoff reference is carried into the event.
    TraceRecord { trace_id: String, handoff_ref: Option<String> },
    /// Load the freshness state of the view.
    Freshness(DerivedWorkViewRef),
}

/// Whether an event kind and a source reference belong together.
pub open spec fn source_fits_kind(kind: WorkOutboxEventKind, source: WorkOutboxSourceRef) -> bool {
    match source {
        WorkOutboxSourceRef::Project { .. } => kind == WorkOutboxEventKind::ProjectChanged,
        WorkOutboxSourceRef::Backlog { .. } => kind == WorkOutboxEventKind::BacklogChanged,
        WorkOutboxSourceRef::ProjectMember(_) => kind == WorkOutboxEventKind::ProjectMemberChanged,
        WorkOutboxSourceRef::FormalWork(_) => kind == WorkOutboxEventKind::WorkItemChanged,
        WorkOutboxSourceRef::PromoteResult(_) => kind == WorkOutboxEventKind::PromoteResultRecorded,
        WorkOutboxSourceRef::Dependency(_) => kind == WorkOutboxEventKind::WorkDependencyChanged,
        WorkOutboxSourceRef::Blocker(_) => kind == WorkOutboxEventKind::WorkBlockerChanged,
        WorkOutboxSourceRef::Iteration(_) => kind == WorkOutboxEventKind::IterationChanged,
        WorkOutboxSourceRef::TraceAvailable { .. } => kind == WorkOutboxEventKind::WorkTraceAvailable,
        WorkOutboxSourceRef::DerivedView(_) => kind == WorkOutboxEventKind::DerivedWorkViewChanged,
    }
}

/// The read that backs a source (the read carries the same references as the source;
/// a change reason travels in the record, not in the read).
pub open spec fn lookup_for(source: WorkOutboxSourceRef) -> SourceLookup {
    match source {
        WorkOutboxSourceRef::Project { project_ref, .. } => SourceLookup::Project(project_ref),
        WorkOutboxSourceRef::Backlog { backlog_ref, .. } => SourceLookup::Backlog(backlog_ref),
        WorkOutboxSourceRef::ProjectMember(r) => SourceLookup::ProjectMember(r),
        WorkOutboxSourceRef::FormalWork(r) => SourceLookup::FormalWork(r),
        WorkOutboxSourceRef::PromoteResult(r) => SourceLookup::PromoteResult(r),
        WorkOutboxSourceRef::Dependency(r) => SourceLookup::Dependency(r),
        WorkOutboxSourceRef::Blocker(r) => SourceLookup::Blocker(r),
        WorkOutboxSourceRef::Iteration(r) => SourceLookup::Iteration(r),
        WorkOutboxSourceRef::TraceAvailable { trace_id, handoff_ref } => SourceLookup::TraceRecord { trace_id, handoff_ref },
        WorkOutboxSourceRef::DerivedView(r) => SourceLookup::Freshness(r),
    }
}

/// Chooses the committed truth that backs the publication of one outbox record. A record
/// whose event kind and source disagree cannot be published.
pub fn publication_source(kind: WorkOutboxEventKind, source: WorkOutboxSourceRef) -> (r: Result<SourceLookup, ApplicationError>)
    ensures
        source_fits_kind(kind, source) ==> r == Ok::<SourceLookup, ApplicationError>(lookup_for(source)),
        !source_fits_kind(kind, source) ==> r == Err::<SourceLookup, ApplicationError>(ApplicationError::InvalidOutboxSource),
        // The truth read is the one the source names, under the same reference.
        kind == WorkOutboxEventKind::WorkDependencyChanged && source is Dependency
            ==> r == Ok::<SourceLookup, ApplicationError>(SourceLookup::Dependency(source->Dependency_0)),
        kind == WorkOutboxEventKind::WorkBlockerChanged && source is Blocker
            ==> r == Ok::<SourceLookup, ApplicationError>(SourceLookup::Blocker(source->Blocker_0)),
        kind == WorkOutboxEventKind::ProjectMemberChanged && source is ProjectMember
            ==> r == Ok::<SourceLookup, ApplicationError>(SourceLookup::ProjectMember(source->ProjectMember_0)),
        kind == WorkOutboxEventKind::WorkItemChanged && source is FormalWork
            ==> r == Ok::<SourceLookup, ApplicationError>(SourceLookup::FormalWork(source->FormalWork_0)),
        kind == WorkOutboxEventKind::PromoteResultRecorded && source is PromoteResult
            ==> r == Ok::<SourceLookup, ApplicationError>(SourceLookup::PromoteResult(source->PromoteResult_0)),
        kind == WorkOutboxEventKind::IterationChanged && source is Iteration
            ==> r == Ok::<SourceLookup, ApplicationError>(SourceLookup::Iteration(source->Iteration_0)),
        kind == WorkOutboxEventKind::DerivedWorkViewChanged && source is DerivedView
            ==> r == Ok::<SourceLookup, ApplicationError>(SourceLookup::Freshness(source->DerivedView_0)),
        kind == WorkOutboxEventKind::ProjectChanged && source is Project
            ==> r == Ok::<SourceLookup, ApplicationError>(SourceLookup::Project(source->Project_project_ref)),
        kind == WorkOutboxEventKind::BacklogChanged && source is Backlog
            ==> r == Ok::<SourceLookup, ApplicationError>(SourceLookup::Backlog(source->Backlog_backlog_ref)),
{
    match source {
        WorkOutboxSourceRef::Project { project_ref, .. } if kind == WorkOutboxEventKind::ProjectChanged => {
            Ok(SourceLookup::Project(project_ref))
        },
        WorkOutboxSourceRef::Backlog { backlog_ref, .. } if kind == WorkOutboxEventKind::BacklogChanged => {
            Ok(SourceLookup::Backlog(backlog_ref))
        },
        WorkOutboxSourceRef::ProjectMember(r) if kind == WorkOutboxEventKind::ProjectMemberChanged => {
            Ok(SourceLookup::ProjectMember(r))
        },
        WorkOutboxSourceRef::FormalWork(r) if kind == WorkOutboxEventKind::WorkItemChanged => Ok(SourceLookup::FormalWork(r)),
        WorkOutboxSourceRef::PromoteResult(r) if kind == WorkOutboxEventKind::PromoteResultRecorded => {
            Ok(SourceLookup::PromoteResult(r))
        },
        WorkOutboxSourceRef::Dependency(r) if kind == WorkOutboxEventKind::WorkDependencyChanged => {
            Ok(SourceLookup::Dependency(r))
        },
        WorkOutboxSourceRef::Blocker(r) if kind == WorkOutboxEventKind::WorkBlockerChanged => Ok(SourceLookup::Blocker(r)),
        WorkOutboxSourceRef::Iteration(r) if kind == WorkOutboxEventKind::IterationChanged => Ok(SourceLookup::Iteration(r)),
        WorkOutboxSourceRef::TraceAvailable { trace_id, handoff_ref } if kind == WorkOutboxEventKind::WorkTraceAvailable => {
            Ok(SourceLookup::TraceRecord { trace_id, handoff_ref })
        },
        WorkOutboxSourceRef::DerivedView(r) if kind == WorkOutboxEventKind::DerivedWorkViewChanged => {
            Ok(SourceLookup::Freshness(r))
        },
        _ => Err(ApplicationError::InvalidOutboxSource),
    }
}

/// The backing truth of a publication, once read: a failed read is reported as the
/// repository failure, a missing record makes the outbox source invalid.
pub open spec fn backing_record<T>(loaded: Result<Option<T>, RepositoryError>) -> Result<T, ApplicationError> {
    match loaded {
        Ok(Some(record)) => Ok(record),
        Ok(None) => Err(ApplicationError::InvalidOutboxSource),
        Err(error) => Err(repository_failure(error)),
    }
}

/// Requires the backing truth of a publication to exist.
pub fn require_backing_record<T>(loaded: Result<Option<T>, RepositoryError>) -> (r: Result<T, ApplicationError>)
    ensures
        r == backing_record(loaded),
{
    match loaded {
        Ok(Some(record)) => Ok(record),
        Ok(None) => Err(ApplicationError::InvalidOutboxSource),
        Err(error) => Err(crate::ports::classify_repository_error(error)),
    }
}

/// Whether a failed publication may be retried.
#[derive(Clone, Copy, Debug, PartialEq, Eq, Structural)]
pub enum OutboxFailureReasonKind {
    Retryable,
    Terminal,
}

/// Why an outbox record was marked failed.
#[derive(Clone, Debug)]
pub struct OutboxFailureReason {
    pub reason_kind: OutboxFailureReasonKind,
    pub message: String,
}

/// The name of a port failure, as the failure message spells it.
pub open spec fn port_error_name(error: PortError) -> Seq<char> {
    match error {
        PortError::NotFound => "NotFound"@,
        PortError::Rejected => "Rejected"@,
        PortError::Unavailable => "Unavailable"@,
        PortError::InvalidResponse => "InvalidResponse"@,
    }
}

/// Only an unavailable publisher leaves a record retryable.
pub open spec fn failure_kind_for(error: PortError) -> OutboxFailureReasonKind {
    if error == PortError::Unavailable {
        OutboxFailureReasonKind::Retryable
    } else {
        OutboxFailureReasonKind::Terminal
    }
}

/// What happens to an outbox record after the publisher replied.
#[derive(Clone, Debug)]
pub enum PublicationMark {
    /// Mark the record published under the downstream publication reference.
    Published(String),
    /// Mark the record failed for this reason.
    Failed(OutboxFailureReason),
}

/// Outcome of publishing one outbox record.
#[derive(Clone, Copy, Debug, PartialEq, Eq, Structural)]
pub enum PublishOneOutcome {
    /// The record was published and marked so.
    Published,
    /// The record was marked failed.
    Failed,
    /// Another run had already changed the record (its version moved on).
    AlreadyHandled,
}

/// The unit-of-work call that follows marking a record.
#[derive(Clone, Copy, Debug, PartialEq, Eq, Structural)]
pub enum MarkFollowUp {
    Commit,
    Rollback,
}

/// The outcome of marking a record, given the mark reply and the reply of the commit or
/// rollback that followed it.
pub open spec fn mark_result(target: PublishOneOutcome, mark: Result<(), RepositoryError>, follow: Result<(), UnitOfWorkError>) -> Result<PublishOneOutcome, ApplicationError> {
    match mark {
        Ok(()) => match follow {
            Ok(()) => Ok(target),
            Err(error) => Err(commit_failure(error)),
        },
        Err(RepositoryError::VersionConflict) => match follow {
            Ok(()) => Ok(PublishOneOutcome::AlreadyHandled),
            Err(_) => Err(ApplicationError::TemporarilyUnavailable),
        },
        Err(error) => Err(after_rollback(repository_failure(error), follow)),
    }
}

/// Whether an error raised while publishing one record is the invalid-source case that
/// the job records as a terminal failure instead of aborting.
pub open spec fn is_invalid_source(error: ApplicationError) -> bool {
    error == ApplicationError::InvalidOutboxSource
}

/// Counts of one publication page: records changed, and the ids reported as failed.
pub open spec fn tally(outcomes: Seq<(Seq<char>, PublishOneOutcome)>) -> (nat, Seq<Seq<char>>)
    decreases outcomes.len(),
{
    if outcomes.len() == 0 {
        (0, Seq::empty())
    } else {
        let rest = tally(outcomes.drop_last());
        let (id, outcome) = outcomes.last();
        match outcome {
            PublishOneOutcome::Published => ((rest.0 + 1) as nat, rest.1),
            PublishOneOutcome::Failed => ((rest.0 + 1) as nat, rest.1.push(id)),
            PublishOneOutcome::AlreadyHandled => (rest.0, rest.1.push(id)),
        }
    }
}

/// Every record of the page is counted as changed, reported as failed, or both (a marked
/// failure); none is counted twice.
pub proof fn lemma_tally_accounts_for_every_record(outcomes: Seq<(Seq<char>, PublishOneOutcome)>)
    ensures
        tally(outcomes).0 <= outcomes.len(),
        tally(outcomes).1.len() <= outcomes.len(),
        tally(outcomes).0 + tally(outcomes).1.len() >= outcomes.len(),
    decreases outcomes.len(),
{
    if outcomes.len() > 0 {
        lemma_tally_accounts_for_every_record(outcomes.drop_last());
    }
}

/// How one more record moves the page's counts: a published record counts as changed, a
/// record marked failed counts as changed and is reported by its id, and a record another
/// run handled is only reported by its id.
pub proof fn lemma_tally_step(outcomes: Seq<(Seq<char>, PublishOneOutcome)>, id: Seq<char>, outcome: PublishOneOutcome)
    ensures
        outcome == PublishOneOutcome::Published
            ==> tally(outcomes.push((id, outcome))) == ((tally(outcomes).0 + 1) as nat, tally(outcomes).1),
        outcome == PublishOneOutcome::Failed
            ==> tally(outcomes.push((id, outcome))) == ((tally(outcomes).0 + 1) as nat, tally(outcomes).1.push(id)),
        outcome == PublishOneOutcome::AlreadyHandled
            ==> tally(outcomes.push((id, outcome))) == (tally(outcomes).0, tally(outcomes).1.push(id)),
{
    assert(outcomes.push((id, outcome)).drop_last() =~= outcomes);
}

/// The outbox id a failure reference names (empty for other failures).
pub open spec fn outbox_id_of(failure: WorkJobFailureRef) -> Seq<char> {
    match failure {
        WorkJobFailureRef::WorkOutbox(id) => id@,
        _ => Seq::empty(),
    }
}

/// A job report for operations jobs.
#[derive(Clone, Debug)]
pub struct WorkJobReport {
    pub job_run_id: String,
    pub receipt: Option<WorkCommandReceipt>,
    pub scanned_count: u64,
    pub changed_count: u64,
    pub failed_refs: Vec<WorkJobFailureRef>,
}

/// One item that a job could not complete.
#[derive(Clone, Debug)]
pub enum WorkJobFailureRef {
    /// An outbox record that was not published.
    WorkOutbox(String),
    /// An external reference whose refresh failed (by its sort key).
    ExternalReference(String),
    /// A trace record whose handoff failed.
    TraceHandoff { trace_id: String, subject_ref: String, target_ref: String },
    /// An archive handoff that failed.
    ArchiveHandoff { archive_scope: String, target_ref: String },
}

impl WorkJobReport {
    /// The same report, its receipt marked as replayed.
    pub fn with_duplicate_receipt(self) -> (r: WorkJobReport)
        ensures
            r.job_run_id == self.job_run_id,
            r.scanned_count == self.scanned_count,
            r.changed_count == self.changed_count,
            r.failed_refs == self.failed_refs,
            r.receipt.is_some() == self.receipt.is_some(),
            self.receipt.is_some() ==> r.receipt.unwrap() == (WorkCommandReceipt {
                idempotency: crate::contracts::IdempotencyResultView::Duplicate,
                ..self.receipt.unwrap()
            }),
    {
        let WorkJobReport { job_run_id, receipt, scanned_count, changed_count, failed_refs } = self;
        let receipt = match receipt {
            Some(receipt) => Some(receipt.with_duplicate_idempotency()),
            None => None,
        };
        WorkJobReport { job_run_id, receipt, scanned_count, changed_count, failed_refs }
    }
}

/// A pending outbox record, as the publisher reads it.
#[derive(Clone, Debug)]
pub struct WorkOutboxRecord {
    pub outbox_id: String,
    pub event_kind: WorkOutboxEventKind,
    pub source_ref: WorkOutboxSourceRef,
    pub trace_context_ref: String,
    pub occurred_at: String,
}

/// An outbound event: the envelope the publisher sends around a payload.
#[derive(Clone, Debug)]
pub struct WorkOutboundEventEnvelope<T> {
    pub outbox_id: String,
    pub event_version: String,
    pub trace_context_ref: String,
    pub occurred_at: String,
    pub payload: T,
}

/// What one pending record of a publication page leads to.
#[derive(Clone, Copy, Debug, PartialEq, Eq, Structural)]
pub enum PublishItemStep {
    /// The record was handled with this outcome.
    Outcome(PublishOneOutcome),
    /// The record's source cannot back a publication: mark it failed, terminally.
    MarkInvalidSource,
    /// Any other failure aborts the page.
    Abort(ApplicationError),
}

/// The payload announcing a formal work change: a child names its source, both name
/// their completion evidence.
#[derive(Clone, Debug)]
pub struct WorkItemChangedEvent {
    pub work_ref: FormalWorkRef,
    pub project_ref: ProjectRef,
    pub work_state: crate::contracts::WorkItemState,
    pub source_ref: Option<String>,
    pub evidence_ref: Option<String>,
}

/// The payload announcing an iteration change, with its commitment when there is one.
#[derive(Clone, Debug)]
pub struct IterationChangedEvent {
    pub iteration_ref: IterationRef,
    pub project_ref: ProjectRef,
    pub iteration_state: crate::contracts::IterationState,
    pub commitment_state: Option<crate::contracts::CommitmentState>,
    pub affected_work_refs: Vec<FormalWorkRef>,
}

/// Whether a payload announces a stored formal work record: a child names its source,
/// both name their completion evidence.
pub open spec fn work_item_payload_of(p: WorkItemChangedEvent, work: crate::records::FormalWorkRecord, scope: crate::records::FormalWorkScope) -> bool {
    &&& p.work_ref@ == crate::records::record_ref(work)
    &&& p.project_ref == scope.project_ref
    &&& p.work_state == crate::records::record_state(work)
    &&& match work {
        crate::records::FormalWorkRecord::WorkItem(item) => p.source_ref is None && p.evidence_ref == item.completion_ref,
        crate::records::FormalWorkRecord::ChildWorkItem(child) => p.source_ref == Some(child.source_ref) && p.evidence_ref == child.completion_ref,
    }
}

/// Whether a payload announces an iteration: without a commitment it has no commitment
/// state and no affected work.
pub open spec fn iteration_payload_of(
    p: IterationChangedEvent,
    iteration_ref: IterationRef,
    project_id: String,
    iteration_state: crate::contracts::IterationState,
    commitment: Option<crate::iteration::IterationCommitmentRecord>,
) -> bool {
    &&& p.iteration_ref == iteration_ref
    &&& p.project_ref.project_id == project_id
    &&& p.iteration_state == iteration_state
    &&& (commitment is None ==> p.commitment_state is None && p.affected_work_refs@.len() == 0)
    &&& (commitment is Some ==> p.commitment_state == Some(commitment->Some_0.commitment_state)
        && p.affected_work_refs == commitment->Some_0.committed_work_refs)
}

/// The payload of a formal work change, from the stored record and its scope.
pub fn work_item_changed_payload(work: crate::records::FormalWorkRecord, scope: crate::records::FormalWorkScope) -> (r: WorkItemChangedEvent)
    ensures
        r.work_ref@ == crate::records::record_ref(work),
        r.project_ref == scope.project_ref,
        r.work_state == crate::records::record_state(work),
        match work {
            crate::records::FormalWorkRecord::WorkItem(item) => r.source_ref is None && r.evidence_ref == item.completion_ref,
            crate::records::FormalWorkRecord::ChildWorkItem(child) => r.source_ref == Some(child.source_ref) && r.evidence_ref == child.completion_ref,
        },
{
    let work_ref = work.formal_work_ref();
    let work_state = work.work_state();
    match work {
        crate::records::FormalWorkRecord::WorkItem(item) => WorkItemChangedEvent {
            work_ref,
            project_ref: scope.project_ref,
            work_state,
            source_ref: None,
            evidence_ref: item.completion_ref,
        },
        crate::records::FormalWorkRecord::ChildWorkItem(child) => WorkItemChangedEvent {
            work_ref,
            project_ref: scope.project_ref,
            work_state,
            source_ref: Some(child.source_ref),
            evidence_ref: child.completion_ref,
        },
    }
}

/// The payload of an iteration change: without a commitment there is no commitment
/// state and no affected work.
pub fn iteration_changed_payload(
    iteration_ref: IterationRef,
    project_id: String,
    iteration_state: crate::contracts::IterationState,
    commitment: Option<crate::iteration::IterationCommitmentRecord>,
) -> (r: IterationChangedEvent)
    ensures
        r.iteration_ref == iteration_ref,
        r.project_ref.project_id == project_id,
        r.iteration_state == iteration_state,
        commitment is None ==> r.commitment_state is None && r.affected_work_refs@.len() == 0,
        commitment is Some ==> r.commitment_state == Some(commitment->Some_0.commitment_state)
            && r.affected_work_refs == commitment->Some_0.committed_work_refs,
{
    match commitment {
        Some(commitment) => IterationChangedEvent {
            iteration_ref,
            project_ref: ProjectRef { project_id },
            iteration_state,
            commitment_state: Some(commitment.commitment_state),
            affected_work_refs: commitment.committed_work_refs,
        },
        None => IterationChangedEvent {
            iteration_ref,
            project_ref: ProjectRef { project_id },
            iteration_state,
            commitment_state: None,
            affected_work_refs: Vec::new(),
        },
    }
}

/// Coordinates pending outbox publication and duplicate replay for operations jobs.
pub struct WorkOutboxPublishService<PJ, PM, W, PR, B, D, ITR, A, O, PROJ, PUB, U, IDEM, JR, IDS> {
    /// Project truth repository.
    pub project_repo: PJ,
    /// Project-member truth repository.
    pub member_repo: PM,
    /// Formal work repository.
    pub work_repo: W,
    /// Promote result repository.
    pub promote_repo: PR,
    /// Backlog truth repository.
    pub backlog_repo: B,
    /// Dependency and blocker repository.
    pub dependency_repo: D,
    /// Iteration repository.
    pub iteration_repo: ITR,
    /// Audit repository.
    pub audit_repo: A,
    /// Work outbox repository.
    pub outbox_repo: O,
    /// Projection freshness repository.
    pub projection_repo: PROJ,
    /// Runtime publisher seam.
    pub publisher: PUB,
    /// Unit-of-work factory.
    pub unit_of_work: U,
    /// Shared idempotency repository.
    pub idempotency: IDEM,
    /// Job result repository for duplicate replay.
    pub job_results: JR,
    /// Deterministic result id generator.
    pub ids: IDS,
}

impl<PJ, PM, W, PR, B, D, ITR, A, O, PROJ, PUB, U, IDEM, JR, IDS> WorkOutboxPublishService<PJ, PM, W, PR, B, D, ITR, A, O, PROJ, PUB, U, IDEM, JR, IDS> {
    /// The failure reason recorded when the publisher rejects a record.
    pub fn failure_reason_from_port(error: PortError) -> (r: OutboxFailureReason)
        ensures
            r.reason_kind == failure_kind_for(error),
            r.message@ == port_error_name(error),
    {
        let reason_kind = match error {
            PortError::Unavailable => OutboxFailureReasonKind::Retryable,
            PortError::NotFound | PortError::Rejected | PortError::InvalidResponse => OutboxFailureReasonKind::Terminal,
        };
        let message = match error {
            PortError::NotFound => String::from_str("NotFound"),
            PortError::Rejected => String::from_str("Rejected"),
            PortError::Unavailable => String::from_str("Unavailable"),
            PortError::InvalidResponse => String::from_str("InvalidResponse"),
        };
        OutboxFailureReason { reason_kind, message }
    }

    /// The failure reason recorded for a record whose source cannot back a publication.
    pub fn invalid_source_reason() -> (r: OutboxFailureReason)
        ensures
            r.reason_kind == OutboxFailureReasonKind::Terminal,
            r.message@ == "InvalidOutboxSource"@,
    {
        OutboxFailureReason { reason_kind: OutboxFailureReasonKind::Terminal, message: String::from_str("InvalidOutboxSource") }
    }

    /// How a record is marked once the publisher replied.
    pub fn after_publish(reply: Result<String, PortError>) -> (r: PublicationMark)
        ensures
            reply is Ok ==> r == PublicationMark::Published(reply->Ok_0),
            reply is Err ==> (r matches PublicationMark::Failed(reason)
                && reason.reason_kind == failure_kind_for(reply->Err_0)
                && reason.message@ == port_error_name(reply->Err_0)),
    {
        match reply {
            Ok(publication_ref) => PublicationMark::Published(publication_ref),
            Err(error) => PublicationMark::Failed(Self::failure_reason_from_port(error)),
        }
    }

    /// After a mark reply: a successful mark is committed, any failed mark is rolled back.
    pub fn mark_follow_up(mark: Result<(), RepositoryError>) -> (r: MarkFollowUp)
        ensures
            r == (if mark is Ok { MarkFollowUp::Commit } else { MarkFollowUp::Rollback }),
    {
        match mark {
            Ok(()) => MarkFollowUp::Commit,
            Err(_) => MarkFollowUp::Rollback,
        }
    }

    /// The outcome of marking one record (`target` is `Published` or `Failed`): a version
    /// conflict means another run handled the record and is not an error.
    pub fn mark_outcome(target: PublishOneOutcome, mark: Result<(), RepositoryError>, follow: Result<(), UnitOfWorkError>) -> (r: Result<PublishOneOutcome, ApplicationError>)
        ensures
            r == mark_result(target, mark, follow),
            // A committed mark reports the outcome it set.
            mark is Ok && follow is Ok ==> r == Ok::<PublishOneOutcome, ApplicationError>(target),
            // A conflicting mark means another run handled the record: not an error.
            mark == Err::<(), RepositoryError>(RepositoryError::VersionConflict) && follow is Ok
                ==> r == Ok::<PublishOneOutcome, ApplicationError>(PublishOneOutcome::AlreadyHandled),
            // Any other failure fails the step.
            mark is Err && mark != Err::<(), RepositoryError>(RepositoryError::VersionConflict) ==> r is Err,
            follow is Err ==> r is Err,
    {
        match mark {
            Ok(()) => match follow {
                Ok(()) => Ok(target),
                Err(error) => Err(Self::map_uow_error_commit(error)),
            },
            Err(RepositoryError::VersionConflict) => match follow {
                Ok(()) => Ok(PublishOneOutcome::AlreadyHandled),
                Err(error) => Err(Self::map_uow_error_rollback(error)),
            },
            Err(error) => Err(crate::ports::rollback_and_err(Self::map_repository_error(error), follow)),
        }
    }

    /// What one pending record leads to, from how its publication went.
    pub fn publish_item_step(published: Result<PublishOneOutcome, ApplicationError>) -> (r: PublishItemStep)
        ensures
            match published {
                Ok(outcome) => r == PublishItemStep::Outcome(outcome),
                Err(ApplicationError::InvalidOutboxSource) => r == PublishItemStep::MarkInvalidSource,
                Err(error) => r == PublishItemStep::Abort(error),
            },
    {
        match published {
            Ok(outcome) => PublishItemStep::Outcome(outcome),
            Err(ApplicationError::InvalidOutboxSource) => PublishItemStep::MarkInvalidSource,
            Err(error) => PublishItemStep::Abort(error),
        }
    }

    /// The payload of a formal work change, from the stored record and its scope.
    pub fn work_item_changed_event(work: crate::records::FormalWorkRecord, scope: crate::records::FormalWorkScope) -> (r: WorkItemChangedEvent)
        ensures
            work_item_payload_of(r, work, scope),
    {
        work_item_changed_payload(work, scope)
    }

    /// The payload of an iteration change: without a commitment there is no commitment
    /// state and no affected work.
    pub fn iteration_changed_event(
        iteration_ref: IterationRef,
        project_id: String,
        iteration_state: crate::contracts::IterationState,
        commitment: Option<crate::iteration::IterationCommitmentRecord>,
    ) -> (r: IterationChangedEvent)
        ensures
            iteration_payload_of(r, iteration_ref, project_id, iteration_state, commitment),
    {
        iteration_changed_payload(iteration_ref, project_id, iteration_state, commitment)
    }

    /// Tallies one publication page in order: records published or marked failed count as
    /// changed; records marked failed or already handled are reported by outbox id.
    pub fn tally_page(outcomes: &Vec<(String, PublishOneOutcome)>) -> (r: (u64, Vec<WorkJobFailureRef>))
        ensures
            r.0 == tally(outcomes@.map_values(|o: (String, PublishOneOutcome)| (o.0@, o.1))).0,
            r.1@.map_values(|f: WorkJobFailureRef| outbox_id_of(f)) == tally(outcomes@.map_values(|o: (String, PublishOneOutcome)| (o.0@, o.1))).1,
            forall|i: int| 0 <= i < r.1@.len() ==> #[trigger] r.1@[i] is WorkOutbox,
    {
        let ghost view = outcomes@.map_values(|o: (String, PublishOneOutcome)| (o.0@, o.1));
        let mut changed: u64 = 0;
        let mut failed: Vec<WorkJobFailureRef> = Vec::new();
        let mut i: usize = 0;
        while i < outcomes.len()
            invariant
                i <= outcomes.len(),
                view == outcomes@.map_values(|o: (String, PublishOneOutcome)| (o.0@, o.1)),
                changed == tally(view.take(i as int)).0,
                failed@.map_values(|f: WorkJobFailureRef| outbox_id_of(f)) == tally(view.take(i as int)).1,
                forall|k: int| 0 <= k < failed@.len() ==> #[trigger] failed@[k] is WorkOutbox,
                changed <= i,
            decreases outcomes.len() - i,
        {
            proof {
                assert(view.take(i + 1).drop_last() =~= view.take(i as int));
                assert(view.take(i + 1).last() == view[i as int]);
            }
            let (id, outcome) = &outcomes[i];
            match outcome {
                PublishOneOutcome::Published => {
                    changed = changed + 1;
                },
                PublishOneOutcome::Failed => {
                    changed = changed + 1;
                    failed.push(Self::outbox_failed_ref(id.clone()));
                },
                PublishOneOutcome::AlreadyHandled => {
                    failed.push(Self::outbox_failed_ref(id.clone()));
                },
            }
            proof {
                assert(failed@.map_values(|f: WorkJobFailureRef| outbox_id_of(f)) =~= tally(view.take(i + 1)).1);
            }
            i = i + 1;
        }
        proof {
            assert(view.take(outcomes.len() as int) =~= view);
        }
        (changed, failed)
    }

    /// The report of one publication page: every record read is scanned; records
    /// published or marked failed count as changed; records marked failed or already
    /// handled are reported by outbox id, in page order.
    pub fn page_report(
        job_run_id: String,
        result_ref: crate::contracts::ApplicationResultRef,
        outcomes: &Vec<(String, PublishOneOutcome)>,
    ) -> (r: WorkJobReport)
        ensures
            r.job_run_id == job_run_id,
            crate::jobs::is_job_receipt(r.receipt, result_ref),
            r.scanned_count == outcomes@.len(),
            r.changed_count == tally(outcomes@.map_values(|o: (String, PublishOneOutcome)| (o.0@, o.1))).0,
            r.failed_refs@.map_values(|f: WorkJobFailureRef| outbox_id_of(f))
                == tally(outcomes@.map_values(|o: (String, PublishOneOutcome)| (o.0@, o.1))).1,
    {
        let (changed_count, failed_refs) = Self::tally_page(outcomes);
        let scanned_count = outcomes.len() as u64;
        crate::jobs::job_report(job_run_id, result_ref, scanned_count, changed_count, failed_refs)
    }

    /// The failure reference for an outbox record.
    pub fn outbox_failed_ref(outbox_id: String) -> (r: WorkJobFailureRef)
        ensures
            r matches WorkJobFailureRef::WorkOutbox(id) && id == outbox_id,
    {
        WorkJobFailureRef::WorkOutbox(outbox_id)
    }

    /// The digest of one publication job page: its operation, page limit and token.
    pub fn job_digest(operation: &String, page: &crate::ports::PageRequest) -> (r: Result<crate::idempotency::RequestDigest, ApplicationError>)
        ensures
            r is Ok,
            r->Ok_0.0@ == crate::digest::job_digest_json(operation@, page.limit, crate::digest::opt_view(page.page_token)),
    {
        Ok(crate::idempotency::RequestDigest(crate::digest::job_digest_text(operation.as_str(), page)))
    }

    /// Replays the stored report of a duplicate publication job.
    pub fn load_duplicate_work_job_report(
        operation: &String,
        stored: Result<Option<crate::results::StoredJobResult>, RepositoryError>,
    ) -> (r: Result<WorkJobReport, ApplicationError>)
        ensures
            match stored {
                Err(error) => r == Err::<WorkJobReport, ApplicationError>(repository_failure(error)),
                Ok(Some(crate::results::StoredJobResult::WorkJob(report))) => if report.receipt is Some
                    && report.receipt->Some_0.result_ref.operation@ == operation@ {
                    &&& r is Ok
                    &&& r->Ok_0.job_run_id == report.job_run_id
                    &&& r->Ok_0.scanned_count == report.scanned_count
                    &&& r->Ok_0.changed_count == report.changed_count
                    &&& r->Ok_0.failed_refs == report.failed_refs
                    &&& r->Ok_0.receipt == Some(WorkCommandReceipt {
                        idempotency: crate::contracts::IdempotencyResultView::Duplicate,
                        ..report.receipt->Some_0
                    })
                } else {
                    r == Err::<WorkJobReport, ApplicationError>(ApplicationError::DuplicateResultMissing)
                },
                Ok(_) => r == Err::<WorkJobReport, ApplicationError>(ApplicationError::DuplicateResultMissing),
            },
    {
        crate::jobs::load_duplicate_work_job_report(operation, stored)
    }

    /// The outbound envelope of a record: its id, schema version `v1`, trace context and
    /// time, around the payload rebuilt from committed truth.
    pub fn envelope<T>(record: &WorkOutboxRecord, payload: T) -> (r: WorkOutboundEventEnvelope<T>)
        ensures
            r.outbox_id == record.outbox_id,
            r.event_version@ == "v1"@,
            r.trace_context_ref == record.trace_context_ref,
            r.occurred_at == record.occurred_at,
            r.payload == payload,
    {
        WorkOutboundEventEnvelope {
            outbox_id: record.outbox_id.clone(),
            event_version: String::from_str("v1"),
            trace_context_ref: record.trace_context_ref.clone(),
            occurred_at: record.occurred_at.clone(),
            payload,
        }
    }

    pub fn map_repository_error(error: RepositoryError) -> (r: ApplicationError)
        ensures
            r == repository_failure(error),
    {
        match error {
            RepositoryError::NotFound => ApplicationError::NotFound,
            RepositoryError::VersionConflict => ApplicationError::VersionConflict,
            RepositoryError::TransactionRejected | RepositoryError::StoreUnavailable => {
                ApplicationError::TemporarilyUnavailable
            },
        }
    }

    pub fn map_idempotency_error(error: IdempotencyError) -> (r: ApplicationError)
        ensures
            r == idempotency_failure(error),
    {
        crate::ports::classify_idempotency_error(error)
    }

    pub fn map_port_error(error: PortError) -> (r: ApplicationError)
        ensures
            r == port_failure_outbox(error),
    {
        match error {
            PortError::Unavailable => ApplicationError::TemporarilyUnavailable,
            PortError::NotFound | PortError::Rejected => ApplicationError::ExternalReferenceUnresolved,
            PortError::InvalidResponse => ApplicationError::InvalidOutboxSource,
        }
    }

    pub fn map_uow_error_begin(_error: UnitOfWorkError) -> (r: ApplicationError)
        ensures
            r == ApplicationError::TemporarilyUnavailable,
    {
        ApplicationError::TemporarilyUnavailable
    }

    pub fn map_uow_error_commit(error: UnitOfWorkError) -> (r: ApplicationError)
        ensures
            r == commit_failure(error),
    {
        crate::ports::classify_commit_error(error)
    }

    pub fn map_uow_error_rollback(_error: UnitOfWorkError) -> (r: ApplicationError)
        ensures
            r == ApplicationError::TemporarilyUnavailable,
    {
        ApplicationError::TemporarilyUnavailable
    }
}

} // verus!
