//! Formal work command decisions: creating root and child work items and moving formal
//! work through its lifecycle.

use vstd::prelude::*;

use crate::command::{formal_work_cursor, found, require_found, work_cursor_text};
use crate::contracts::{
    ApplicationResultRef, DerivedViewKind, DerivedWorkViewRef, FormalWorkRef,
    IdempotencyResultView, ProjectMemberRef, ProjectMemberResponsibilityState, ProjectRef,
    WorkCommandReceipt, WorkItemState,
};
use crate::errors::ApplicationError;
use crate::ports::{
    commit_failure, domain_failure_fine, idempotency_failure, port_failure_domain,
    repository_failure, DomainError, IdempotencyError, PortError, RepositoryError, UnitOfWorkError,
};
use crate::records::{BacklogRecord, FormalWorkRecord, ProjectMemberRecord, WorkItemRecord};
use crate::results::{duplicate_of, StoredCommandResult, WorkItemCommandResult};

verus! {

/// Lifecycle targets of formal work.
#[derive(Clone, Copy, Debug, PartialEq, Eq, Structural)]
pub enum WorkLifecycleTarget {
    InProgress,
    Completed,
    Cancelled,
    Superseded,
}

/// How a lifecycle change treats completion evidence.
#[derive(Clone, Debug)]
pub enum EvidenceStep {
    /// Completion: resolve this evidence and check it before the transition.
    Resolve(String),
    /// Any other target: hand the request's evidence, if any, to the transition.
    PassThrough(Option<String>),
}

/// A state from which formal work does not move on.
pub open spec fn is_terminal(state: WorkItemState) -> bool {
    state == WorkItemState::Completed || state == WorkItemState::Cancelled || state == WorkItemState::Superseded
}

/// Whether a work state is terminal.
pub fn matches_terminal(work_state: WorkItemState) -> (r: bool)
    ensures
        r == is_terminal(work_state),
{
    match work_state {
        WorkItemState::Completed | WorkItemState::Cancelled | WorkItemState::Superseded => true,
        _ => false,
    }
}

/// The assignee of new work must be an active member of the work's project; any other
/// member is treated as not found.
pub open spec fn creation_assignee_of(member: Result<Option<ProjectMemberRecord>, RepositoryError>, project_id: Seq<char>) -> Result<ProjectMemberRecord, ApplicationError> {
    match found(member) {
        Ok(member) => if member.project_id@ == project_id && member.responsibility_state == ProjectMemberResponsibilityState::Active {
            Ok(member)
        } else {
            Err(ApplicationError::NotFound)
        },
        Err(error) => Err(error),
    }
}

/// A child hangs from a root work item that has not reached a terminal state.
pub open spec fn child_parent_of(parent: FormalWorkRecord) -> Result<WorkItemRecord, ApplicationError> {
    match parent {
        FormalWorkRecord::WorkItem(item) => if is_terminal(item.work_state) {
            Err(ApplicationError::DomainRejected)
        } else {
            Ok(item)
        },
        FormalWorkRecord::ChildWorkItem(_) => Err(ApplicationError::DomainRejected),
    }
}

/// The root item of a child whose lifecycle changes: anything but a root item is missing.
pub open spec fn lifecycle_parent_of(parent: Result<Option<FormalWorkRecord>, RepositoryError>) -> Result<WorkItemRecord, ApplicationError> {
    match parent {
        Ok(Some(FormalWorkRecord::WorkItem(item))) => Ok(item),
        Ok(_) => Err(ApplicationError::NotFound),
        Err(error) => Err(repository_failure(error)),
    }
}

/// Completing work needs evidence; other targets take whatever evidence was given.
pub open spec fn evidence_step_of(target: WorkLifecycleTarget, evidence_ref: Option<String>) -> Result<EvidenceStep, ApplicationError> {
    if target == WorkLifecycleTarget::Completed {
        match evidence_ref {
            Some(evidence) => Ok(EvidenceStep::Resolve(evidence)),
            None => Err(ApplicationError::InvalidRequest),
        }
    } else {
        Ok(EvidenceStep::PassThrough(evidence_ref))
    }
}

/// The stored work result of a duplicate request, marked as a replay.
pub open spec fn replayed_work(operation: Seq<char>, stored: Result<Option<StoredCommandResult>, RepositoryError>) -> Result<WorkItemCommandResult, ApplicationError> {
    match stored {
        Err(error) => Err(repository_failure(error)),
        Ok(Some(StoredCommandResult::WorkItem(result))) => if result.receipt.result_ref.operation@ == operation {
            Ok(WorkItemCommandResult { receipt: duplicate_of(result.receipt), ..result })
        } else {
            Err(ApplicationError::DuplicateResultMissing)
        },
        Ok(_) => Err(ApplicationError::DuplicateResultMissing),
    }
}

/// Coordinates formal work commands inside one application transaction boundary.
pub struct WorkItemCommandService<P, B, PM, W, A, O, R, PR, U, S, E, I, C, IDEM> {
    /// Project repository port.
    pub project_repo: P,
    /// Backlog repository port.
    pub backlog_repo: B,
    /// Project member repository port.
    pub member_repo: PM,
    /// Formal work repository port.
    pub work_repo: W,
    /// Audit repository port.
    pub audit_repo: A,
    /// Outbox repository port.
    pub outbox_repo: O,
    /// Stored command result repository port.
    pub command_results: R,
    /// Projection freshness repository port.
    pub projection_repo: PR,
    /// Unit of work factory.
    pub unit_of_work: U,
    /// Source resolver port.
    pub source_resolver: S,
    /// Evidence resolver port.
    pub evidence_resolver: E,
    /// Id generator.
    pub ids: I,
    /// Clock port.
    pub clock: C,
    /// Idempotency repository.
    pub idempotency: IDEM,
}

impl<P, B, PM, W, A, O, R, PR, U, S, E, I, C, IDEM> WorkItemCommandService<P, B, PM, W, A, O, R, PR, U, S, E, I, C, IDEM> {
    /// The project new work is created in, which must exist.
    pub fn creation_project<T>(loaded: Result<Option<T>, RepositoryError>) -> (r: Result<(), ApplicationError>)
        ensures
            match found(loaded) {
                Ok(_) => r == Ok::<(), ApplicationError>(()),
                Err(error) => r == Err::<(), ApplicationError>(error),
            },
    {
        require_found(loaded)?;
        Ok(())
    }

    /// The backlog of the project new work is created in, which must exist.
    pub fn creation_backlog(loaded: Result<Option<BacklogRecord>, RepositoryError>) -> (r: Result<BacklogRecord, ApplicationError>)
        ensures
            r == found(loaded),
    {
        require_found(loaded)
    }

    /// The assignee of new work.
    pub fn creation_assignee(member: Result<Option<ProjectMemberRecord>, RepositoryError>, project_ref: &ProjectRef) -> (r: Result<ProjectMemberRecord, ApplicationError>)
        ensures
            r == creation_assignee_of(member, project_ref@),
    {
        let member = require_found(member)?;
        if member.project_id != project_ref.project_id
            || member.responsibility_state != ProjectMemberResponsibilityState::Active
        {
            return Err(ApplicationError::NotFound);
        }
        Ok(member)
    }

    /// The parent of a new child, loaded: it must exist, be a root item and not be done.
    pub fn child_parent(loaded: Result<Option<FormalWorkRecord>, RepositoryError>) -> (r: Result<WorkItemRecord, ApplicationError>)
        ensures
            match found(loaded) {
                Ok(parent) => r == child_parent_of(parent),
                Err(error) => r == Err::<WorkItemRecord, ApplicationError>(error),
            },
    {
        let parent = require_found(loaded)?;
        match parent {
            FormalWorkRecord::WorkItem(item) => {
                if matches_terminal(item.work_state) {
                    Err(ApplicationError::DomainRejected)
                } else {
                    Ok(item)
                }
            },
            FormalWorkRecord::ChildWorkItem(_) => Err(ApplicationError::DomainRejected),
        }
    }

    /// The formal work whose lifecycle changes, which must exist.
    pub fn lifecycle_record(loaded: Result<Option<FormalWorkRecord>, RepositoryError>) -> (r: Result<FormalWorkRecord, ApplicationError>)
        ensures
            r == found(loaded),
    {
        require_found(loaded)
    }

    /// The root item of a child whose lifecycle changes.
    pub fn lifecycle_parent(loaded: Result<Option<FormalWorkRecord>, RepositoryError>) -> (r: Result<WorkItemRecord, ApplicationError>)
        ensures
            r == lifecycle_parent_of(loaded),
    {
        match loaded {
            Ok(Some(FormalWorkRecord::WorkItem(item))) => Ok(item),
            Ok(_) => Err(ApplicationError::NotFound),
            Err(error) => Err(Self::map_repository_error(error)),
        }
    }

    /// The project that owns a backlog, which must exist.
    pub fn project_ref_for_backlog(loaded: Result<Option<BacklogRecord>, RepositoryError>) -> (r: Result<ProjectRef, ApplicationError>)
        ensures
            match found(loaded) {
                Ok(backlog) => r is Ok && r->Ok_0@ == backlog.project_id@,
                Err(error) => r == Err::<ProjectRef, ApplicationError>(error),
            },
    {
        let backlog = require_found(loaded)?;
        Ok(ProjectRef { project_id: backlog.project_id })
    }

    /// How a lifecycle change treats completion evidence.
    pub fn evidence_step(target: WorkLifecycleTarget, evidence_ref: Option<String>) -> (r: Result<EvidenceStep, ApplicationError>)
        ensures
            r == evidence_step_of(target, evidence_ref),
    {
        if target == WorkLifecycleTarget::Completed {
            match evidence_ref {
                Some(evidence) => Ok(EvidenceStep::Resolve(evidence)),
                None => Err(ApplicationError::InvalidRequest),
            }
        } else {
            Ok(EvidenceStep::PassThrough(evidence_ref))
        }
    }

    /// The views a work change makes stale: the project's board, then the member-work
    /// view of the responsible member when there is one.
    pub fn work_stale_views(project_ref: &ProjectRef, member_ref: &Option<ProjectMemberRef>) -> (r: Vec<DerivedWorkViewRef>)
        ensures
            r@.len() == (if member_ref is Some { 2int } else { 1int }),
            r@[0]@ == (DerivedViewKind::ProjectBoard, project_ref@, None::<Seq<char>>),
            member_ref is Some ==> r@[1]@ == (DerivedViewKind::MemberWork, member_ref->Some_0@, None::<Seq<char>>),
    {
        let mut views = Vec::new();
        views.push(DerivedWorkViewRef::project_board(project_ref));
        match member_ref {
            Some(member_ref) => views.push(DerivedWorkViewRef::member_work(member_ref)),
            None => {},
        }
        views
    }

    /// The result of a formal work command.
    pub fn work_result(
        work_ref: FormalWorkRef,
        work_state: WorkItemState,
        result_ref: ApplicationResultRef,
        trace_id: String,
        outbox_id: String,
        version: u64,
    ) -> (r: WorkItemCommandResult)
        ensures
            r.work_ref == work_ref,
            r.work_state == work_state,
            r.receipt.result_ref == result_ref,
            r.receipt.trace_id == Some(trace_id),
            r.receipt.outbox_refs@ == seq![outbox_id],
            r.receipt.version == version,
            r.receipt.idempotency == IdempotencyResultView::Applied,
    {
        let mut outbox_refs = Vec::new();
        outbox_refs.push(outbox_id);
        WorkItemCommandResult {
            work_ref,
            work_state,
            receipt: WorkCommandReceipt::applied(result_ref, Some(trace_id), outbox_refs, version),
        }
    }

    /// Replays the stored result of a duplicate formal work command.
    pub fn load_duplicate_work_result(
        operation: &String,
        stored: Result<Option<StoredCommandResult>, RepositoryError>,
    ) -> (r: Result<WorkItemCommandResult, ApplicationError>)
        ensures
            r == replayed_work(operation@, stored),
    {
        let stored = match stored {
            Ok(stored) => stored,
            Err(error) => return Err(Self::map_repository_error(error)),
        };
        let result = match stored {
            Some(result) => result.into_work_item_result(operation),
            None => None,
        };
        match result {
            Some(result) => Ok(result.with_duplicate_receipt()),
            None => Err(ApplicationError::DuplicateResultMissing),
        }
    }

    /// The truth cursor of formal work at a version.
    pub fn work_cursor(work_ref: &FormalWorkRef, version: u64) -> (r: String)
        ensures
            r@ == work_cursor_text(work_ref@, version),
    {
        formal_work_cursor(work_ref, version)
    }

    /// A failed step rolls the transaction back before its error is returned.
    pub fn rollback_and_err(error: ApplicationError, rollback: Result<(), UnitOfWorkError>) -> (r: ApplicationError)
        ensures
            r == crate::ports::after_rollback(error, rollback),
    {
        crate::ports::rollback_and_err(error, rollback)
    }

    pub fn map_repository_error(error: RepositoryError) -> (r: ApplicationError)
        ensures
            r == repository_failure(error),
    {
        crate::ports::classify_repository_error(error)
    }

    pub fn map_port_error(error: PortError) -> (r: ApplicationError)
        ensures
            r == port_failure_domain(error),
    {
        crate::ports::classify_port_error_domain(error)
    }

    pub fn map_domain_error(error: DomainError) -> (r: ApplicationError)
        ensures
            r == domain_failure_fine(error),
    {
        crate::ports::classify_domain_error_fine(error)
    }

    pub fn map_idempotency_error(error: IdempotencyError) -> (r: ApplicationError)
        ensures
            r == idempotency_failure(error),
    {
        crate::ports::classify_idempotency_error(error)
    }

    pub fn map_uow_error_begin(_error: UnitOfWorkError) -> (r: ApplicationError)
        ensures
            r == ApplicationError::TemporarilyUnavailable,
    {
        ApplicationError::TemporarilyUnavailable
    }

    pub fn map_uow_error_commit(error: UnitOfWorkError) -> (r: ApplicationError)
        ensures
            r == commit_failure(error),
    {
        crate::ports::classify_commit_error(error)
    }

    pub fn map_uow_error_rollback(_error: UnitOfWorkError) -> (r: ApplicationError)
        ensures
            r == ApplicationError::TemporarilyUnavailable,
    {
        ApplicationError::TemporarilyUnavailable
    }
}

} // verus!
