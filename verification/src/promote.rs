//! Promote command decisions: recording a pending promote result from an external
//! source, and reviewing it into formal Work or a rejection.

use vstd::prelude::*;

use crate::command::{formal_work_cursor, found, require_found, work_cursor_text};
use crate::contracts::{
    ApplicationResultRef, DerivedViewKind, DerivedWorkViewRef, FormalWorkRef,
    ProjectMemberRef, ProjectMemberResponsibilityState, ProjectRef, PromoteResultState,
    WorkCommandReceipt,
};
use crate::errors::ApplicationError;
use crate::ports::{
    commit_failure, domain_failure_fine, idempotency_failure, port_failure_domain,
    repository_failure, DomainError, IdempotencyError, PortError, RepositoryError, UnitOfWorkError,
};
use crate::records::{BacklogRecord, ProjectMemberRecord};
use crate::references::ExternalReferenceRef;
use crate::results::{duplicate_of, PromoteCommandResult, StoredCommandResult};

verus! {

/// A promote result as stored.
#[derive(Clone, Debug)]
pub struct PromoteResultRecord {
    pub promote_result_id: String,
    pub source_ref: ExternalReferenceRef,
    pub result_state: PromoteResultState,
    /// The formal work an accepted promotion created.
    pub created_work_ref: Option<FormalWorkRef>,
}

/// The formal work that an accepted promotion creates: its assignee decides the project.
#[derive(Clone, Debug)]
pub struct FormalWorkIntent {
    pub title: String,
    pub assignee_ref: ProjectMemberRef,
}

/// The decision taken on a pending promote result.
#[derive(Clone, Debug)]
pub enum PromoteReviewDecision {
    Accept,
    Reject(String),
}

/// The promote policy's verdict on a new request.
#[derive(Clone, Debug)]
pub enum PromoteDecision {
    Allow,
    Reject(String),
    Duplicate(String),
}

/// What a valid review goes on to do.
#[derive(Clone, Debug)]
pub enum ReviewPlan {
    /// Create formal work from the intent and accept the result.
    Accept(FormalWorkIntent),
    /// Reject the result for the reason given.
    Reject(String),
}

/// Where accepted work lands: the project of its assignee and that project's backlog.
#[derive(Clone, Debug)]
pub struct AcceptTarget {
    pub project_ref: ProjectRef,
    pub backlog: BacklogRecord,
    pub assignee_ref: ProjectMemberRef,
}

/// A new request may not start while the latest result for the same source still waits
/// for review.
pub open spec fn request_admitted(latest: Result<Option<PromoteResultRecord>, RepositoryError>) -> Result<(), ApplicationError> {
    match latest {
        Ok(Some(existing)) => if existing.result_state == PromoteResultState::PendingReview {
            Err(ApplicationError::DomainRejected)
        } else {
            Ok(())
        },
        Ok(None) => Ok(()),
        Err(error) => Err(repository_failure(error)),
    }
}

/// The review of a loaded result: it must exist and still be pending.
pub open spec fn reviewable(loaded: Result<Option<PromoteResultRecord>, RepositoryError>) -> Result<PromoteResultRecord, ApplicationError> {
    match found(loaded) {
        Ok(result) => if result.result_state == PromoteResultState::PendingReview {
            Ok(result)
        } else {
            Err(ApplicationError::VersionConflict)
        },
        Err(error) => Err(error),
    }
}

/// Accepting needs an intent for the work to create; rejecting must not carry one.
pub open spec fn review_plan_of(decision: PromoteReviewDecision, intent: Option<FormalWorkIntent>) -> Result<ReviewPlan, ApplicationError> {
    match decision {
        PromoteReviewDecision::Accept => match intent {
            Some(intent) => Ok(ReviewPlan::Accept(intent)),
            None => Err(ApplicationError::InvalidRequest),
        },
        PromoteReviewDecision::Reject(reason) => match intent {
            Some(_) => Err(ApplicationError::InvalidRequest),
            None => Ok(ReviewPlan::Reject(reason)),
        },
    }
}

/// The project that accepted work lands in: the assignee must exist and be active.
pub open spec fn accept_project(member: Result<Option<ProjectMemberRecord>, RepositoryError>) -> Result<Seq<char>, ApplicationError> {
    match found(member) {
        Ok(member) => if member.responsibility_state == ProjectMemberResponsibilityState::Active {
            Ok(member.project_id@)
        } else {
            Err(ApplicationError::NotFound)
        },
        Err(error) => Err(error),
    }
}

/// Coordinates promote commands inside one application transaction boundary.
pub struct PromoteCommandService<PM, B, W, P, A, O, R, PR, U, S, I, C, IDEM> {
    /// Project-member repository port.
    pub member_repo: PM,
    /// Backlog repository port.
    pub backlog_repo: B,
    /// Work item repository port.
    pub work_repo: W,
    /// Promote repository port.
    pub promote_repo: P,
    /// Audit repository port.
    pub audit_repo: A,
    /// Outbox repository port.
    pub outbox_repo: O,
    /// Stored command result repository port.
    pub command_results: R,
    /// Projection freshness repository port.
    pub projection_repo: PR,
    /// Unit of work factory.
    pub unit_of_work: U,
    /// Source resolver port.
    pub source_resolver: S,
    /// Id generator.
    pub ids: I,
    /// Clock port.
    pub clock: C,
    /// Idempotency repository.
    pub idempotency: IDEM,
}

impl<PM, B, W, P, A, O, R, PR, U, S, I, C, IDEM> PromoteCommandService<PM, B, W, P, A, O, R, PR, U, S, I, C, IDEM> {
    /// Gate of a new promotion request on the latest result for its source.
    pub fn admit_request(latest: Result<Option<PromoteResultRecord>, RepositoryError>) -> (r: Result<(), ApplicationError>)
        ensures
            r == request_admitted(latest),
    {
        match latest {
            Ok(Some(existing)) => {
                if existing.result_state == PromoteResultState::PendingReview {
                    Err(ApplicationError::DomainRejected)
                } else {
                    Ok(())
                }
            },
            Ok(None) => Ok(()),
            Err(error) => Err(Self::map_repository_error(error)),
        }
    }

    /// Gate of a new promotion request on the promote policy: only `Allow` proceeds.
    pub fn admit_policy(decision: &PromoteDecision) -> (r: Result<(), ApplicationError>)
        ensures
            r == (if *decision is Allow { Ok::<(), ApplicationError>(()) } else { Err(ApplicationError::DomainRejected) }),
    {
        match decision {
            PromoteDecision::Allow => Ok(()),
            PromoteDecision::Reject(_) | PromoteDecision::Duplicate(_) => Err(ApplicationError::DomainRejected),
        }
    }

    /// Gate of a review on the loaded promote result.
    pub fn review_target(loaded: Result<Option<PromoteResultRecord>, RepositoryError>) -> (r: Result<PromoteResultRecord, ApplicationError>)
        ensures
            r == reviewable(loaded),
    {
        let result = require_found(loaded)?;
        if result.result_state == PromoteResultState::PendingReview {
            Ok(result)
        } else {
            Err(ApplicationError::VersionConflict)
        }
    }

    /// What a review does, from the decision and the optional accepted-work intent.
    pub fn review_plan(decision: PromoteReviewDecision, intent: Option<FormalWorkIntent>) -> (r: Result<ReviewPlan, ApplicationError>)
        ensures
            r == review_plan_of(decision, intent),
    {
        match decision {
            PromoteReviewDecision::Accept => match intent {
                Some(intent) => Ok(ReviewPlan::Accept(intent)),
                None => Err(ApplicationError::InvalidRequest),
            },
            PromoteReviewDecision::Reject(reason) => match intent {
                Some(_) => Err(ApplicationError::InvalidRequest),
                None => Ok(ReviewPlan::Reject(reason)),
            },
        }
    }

    /// The project of the accepted work's assignee.
    pub fn accept_target_project(member: Result<Option<ProjectMemberRecord>, RepositoryError>) -> (r: Result<ProjectRef, ApplicationError>)
        ensures
            match accept_project(member) {
                Ok(project_id) => r is Ok && r->Ok_0@ == project_id,
                Err(error) => r == Err::<ProjectRef, ApplicationError>(error),
            },
            // A found assignee yields its project exactly when it is active; a proposed,
            // paused or released one yields NotFound.
            member matches Ok(Some(m)) ==> (r is Ok <==> m.responsibility_state == ProjectMemberResponsibilityState::Active),
            member matches Ok(Some(m)) ==> (m.responsibility_state == ProjectMemberResponsibilityState::Active
                ==> r is Ok && r->Ok_0.project_id@ == m.project_id@),
            member matches Ok(Some(m)) ==> (m.responsibility_state != ProjectMemberResponsibilityState::Active
                ==> r == Err::<ProjectRef, ApplicationError>(ApplicationError::NotFound)),
    {
        let member = require_found(member)?;
        if member.responsibility_state != ProjectMemberResponsibilityState::Active {
            return Err(ApplicationError::NotFound);
        }
        Ok(ProjectRef { project_id: member.project_id })
    }

    /// The backlog of the accepted work's project, which must exist.
    pub fn load_accept_target_backlog(
        project_ref: ProjectRef,
        assignee_ref: ProjectMemberRef,
        backlog: Result<Option<BacklogRecord>, RepositoryError>,
    ) -> (r: Result<AcceptTarget, ApplicationError>)
        ensures
            match found(backlog) {
                Ok(record) => r == Ok::<AcceptTarget, ApplicationError>(AcceptTarget { project_ref, backlog: record, assignee_ref }),
                Err(error) => r == Err::<AcceptTarget, ApplicationError>(error),
            },
    {
        let backlog = require_found(backlog)?;
        Ok(AcceptTarget { project_ref, backlog, assignee_ref })
    }

    /// The views that accepted work makes stale: the project's board and the assignee's
    /// member-work view.
    pub fn accepted_stale_views(target: &AcceptTarget) -> (r: Vec<DerivedWorkViewRef>)
        ensures
            r@.len() == 2,
            r@[0]@ == (DerivedViewKind::ProjectBoard, target.project_ref@, None::<Seq<char>>),
            r@[1]@ == (DerivedViewKind::MemberWork, target.assignee_ref@, None::<Seq<char>>),
    {
        let mut views = Vec::new();
        views.push(DerivedWorkViewRef::project_board(&target.project_ref));
        views.push(DerivedWorkViewRef::member_work(&target.assignee_ref));
        views
    }

    /// The outbox records a review enqueues: the promote result's, then the created
    /// work's when the review accepted.
    pub fn review_outbox_refs(promote_outbox: String, work_outbox: Option<String>) -> (r: Vec<String>)
        ensures
            work_outbox is None ==> r@ == seq![promote_outbox],
            work_outbox is Some ==> r@ == seq![promote_outbox, work_outbox->Some_0],
    {
        let mut refs = Vec::new();
        refs.push(promote_outbox);
        match work_outbox {
            Some(work) => refs.push(work),
            None => {},
        }
        refs
    }

    /// The command result of a recorded or reviewed promotion.
    pub fn command_result(
        promote_result_ref: String,
        result_state: PromoteResultState,
        created_work_ref: Option<FormalWorkRef>,
        result_ref: ApplicationResultRef,
        trace_id: String,
        outbox_refs: Vec<String>,
        version: u64,
    ) -> (r: PromoteCommandResult)
        ensures
            r.promote_result_ref == promote_result_ref,
            r.result_state == result_state,
            r.created_work_ref == created_work_ref,
            r.receipt == (WorkCommandReceipt {
                result_ref,
                trace_id: Some(trace_id),
                outbox_refs,
                version,
                idempotency: crate::contracts::IdempotencyResultView::Applied,
            }),
    {
        PromoteCommandResult {
            promote_result_ref,
            result_state,
            created_work_ref,
            receipt: WorkCommandReceipt::applied(result_ref, Some(trace_id), outbox_refs, version),
        }
    }

    /// Replays the stored result of a duplicate promote command.
    pub fn load_duplicate_promote_result(
        operation: &String,
        stored: Result<Option<StoredCommandResult>, RepositoryError>,
    ) -> (r: Result<PromoteCommandResult, ApplicationError>)
        ensures
            match stored {
                Err(error) => r == Err::<PromoteCommandResult, ApplicationError>(repository_failure(error)),
                Ok(Some(StoredCommandResult::Promote(result))) => if result.receipt.result_ref.operation@ == operation@ {
                    r == Ok::<PromoteCommandResult, ApplicationError>(PromoteCommandResult { receipt: duplicate_of(result.receipt), ..result })
                } else {
                    r == Err::<PromoteCommandResult, ApplicationError>(ApplicationError::DuplicateResultMissing)
                },
                Ok(_) => r == Err::<PromoteCommandResult, ApplicationError>(ApplicationError::DuplicateResultMissing),
            },
    {
        let stored = match stored {
            Ok(stored) => stored,
            Err(error) => return Err(Self::map_repository_error(error)),
        };
        let result = match stored {
            Some(result) => result.into_promote_result(operation),
            None => None,
        };
        match result {
            Some(result) => Ok(result.with_duplicate_receipt()),
            None => Err(ApplicationError::DuplicateResultMissing),
        }
    }

    /// The truth cursor of formal work created by an accepted review.
    pub fn work_cursor(work_ref: &FormalWorkRef, version: u64) -> (r: String)
        ensures
            r@ == work_cursor_text(work_ref@, version),
    {
        formal_work_cursor(work_ref, version)
    }

    /// A failed step rolls the transaction back before its error is returned.
    pub fn rollback_and_err(error: ApplicationError, rollback: Result<(), UnitOfWorkError>) -> (r: ApplicationError)
        ensures
            r == crate::ports::after_rollback(error, rollback),
    {
        crate::ports::rollback_and_err(error, rollback)
    }

    pub fn map_repository_error(error: RepositoryError) -> (r: ApplicationError)
        ensures
            r == repository_failure(error),
    {
        crate::ports::classify_repository_error(error)
    }

    pub fn map_port_error(error: PortError) -> (r: ApplicationError)
        ensures
            r == port_failure_domain(error),
    {
        crate::ports::classify_port_error_domain(error)
    }

    pub fn map_domain_error(error: DomainError) -> (r: ApplicationError)
        ensures
            r == domain_failure_fine(error),
    {
        crate::ports::classify_domain_error_fine(error)
    }

    pub fn map_idempotency_error(error: IdempotencyError) -> (r: ApplicationError)
        ensures
            r == idempotency_failure(error),
    {
        crate::ports::classify_idempotency_error(error)
    }

    pub fn map_uow_error_begin(_error: UnitOfWorkError) -> (r: ApplicationError)
        ensures
            r == ApplicationError::TemporarilyUnavailable,
    {
        ApplicationError::TemporarilyUnavailable
    }

    pub fn map_uow_error_commit(error: UnitOfWorkError) -> (r: ApplicationError)
        ensures
            r == commit_failure(error),
    {
        crate::ports::classify_commit_error(error)
    }

    pub fn map_uow_error_rollback(_error: UnitOfWorkError) -> (r: ApplicationError)
        ensures
            r == ApplicationError::TemporarilyUnavailable,
    {
        ApplicationError::TemporarilyUnavailable
    }
}

} // verus!
