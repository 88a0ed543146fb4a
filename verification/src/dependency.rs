//! Dependency and blocker command decisions: linking work, moving a dependency between
//! states with the reason that names the move, and opening and resolving blockers.

use vstd::prelude::*;

use crate::command::{cursor_text, found, require_found, versioned_cursor};
use crate::contracts::{
    ApplicationResultRef, BlockerState, DependencyState, DerivedViewKind, DerivedWorkViewRef,
    EvidenceVerifiedState, IdempotencyResultView, ProjectRef, WorkCommandReceipt,
};
use crate::errors::ApplicationError;
use crate::ports::{
    commit_failure, domain_failure_fine, idempotency_failure, port_failure_domain,
    repository_failure, DomainError, IdempotencyError, PortError, RepositoryError, UnitOfWorkError,
};
use crate::records::{FormalWorkRecord, FormalWorkScope};
use crate::results::{
    duplicate_of, BlockerCommandResult, DependencyCommandResult, StoredCommandResult,
};

verus! {

/// The dependency state a command asks for.
#[derive(Clone, Copy, Debug, PartialEq, Eq, Structural)]
pub enum DependencyTarget {
    Active,
    Satisfied,
    Waived,
    Cancelled,
}

/// Why a dependency changes.
#[derive(Clone, Copy, Debug, PartialEq, Eq, Structural)]
pub enum DependencyChangeReasonKind {
    Activated,
    SatisfiedByEvidence,
    Waived,
    Cancelled,
}

/// What a valid state change goes on to do.
#[derive(Clone, Debug)]
pub enum DependencyPlan {
    /// Check the project's dependency graph, then activate.
    Activate,
    /// Resolve this evidence; it must be verified before the dependency is satisfied.
    Satisfy(String),
    Waive,
    Cancel,
}

/// The reason kind that names each target.
pub open spec fn reason_for(target: DependencyTarget) -> DependencyChangeReasonKind {
    match target {
        DependencyTarget::Active => DependencyChangeReasonKind::Activated,
        DependencyTarget::Satisfied => DependencyChangeReasonKind::SatisfiedByEvidence,
        DependencyTarget::Waived => DependencyChangeReasonKind::Waived,
        DependencyTarget::Cancelled => DependencyChangeReasonKind::Cancelled,
    }
}

/// A state change needs the reason that names its target; satisfying also needs evidence.
pub open spec fn dependency_plan_of(target: DependencyTarget, reason_kind: DependencyChangeReasonKind, evidence_ref: Option<String>) -> Result<DependencyPlan, ApplicationError> {
    if reason_kind != reason_for(target) {
        Err(ApplicationError::InvalidRequest)
    } else {
        match target {
            DependencyTarget::Active => Ok(DependencyPlan::Activate),
            DependencyTarget::Satisfied => match evidence_ref {
                Some(evidence) => Ok(DependencyPlan::Satisfy(evidence)),
                None => Err(ApplicationError::InvalidRequest),
            },
            DependencyTarget::Waived => Ok(DependencyPlan::Waive),
            DependencyTarget::Cancelled => Ok(DependencyPlan::Cancel),
        }
    }
}

/// The stored dependency result of a duplicate request, marked as a replay.
pub open spec fn replayed_dependency(operation: Seq<char>, stored: Result<Option<StoredCommandResult>, RepositoryError>) -> Result<DependencyCommandResult, ApplicationError> {
    match stored {
        Err(error) => Err(repository_failure(error)),
        Ok(Some(StoredCommandResult::Dependency(result))) => if result.receipt.result_ref.operation@ == operation {
            Ok(DependencyCommandResult { receipt: duplicate_of(result.receipt), ..result })
        } else {
            Err(ApplicationError::DuplicateResultMissing)
        },
        Ok(_) => Err(ApplicationError::DuplicateResultMissing),
    }
}

/// The stored blocker result of a duplicate request, marked as a replay.
pub open spec fn replayed_blocker(operation: Seq<char>, stored: Result<Option<StoredCommandResult>, RepositoryError>) -> Result<BlockerCommandResult, ApplicationError> {
    match stored {
        Err(error) => Err(repository_failure(error)),
        Ok(Some(StoredCommandResult::Blocker(result))) => if result.receipt.result_ref.operation@ == operation {
            Ok(BlockerCommandResult { receipt: duplicate_of(result.receipt), ..result })
        } else {
            Err(ApplicationError::DuplicateResultMissing)
        },
        Ok(_) => Err(ApplicationError::DuplicateResultMissing),
    }
}

/// Coordinates dependency and blocker commands inside one application transaction boundary.
pub struct DependencyBlockerService<D, W, A, O, R, PR, U, E, I, C, IDEM> {
    /// Dependency and blocker repository port.
    pub dependency_repo: D,
    /// Formal work repository port.
    pub work_repo: W,
    /// Audit repository port.
    pub audit_repo: A,
    /// Outbox repository port.
    pub outbox_repo: O,
    /// Stored command result repository port.
    pub command_results: R,
    /// Projection freshness repository port.
    pub projection_repo: PR,
    /// Unit of work factory.
    pub unit_of_work: U,
    /// Evidence resolver port.
    pub evidence_resolver: E,
    /// Id generator.
    pub ids: I,
    /// Clock port.
    pub clock: C,
    /// Idempotency repository.
    pub idempotency: IDEM,
}

impl<D, W, A, O, R, PR, U, E, I, C, IDEM> DependencyBlockerService<D, W, A, O, R, PR, U, E, I, C, IDEM> {
    /// Both ends of a relation must be existing formal work.
    pub fn ensure_formal_work_exists(loaded: Result<Option<FormalWorkRecord>, RepositoryError>) -> (r: Result<(), ApplicationError>)
        ensures
            match found(loaded) {
                Ok(_) => r == Ok::<(), ApplicationError>(()),
                Err(error) => r == Err::<(), ApplicationError>(error),
            },
    {
        require_found(loaded)?;
        Ok(())
    }

    /// The scope of the work a relation affects, which must exist.
    pub fn relation_scope(loaded: Result<Option<FormalWorkScope>, RepositoryError>) -> (r: Result<FormalWorkScope, ApplicationError>)
        ensures
            r == found(loaded),
    {
        require_found(loaded)
    }

    /// A graph snapshot of another project than the relation's cannot be checked against.
    pub fn graph_matches(graph_project: &ProjectRef, scope: &FormalWorkScope) -> (r: Result<(), ApplicationError>)
        ensures
            r == (if graph_project@ == scope.project_ref@ {
                Ok::<(), ApplicationError>(())
            } else {
                Err(ApplicationError::DomainRejected)
            }),
    {
        if graph_project.same_as(&scope.project_ref) {
            Ok(())
        } else {
            Err(ApplicationError::DomainRejected)
        }
    }

    /// What a dependency state change does.
    pub fn dependency_plan(target: DependencyTarget, reason_kind: DependencyChangeReasonKind, evidence_ref: Option<String>) -> (r: Result<DependencyPlan, ApplicationError>)
        ensures
            r == dependency_plan_of(target, reason_kind, evidence_ref),
            // The plan names the same state as the target.
            r is Ok ==> (target == DependencyTarget::Active <==> r->Ok_0 is Activate),
            r is Ok ==> (target == DependencyTarget::Satisfied <==> r->Ok_0 is Satisfy),
            r is Ok ==> (target == DependencyTarget::Waived <==> r->Ok_0 is Waive),
            r is Ok ==> (target == DependencyTarget::Cancelled <==> r->Ok_0 is Cancel),
            r is Ok && target == DependencyTarget::Satisfied ==> r == Ok::<DependencyPlan, ApplicationError>(DependencyPlan::Satisfy(evidence_ref->Some_0)),
            // A change is planned exactly when its reason names its target and, to satisfy,
            // evidence is given; otherwise the request is invalid.
            r is Ok <==> (reason_kind == reason_for(target) && (target != DependencyTarget::Satisfied || evidence_ref is Some)),
            r is Err ==> r == Err::<DependencyPlan, ApplicationError>(ApplicationError::InvalidRequest),
    {
        let expected = match target {
            DependencyTarget::Active => DependencyChangeReasonKind::Activated,
            DependencyTarget::Satisfied => DependencyChangeReasonKind::SatisfiedByEvidence,
            DependencyTarget::Waived => DependencyChangeReasonKind::Waived,
            DependencyTarget::Cancelled => DependencyChangeReasonKind::Cancelled,
        };
        if reason_kind != expected {
            return Err(ApplicationError::InvalidRequest);
        }
        match target {
            DependencyTarget::Active => Ok(DependencyPlan::Activate),
            DependencyTarget::Satisfied => match evidence_ref {
                Some(evidence) => Ok(DependencyPlan::Satisfy(evidence)),
                None => Err(ApplicationError::InvalidRequest),
            },
            DependencyTarget::Waived => Ok(DependencyPlan::Waive),
            DependencyTarget::Cancelled => Ok(DependencyPlan::Cancel),
        }
    }

    /// Satisfying a dependency or resolving a blocker takes verified evidence only.
    pub fn require_verified_evidence(state: EvidenceVerifiedState) -> (r: Result<(), ApplicationError>)
        ensures
            r == (if state == EvidenceVerifiedState::Verified {
                Ok::<(), ApplicationError>(())
            } else {
                Err(ApplicationError::InvalidRequest)
            }),
    {
        match state {
            EvidenceVerifiedState::Verified => Ok(()),
            EvidenceVerifiedState::Rejected | EvidenceVerifiedState::Unverified => Err(ApplicationError::InvalidRequest),
        }
    }

    /// The views a relation change makes stale: the board of the affected work's project,
    /// then the member-work view of its assignee when it has one.
    pub fn affected_relation_views(scope: &FormalWorkScope) -> (r: Vec<DerivedWorkViewRef>)
        ensures
            r@.len() == (if scope.assignee_ref is Some { 2int } else { 1int }),
            r@[0]@ == (DerivedViewKind::ProjectBoard, scope.project_ref@, None::<Seq<char>>),
            scope.assignee_ref is Some ==> r@[1]@ == (DerivedViewKind::MemberWork, scope.assignee_ref->Some_0@, None::<Seq<char>>),
    {
        let mut affected = Vec::new();
        affected.push(DerivedWorkViewRef::project_board(&scope.project_ref));
        match &scope.assignee_ref {
            Some(member_ref) => affected.push(DerivedWorkViewRef::member_work(member_ref)),
            None => {},
        }
        affected
    }

    /// The truth cursor of a dependency or blocker at a version.
    pub fn relation_cursor(prefix: &str, relation_id: &str, version: u64) -> (r: String)
        ensures
            r@ == cursor_text(prefix@, relation_id@, version),
    {
        versioned_cursor(prefix, relation_id, version)
    }

    /// The result of a dependency command.
    pub fn dependency_result(
        dependency_ref: String,
        dependency_state: DependencyState,
        result_ref: ApplicationResultRef,
        trace_id: String,
        outbox_id: String,
        version: u64,
    ) -> (r: DependencyCommandResult)
        ensures
            r.dependency_ref == dependency_ref,
            r.dependency_state == dependency_state,
            r.receipt.result_ref == result_ref,
            r.receipt.trace_id == Some(trace_id),
            r.receipt.outbox_refs@ == seq![outbox_id],
            r.receipt.version == version,
            r.receipt.idempotency == IdempotencyResultView::Applied,
    {
        let mut outbox_refs = Vec::new();
        outbox_refs.push(outbox_id);
        DependencyCommandResult {
            dependency_ref,
            dependency_state,
            receipt: WorkCommandReceipt::applied(result_ref, Some(trace_id), outbox_refs, version),
        }
    }

    /// The result of a blocker command.
    pub fn blocker_result(
        blocker_ref: String,
        blocker_state: BlockerState,
        result_ref: ApplicationResultRef,
        trace_id: String,
        outbox_id: String,
        version: u64,
    ) -> (r: BlockerCommandResult)
        ensures
            r.blocker_ref == blocker_ref,
            r.blocker_state == blocker_state,
            r.receipt.result_ref == result_ref,
            r.receipt.trace_id == Some(trace_id),
            r.receipt.outbox_refs@ == seq![outbox_id],
            r.receipt.version == version,
            r.receipt.idempotency == IdempotencyResultView::Applied,
    {
        let mut outbox_refs = Vec::new();
        outbox_refs.push(outbox_id);
        BlockerCommandResult {
            blocker_ref,
            blocker_state,
            receipt: WorkCommandReceipt::applied(result_ref, Some(trace_id), outbox_refs, version),
        }
    }

    /// Replays the stored result of a duplicate dependency command.
    pub fn load_duplicate_dependency_result(
        operation: &String,
        stored: Result<Option<StoredCommandResult>, RepositoryError>,
    ) -> (r: Result<DependencyCommandResult, ApplicationError>)
        ensures
            r == replayed_dependency(operation@, stored),
    {
        let stored = match stored {
            Ok(stored) => stored,
            Err(error) => return Err(Self::map_repository_error(error)),
        };
        let result = match stored {
            Some(result) => result.into_dependency_result(operation),
            None => None,
        };
        match result {
            Some(result) => Ok(result.with_duplicate_receipt()),
            None => Err(ApplicationError::DuplicateResultMissing),
        }
    }

    /// Replays the stored result of a duplicate blocker command.
    pub fn load_duplicate_blocker_result(
        operation: &String,
        stored: Result<Option<StoredCommandResult>, RepositoryError>,
    ) -> (r: Result<BlockerCommandResult, ApplicationError>)
        ensures
            r == replayed_blocker(operation@, stored),
    {
        let stored = match stored {
            Ok(stored) => stored,
            Err(error) => return Err(Self::map_repository_error(error)),
        };
        let result = match stored {
            Some(result) => result.into_blocker_result(operation),
            None => None,
        };
        match result {
            Some(result) => Ok(result.with_duplicate_receipt()),
            None => Err(ApplicationError::DuplicateResultMissing),
        }
    }

    /// A failed step rolls the transaction back before its error is returned.
    pub fn rollback_and_err(error: ApplicationError, rollback: Result<(), UnitOfWorkError>) -> (r: ApplicationError)
        ensures
            r == crate::ports::after_rollback(error, rollback),
    {
        crate::ports::rollback_and_err(error, rollback)
    }

    pub fn map_repository_error(error: RepositoryError) -> (r: ApplicationError)
        ensures
            r == repository_failure(error),
    {
        crate::ports::classify_repository_error(error)
    }

    pub fn map_port_error(error: PortError) -> (r: ApplicationError)
        ensures
            r == port_failure_domain(error),
    {
        crate::ports::classify_port_error_domain(error)
    }

    pub fn map_domain_error(error: DomainError) -> (r: ApplicationError)
        ensures
            r == domain_failure_fine(error),
    {
        crate::ports::classify_domain_error_fine(error)
    }

    pub fn map_idempotency_error(error: IdempotencyError) -> (r: ApplicationError)
        ensures
            r == idempotency_failure(error),
    {
        crate::ports::classify_idempotency_error(error)
    }

    pub fn map_uow_error_begin(_error: UnitOfWorkError) -> (r: ApplicationError)
        ensures
            r == ApplicationError::TemporarilyUnavailable,
    {
        ApplicationError::TemporarilyUnavailable
    }

    pub fn map_uow_error_commit(error: UnitOfWorkError) -> (r: ApplicationError)
        ensures
            r == commit_failure(error),
    {
        crate::ports::classify_commit_error(error)
    }

    pub fn map_uow_error_rollback(_error: UnitOfWorkError) -> (r: ApplicationError)
        ensures
            r == ApplicationError::TemporarilyUnavailable,
    {
        ApplicationError::TemporarilyUnavailable
    }
}

} // verus!
