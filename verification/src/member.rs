//! Project member command decisions: assigning an identity to a project and moving a
//! responsibility between proposed, active, paused and released.

use vstd::prelude::*;

use crate::command::{cursor_text, found, require_found, versioned_cursor};
use crate::contracts::{
    ApplicationResultRef, DerivedViewKind, DerivedWorkViewRef, IdempotencyResultView,
    ProjectMemberRef, ProjectMemberResponsibilityState, ProjectRef, WorkCommandReceipt,
};
use crate::errors::ApplicationError;
use crate::ports::{
    commit_failure, idempotency_failure, port_failure_domain, repository_failure, DomainError,
    IdempotencyError, PortError, RepositoryError, UnitOfWorkError,
};
use crate::records::{ProjectMemberRecord, ProjectRecord};
use crate::results::{duplicate_of, ProjectMemberCommandResult, StoredCommandResult};

verus! {

/// The responsibility state a command asks for.
#[derive(Clone, Copy, Debug, PartialEq, Eq, Structural)]
pub enum ResponsibilityTarget {
    Active,
    Paused,
    Released,
}

/// Why a responsibility changes.
#[derive(Clone, Copy, Debug, PartialEq, Eq, Structural)]
pub enum ProjectMemberReasonKind {
    Assigned,
    Released,
}

/// Capability snapshot of a global member, cached so that activation does not depend on
/// the identity service being up.
#[derive(Clone, Debug)]
pub struct MemberCapabilitySnapshot {
    pub member_id: String,
    pub capability_refs: Vec<String>,
}

/// Where the snapshot for an activation comes from.
#[derive(Clone, Debug)]
pub enum SnapshotSource {
    /// The cached snapshot.
    Cached(MemberCapabilitySnapshot),
    /// None is cached: resolve it through the member reference port and cache it.
    Resolve,
}

/// What a responsibility change does once the member is loaded.
#[derive(Clone, Copy, Debug, PartialEq, Eq, Structural)]
pub enum ResponsibilityPlan {
    /// Make the member active again, which needs a capability snapshot.
    Reactivate,
    Pause,
    Release,
}

/// How a member becomes active.
#[derive(Clone, Copy, Debug, PartialEq, Eq, Structural)]
pub enum Activation {
    /// First activation of a proposed member.
    Activate,
    /// Resumption of a paused member.
    Resume,
}

/// The change a responsibility command plans: releasing needs a release reason.
pub open spec fn responsibility_plan_of(target: ResponsibilityTarget, reason_kind: ProjectMemberReasonKind) -> Result<ResponsibilityPlan, ApplicationError> {
    match target {
        ResponsibilityTarget::Active => Ok(ResponsibilityPlan::Reactivate),
        ResponsibilityTarget::Paused => Ok(ResponsibilityPlan::Pause),
        ResponsibilityTarget::Released => if reason_kind == ProjectMemberReasonKind::Released {
            Ok(ResponsibilityPlan::Release)
        } else {
            Err(ApplicationError::DomainRejected)
        },
    }
}

/// Only a proposed member can be activated and only a paused one resumed.
pub open spec fn activation_of(state: ProjectMemberResponsibilityState) -> Result<Activation, ApplicationError> {
    match state {
        ProjectMemberResponsibilityState::Proposed => Ok(Activation::Activate),
        ProjectMemberResponsibilityState::Paused => Ok(Activation::Resume),
        _ => Err(ApplicationError::DomainRejected),
    }
}

/// The stored member result of a duplicate request, marked as a replay.
pub open spec fn replayed_member(operation: Seq<char>, stored: Result<Option<StoredCommandResult>, RepositoryError>) -> Result<ProjectMemberCommandResult, ApplicationError> {
    match stored {
        Err(error) => Err(repository_failure(error)),
        Ok(Some(StoredCommandResult::ProjectMember(result))) => if result.receipt.result_ref.operation@ == operation {
            Ok(ProjectMemberCommandResult { receipt: duplicate_of(result.receipt), ..result })
        } else {
            Err(ApplicationError::DuplicateResultMissing)
        },
        Ok(_) => Err(ApplicationError::DuplicateResultMissing),
    }
}

/// Coordinates project member commands inside one application transaction boundary.
pub struct ProjectMemberCommandService<P, PM, RS, A, O, R, PR, U, M, I, C, IDEM> {
    /// Project repository port.
    pub project_repo: P,
    /// Project member repository port.
    pub member_repo: PM,
    /// Reference snapshot repository port.
    pub snapshot_repo: RS,
    /// Audit repository port.
    pub audit_repo: A,
    /// Outbox repository port.
    pub outbox_repo: O,
    /// Stored command result repository port.
    pub command_results: R,
    /// Projection freshness repository port.
    pub projection_repo: PR,
    /// Unit of work factory.
    pub unit_of_work: U,
    /// Member reference port.
    pub member_refs: M,
    /// Id generator.
    pub ids: I,
    /// Clock port.
    pub clock: C,
    /// Idempotency repository.
    pub idempotency: IDEM,
}

impl<P, PM, RS, A, O, R, PR, U, M, I, C, IDEM> ProjectMemberCommandService<P, PM, RS, A, O, R, PR, U, M, I, C, IDEM> {
    /// The project an assignment targets, which must exist.
    pub fn assignment_project(loaded: Result<Option<ProjectRecord>, RepositoryError>) -> (r: Result<ProjectRecord, ApplicationError>)
        ensures
            r == found(loaded),
    {
        require_found(loaded)
    }

    /// An identity holds at most one responsibility per project: assigning it again is
    /// rejected.
    pub fn admit_assignment(existing: Result<Option<ProjectMemberRecord>, RepositoryError>) -> (r: Result<(), ApplicationError>)
        ensures
            match existing {
                Ok(Some(_)) => r == Err::<(), ApplicationError>(ApplicationError::DomainRejected),
                Ok(None) => r == Ok::<(), ApplicationError>(()),
                Err(error) => r == Err::<(), ApplicationError>(repository_failure(error)),
            },
    {
        match existing {
            Ok(Some(_)) => Err(ApplicationError::DomainRejected),
            Ok(None) => Ok(()),
            Err(error) => Err(Self::map_repository_error(error)),
        }
    }

    /// The member a responsibility command changes, which must exist.
    pub fn responsibility_member(loaded: Result<Option<ProjectMemberRecord>, RepositoryError>) -> (r: Result<ProjectMemberRecord, ApplicationError>)
        ensures
            r == found(loaded),
    {
        require_found(loaded)
    }

    /// The cached snapshot when there is one; otherwise it must be resolved.
    pub fn snapshot_source(cached: Result<Option<MemberCapabilitySnapshot>, RepositoryError>) -> (r: Result<SnapshotSource, ApplicationError>)
        ensures
            match cached {
                Ok(Some(snapshot)) => r == Ok::<SnapshotSource, ApplicationError>(SnapshotSource::Cached(snapshot)),
                Ok(None) => r == Ok::<SnapshotSource, ApplicationError>(SnapshotSource::Resolve),
                Err(error) => r == Err::<SnapshotSource, ApplicationError>(repository_failure(error)),
            },
    {
        match cached {
            Ok(Some(snapshot)) => Ok(SnapshotSource::Cached(snapshot)),
            Ok(None) => Ok(SnapshotSource::Resolve),
            Err(error) => Err(Self::map_repository_error(error)),
        }
    }

    /// The snapshot built from a resolved capability input: a port failure, or a domain
    /// refusal of the input, fails the command.
    pub fn snapshot_from_input(
        resolved: Result<MemberCapabilitySnapshot, PortError>,
        accepted: Result<(), DomainError>,
    ) -> (r: Result<MemberCapabilitySnapshot, ApplicationError>)
        ensures
            match resolved {
                Err(error) => r == Err::<MemberCapabilitySnapshot, ApplicationError>(port_failure_domain(error)),
                Ok(snapshot) => match accepted {
                    Ok(()) => r == Ok::<MemberCapabilitySnapshot, ApplicationError>(snapshot),
                    Err(_) => r == Err::<MemberCapabilitySnapshot, ApplicationError>(ApplicationError::DomainRejected),
                },
            },
    {
        let snapshot = match resolved {
            Ok(snapshot) => snapshot,
            Err(error) => return Err(Self::map_member_port_error(error)),
        };
        match accepted {
            Ok(()) => Ok(snapshot),
            Err(error) => Err(Self::map_domain_error(error)),
        }
    }

    /// The change a responsibility command plans.
    pub fn responsibility_plan(target: ResponsibilityTarget, reason_kind: ProjectMemberReasonKind) -> (r: Result<ResponsibilityPlan, ApplicationError>)
        ensures
            r == responsibility_plan_of(target, reason_kind),
            // The plan moves to the state the command targets.
            target == ResponsibilityTarget::Active ==> r == Ok::<ResponsibilityPlan, ApplicationError>(ResponsibilityPlan::Reactivate),
            target == ResponsibilityTarget::Paused ==> r == Ok::<ResponsibilityPlan, ApplicationError>(ResponsibilityPlan::Pause),
            // Releasing needs the release reason; any other reason is rejected.
            target == ResponsibilityTarget::Released ==> (r is Ok <==> reason_kind == ProjectMemberReasonKind::Released),
            target == ResponsibilityTarget::Released && r is Ok ==> r->Ok_0 == ResponsibilityPlan::Release,
            r is Err ==> r == Err::<ResponsibilityPlan, ApplicationError>(ApplicationError::DomainRejected),
    {
        match target {
            ResponsibilityTarget::Active => Ok(ResponsibilityPlan::Reactivate),
            ResponsibilityTarget::Paused => Ok(ResponsibilityPlan::Pause),
            ResponsibilityTarget::Released => {
                if reason_kind == ProjectMemberReasonKind::Released {
                    Ok(ResponsibilityPlan::Release)
                } else {
                    Err(ApplicationError::DomainRejected)
                }
            },
        }
    }

    /// How a member with the given state becomes active.
    pub fn activation(state: ProjectMemberResponsibilityState) -> (r: Result<Activation, ApplicationError>)
        ensures
            r == activation_of(state),
            // A proposed member is activated, a paused one resumed; an active or released
            // member cannot become active this way.
            r == Ok::<Activation, ApplicationError>(Activation::Activate) <==> state == ProjectMemberResponsibilityState::Proposed,
            r == Ok::<Activation, ApplicationError>(Activation::Resume) <==> state == ProjectMemberResponsibilityState::Paused,
            r is Err <==> (state == ProjectMemberResponsibilityState::Active || state == ProjectMemberResponsibilityState::Released),
            r is Err ==> r == Err::<Activation, ApplicationError>(ApplicationError::DomainRejected),
    {
        match state {
            ProjectMemberResponsibilityState::Proposed => Ok(Activation::Activate),
            ProjectMemberResponsibilityState::Paused => Ok(Activation::Resume),
            ProjectMemberResponsibilityState::Active | ProjectMemberResponsibilityState::Released => {
                Err(ApplicationError::DomainRejected)
            },
        }
    }

    /// The views a member change makes stale: the project's board and the member's work.
    pub fn member_stale_views(project_ref: &ProjectRef, member_ref: &ProjectMemberRef) -> (r: Vec<DerivedWorkViewRef>)
        ensures
            r@.len() == 2,
            r@[0]@ == (DerivedViewKind::ProjectBoard, project_ref@, None::<Seq<char>>),
            r@[1]@ == (DerivedViewKind::MemberWork, member_ref@, None::<Seq<char>>),
    {
        let mut views = Vec::new();
        views.push(DerivedWorkViewRef::project_board(project_ref));
        views.push(DerivedWorkViewRef::member_work(member_ref));
        views
    }

    /// The result of a member command.
    pub fn member_result(
        project_member_ref: ProjectMemberRef,
        responsibility_state: ProjectMemberResponsibilityState,
        result_ref: ApplicationResultRef,
        trace_id: String,
        outbox_id: String,
        version: u64,
    ) -> (r: ProjectMemberCommandResult)
        ensures
            r.project_member_ref == project_member_ref,
            r.responsibility_state == responsibility_state,
            r.receipt.result_ref == result_ref,
            r.receipt.trace_id == Some(trace_id),
            r.receipt.outbox_refs@ == seq![outbox_id],
            r.receipt.version == version,
            r.receipt.idempotency == IdempotencyResultView::Applied,
    {
        let mut outbox_refs = Vec::new();
        outbox_refs.push(outbox_id);
        ProjectMemberCommandResult {
            project_member_ref,
            responsibility_state,
            receipt: WorkCommandReceipt::applied(result_ref, Some(trace_id), outbox_refs, version),
        }
    }

    /// Replays the stored result of a duplicate member command.
    pub fn load_duplicate_member_result(
        operation: &String,
        stored: Result<Option<StoredCommandResult>, RepositoryError>,
    ) -> (r: Result<ProjectMemberCommandResult, ApplicationError>)
        ensures
            r == replayed_member(operation@, stored),
    {
        let stored = match stored {
            Ok(stored) => stored,
            Err(error) => return Err(Self::map_repository_error(error)),
        };
        let result = match stored {
            Some(result) => result.into_project_member_result(operation),
            None => None,
        };
        match result {
            Some(result) => Ok(result.with_duplicate_receipt()),
            None => Err(ApplicationError::DuplicateResultMissing),
        }
    }

    /// The truth cursor of a project member at a version.
    pub fn member_cursor(member_ref: &ProjectMemberRef, version: u64) -> (r: String)
        ensures
            r@ == cursor_text("project_member"@, member_ref@, version),
    {
        versioned_cursor("project_member", member_ref.project_member_id.as_str(), version)
    }

    /// A failed step rolls the transaction back before its error is returned.
    pub fn rollback_and_err(error: ApplicationError, rollback: Result<(), UnitOfWorkError>) -> (r: ApplicationError)
        ensures
            r == crate::ports::after_rollback(error, rollback),
    {
        crate::ports::rollback_and_err(error, rollback)
    }

    pub fn map_repository_error(error: RepositoryError) -> (r: ApplicationError)
        ensures
            r == repository_failure(error),
    {
        crate::ports::classify_repository_error(error)
    }

    pub fn map_member_port_error(error: PortError) -> (r: ApplicationError)
        ensures
            r == port_failure_domain(error),
    {
        crate::ports::classify_port_error_domain(error)
    }

    pub fn map_idempotency_error(error: IdempotencyError) -> (r: ApplicationError)
        ensures
            r == idempotency_failure(error),
    {
        crate::ports::classify_idempotency_error(error)
    }

    pub fn map_uow_error_begin(_error: UnitOfWorkError) -> (r: ApplicationError)
        ensures
            r == ApplicationError::TemporarilyUnavailable,
    {
        ApplicationError::TemporarilyUnavailable
    }

    pub fn map_uow_error_commit(error: UnitOfWorkError) -> (r: ApplicationError)
        ensures
            r == commit_failure(error),
    {
        crate::ports::classify_commit_error(error)
    }

    pub fn map_uow_error_rollback(_error: UnitOfWorkError) -> (r: ApplicationError)
        ensures
            r == ApplicationError::TemporarilyUnavailable,
    {
        ApplicationError::TemporarilyUnavailable
    }

    /// Every domain refusal of a member change is a domain rejection.
    pub fn map_domain_error(_error: DomainError) -> (r: ApplicationError)
        ensures
            r == ApplicationError::DomainRejected,
    {
        ApplicationError::DomainRejected
    }
}

} // verus!
