//! Project and backlog command decisions: which records a command touches, which
//! derived views it makes stale at which cursor, and the result it reports.

use vstd::prelude::*;

use crate::command::{cursor_text, found, require_found, versioned_cursor};
use crate::contracts::{
    ApplicationResultRef, BacklogRef, BacklogState, DerivedViewKind, DerivedWorkViewRef,
    IdempotencyResultView, ProjectLifecycleState, ProjectRef, WorkCommandReceipt,
};
use crate::errors::ApplicationError;
use crate::ports::{
    commit_failure, idempotency_failure, port_failure_transient, repository_failure,
    DomainError, IdempotencyError, PortError, RepositoryError, UnitOfWorkError,
};
use crate::records::{BacklogRecord, ProjectRecord};
use crate::results::{
    duplicate_of, BacklogCommandResult, ProjectCommandResult, StoredCommandResult,
};

verus! {

/// Lifecycle targets a project command may request.
#[derive(Clone, Copy, Debug, PartialEq, Eq, Structural)]
pub enum ProjectLifecycleTarget {
    Closed,
    Archived,
}

/// Availability targets a backlog command may request.
#[derive(Clone, Copy, Debug, PartialEq, Eq, Structural)]
pub enum BacklogAvailabilityTarget {
    LockedForMaintenance,
    Open,
}

/// Which stored surface a duplicate of an operation replays.
#[derive(Clone, Copy, Debug, PartialEq, Eq, Structural)]
pub enum DuplicateSurface {
    Project,
    Backlog,
}

/// The backlog that archiving a project archives with it: its reference and the
/// version it was saved at.
#[derive(Clone, Debug)]
pub struct ArchivedBacklog {
    pub backlog_ref: BacklogRef,
    pub outbox_id: String,
    pub version: u64,
}

/// Backlog operations replay backlog results; every other project operation replays
/// project results.
pub open spec fn duplicate_surface_of(operation: Seq<char>) -> DuplicateSurface {
    if operation.len() >= "update_backlog"@.len() && operation.take("update_backlog"@.len() as int) == "update_backlog"@ {
        DuplicateSurface::Backlog
    } else {
        DuplicateSurface::Project
    }
}

/// The stored project result of a duplicate request, marked as a replay.
pub open spec fn replayed_project(operation: Seq<char>, stored: Result<Option<StoredCommandResult>, RepositoryError>) -> Result<ProjectCommandResult, ApplicationError> {
    match stored {
        Err(error) => Err(repository_failure(error)),
        Ok(Some(StoredCommandResult::Project(result))) => if result.receipt.result_ref.operation@ == operation {
            Ok(ProjectCommandResult { receipt: duplicate_of(result.receipt), ..result })
        } else {
            Err(ApplicationError::DuplicateResultMissing)
        },
        Ok(_) => Err(ApplicationError::DuplicateResultMissing),
    }
}

/// The stored backlog result of a duplicate request, marked as a replay.
pub open spec fn replayed_backlog(operation: Seq<char>, stored: Result<Option<StoredCommandResult>, RepositoryError>) -> Result<BacklogCommandResult, ApplicationError> {
    match stored {
        Err(error) => Err(repository_failure(error)),
        Ok(Some(StoredCommandResult::Backlog(result))) => if result.receipt.result_ref.operation@ == operation {
            Ok(BacklogCommandResult { receipt: duplicate_of(result.receipt), ..result })
        } else {
            Err(ApplicationError::DuplicateResultMissing)
        },
        Ok(_) => Err(ApplicationError::DuplicateResultMissing),
    }
}

/// Coordinates project and backlog commands inside one application transaction boundary.
pub struct ProjectCommandService<P, B, A, O, R, PR, U, I, C, IDEM> {
    /// Project repository port.
    pub project_repo: P,
    /// Backlog repository port.
    pub backlog_repo: B,
    /// Audit repository port.
    pub audit_repo: A,
    /// Outbox repository port.
    pub outbox_repo: O,
    /// Stored command result repository port.
    pub command_results: R,
    /// Projection freshness repository port.
    pub projection_repo: PR,
    /// Unit of work factory.
    pub unit_of_work: U,
    /// Id generator.
    pub ids: I,
    /// Clock port.
    pub clock: C,
    /// Idempotency repository.
    pub idempotency: IDEM,
}

impl<P, B, A, O, R, PR, U, I, C, IDEM> ProjectCommandService<P, B, A, O, R, PR, U, I, C, IDEM> {
    /// Which stored surface a duplicate of `operation` replays.
    pub fn duplicate_surface(operation: &str) -> (r: DuplicateSurface)
        ensures
            r == duplicate_surface_of(operation@),
    {
        let prefix = "update_backlog";
        proof {
            reveal_strlit("update_backlog");
        }
        let n = prefix.unicode_len();
        if operation.unicode_len() < n {
            return DuplicateSurface::Project;
        }
        let mut i: usize = 0;
        while i < n
            invariant
                i <= n,
                n == prefix@.len(),
                n <= operation@.len(),
                prefix@ == "update_backlog"@,
                forall|k: int| 0 <= k < i ==> operation@[k] == prefix@[k],
            decreases n - i,
        {
            if operation.get_char(i) != prefix.get_char(i) {
                return DuplicateSurface::Project;
            }
            i = i + 1;
        }
        proof {
            assert(operation@.take(n as int) =~= prefix@);
        }
        DuplicateSurface::Backlog
    }

    /// The audit trail version a new project's creation trace is saved against: the
    /// first version, unless the trail has a gap.
    pub fn creation_audit_version(has_gap: bool) -> (r: Option<u64>)
        ensures
            r == (if has_gap { None::<u64> } else { Some(1u64) }),
    {
        if has_gap {
            None
        } else {
            Some(1)
        }
    }

    /// The project a lifecycle command changes, which must exist.
    pub fn lifecycle_target(loaded: Result<Option<ProjectRecord>, RepositoryError>) -> (r: Result<ProjectRecord, ApplicationError>)
        ensures
            r == found(loaded),
    {
        require_found(loaded)
    }

    /// The backlog a backlog command changes, which must exist.
    pub fn backlog_target(loaded: Result<Option<BacklogRecord>, RepositoryError>) -> (r: Result<BacklogRecord, ApplicationError>)
        ensures
            r == found(loaded),
    {
        require_found(loaded)
    }

    /// Archiving a project archives its backlog too; the backlog must exist.
    pub fn archive_backlog(
        target: ProjectLifecycleTarget,
        loaded: Result<Option<(BacklogRecord, u64)>, RepositoryError>,
    ) -> (r: Result<Option<(BacklogRecord, u64)>, ApplicationError>)
        ensures
            target == ProjectLifecycleTarget::Closed ==> r == Ok::<Option<(BacklogRecord, u64)>, ApplicationError>(None),
            target == ProjectLifecycleTarget::Archived ==> match found(loaded) {
                Ok(pair) => r == Ok::<Option<(BacklogRecord, u64)>, ApplicationError>(Some(pair)),
                Err(error) => r == Err::<Option<(BacklogRecord, u64)>, ApplicationError>(error),
            },
    {
        match target {
            ProjectLifecycleTarget::Closed => Ok(None),
            ProjectLifecycleTarget::Archived => {
                let pair = require_found(loaded)?;
                Ok(Some(pair))
            },
        }
    }

    /// The board view of a project, the only view project and backlog changes make stale.
    pub fn board_views(project_ref: &ProjectRef) -> (r: Vec<DerivedWorkViewRef>)
        ensures
            r@.len() == 1,
            r@[0]@ == (DerivedViewKind::ProjectBoard, project_ref@, None::<Seq<char>>),
    {
        let mut views = Vec::new();
        views.push(DerivedWorkViewRef::project_board(project_ref));
        views
    }

    /// The board view of the project that owns a backlog.
    pub fn backlog_board_views(backlog: &BacklogRecord) -> (r: Vec<DerivedWorkViewRef>)
        ensures
            r@.len() == 1,
            r@[0]@ == (DerivedViewKind::ProjectBoard, backlog.project_id@, None::<Seq<char>>),
    {
        let project_ref = ProjectRef { project_id: backlog.project_id.clone() };
        Self::board_views(&project_ref)
    }

    /// Where a lifecycle change leaves the board's cursor and which outbox records it
    /// enqueued: the project's own, plus the archived backlog's when the backlog went too.
    pub fn lifecycle_effects(
        project_ref: &ProjectRef,
        project_version: u64,
        project_outbox: String,
        archived: Option<ArchivedBacklog>,
    ) -> (r: (String, Vec<String>))
        ensures
            archived is None ==> r.0@ == cursor_text("project"@, project_ref@, project_version)
                && r.1@ == seq![project_outbox],
            archived is Some ==> r.0@ == cursor_text("backlog"@, archived->Some_0.backlog_ref@, archived->Some_0.version)
                && r.1@ == seq![project_outbox, archived->Some_0.outbox_id],
    {
        let mut outbox_refs = Vec::new();
        outbox_refs.push(project_outbox);
        match archived {
            None => (Self::project_cursor(project_ref, project_version), outbox_refs),
            Some(backlog) => {
                let cursor = Self::backlog_cursor(&backlog.backlog_ref, backlog.version);
                outbox_refs.push(backlog.outbox_id);
                (cursor, outbox_refs)
            },
        }
    }

    /// The result of a project command.
    pub fn project_result(
        project_ref: ProjectRef,
        lifecycle_state: ProjectLifecycleState,
        result_ref: ApplicationResultRef,
        trace_id: String,
        outbox_refs: Vec<String>,
        version: u64,
    ) -> (r: ProjectCommandResult)
        ensures
            r == (ProjectCommandResult {
                project_ref,
                lifecycle_state,
                receipt: WorkCommandReceipt {
                    result_ref,
                    trace_id: Some(trace_id),
                    outbox_refs,
                    version,
                    idempotency: IdempotencyResultView::Applied,
                },
            }),
    {
        ProjectCommandResult {
            project_ref,
            lifecycle_state,
            receipt: WorkCommandReceipt::applied(result_ref, Some(trace_id), outbox_refs, version),
        }
    }

    /// The result of a backlog command.
    pub fn backlog_result(
        backlog_ref: BacklogRef,
        backlog_state: BacklogState,
        result_ref: ApplicationResultRef,
        trace_id: String,
        outbox_id: String,
        version: u64,
    ) -> (r: BacklogCommandResult)
        ensures
            r.backlog_ref == backlog_ref,
            r.backlog_state == backlog_state,
            r.receipt.result_ref == result_ref,
            r.receipt.trace_id == Some(trace_id),
            r.receipt.outbox_refs@ == seq![outbox_id],
            r.receipt.version == version,
            r.receipt.idempotency == IdempotencyResultView::Applied,
    {
        let mut outbox_refs = Vec::new();
        outbox_refs.push(outbox_id);
        BacklogCommandResult {
            backlog_ref,
            backlog_state,
            receipt: WorkCommandReceipt::applied(result_ref, Some(trace_id), outbox_refs, version),
        }
    }

    /// Replays the stored result of a duplicate project command.
    pub fn load_duplicate_project_result(
        operation: &String,
        stored: Result<Option<StoredCommandResult>, RepositoryError>,
    ) -> (r: Result<ProjectCommandResult, ApplicationError>)
        ensures
            r == replayed_project(operation@, stored),
    {
        let stored = match stored {
            Ok(stored) => stored,
            Err(error) => return Err(Self::map_repository_error(error)),
        };
        let result = match stored {
            Some(result) => result.into_project_result(operation),
            None => None,
        };
        match result {
            Some(result) => Ok(result.with_duplicate_receipt()),
            None => Err(ApplicationError::DuplicateResultMissing),
        }
    }

    /// Replays the stored result of a duplicate backlog command.
    pub fn load_duplicate_backlog_result(
        operation: &String,
        stored: Result<Option<StoredCommandResult>, RepositoryError>,
    ) -> (r: Result<BacklogCommandResult, ApplicationError>)
        ensures
            r == replayed_backlog(operation@, stored),
    {
        let stored = match stored {
            Ok(stored) => stored,
            Err(error) => return Err(Self::map_repository_error(error)),
        };
        let result = match stored {
            Some(result) => result.into_backlog_result(operation),
            None => None,
        };
        match result {
            Some(result) => Ok(result.with_duplicate_receipt()),
            None => Err(ApplicationError::DuplicateResultMissing),
        }
    }

    /// The truth cursor of a project at a version.
    pub fn project_cursor(project_ref: &ProjectRef, version: u64) -> (r: String)
        ensures
            r@ == cursor_text("project"@, project_ref@, version),
    {
        versioned_cursor("project", project_ref.project_id.as_str(), version)
    }

    /// The truth cursor of a backlog at a version.
    pub fn backlog_cursor(backlog_ref: &BacklogRef, version: u64) -> (r: String)
        ensures
            r@ == cursor_text("backlog"@, backlog_ref@, version),
    {
        versioned_cursor("backlog", backlog_ref.backlog_id.as_str(), version)
    }

    pub fn map_repository_error(error: RepositoryError) -> (r: ApplicationError)
        ensures
            r == repository_failure(error),
    {
        crate::ports::classify_repository_error(error)
    }

    pub fn map_port_error(error: PortError) -> (r: ApplicationError)
        ensures
            r == port_failure_transient(error),
    {
        match error {
            PortError::NotFound | PortError::Rejected => ApplicationError::ExternalReferenceUnresolved,
            PortError::Unavailable | PortError::InvalidResponse => ApplicationError::TemporarilyUnavailable,
        }
    }

    pub fn map_idempotency_error(error: IdempotencyError) -> (r: ApplicationError)
        ensures
            r == idempotency_failure(error),
    {
        crate::ports::classify_idempotency_error(error)
    }

    pub fn map_uow_error_begin(_error: UnitOfWorkError) -> (r: ApplicationError)
        ensures
            r == ApplicationError::TemporarilyUnavailable,
    {
        ApplicationError::TemporarilyUnavailable
    }

    pub fn map_uow_error_commit(error: UnitOfWorkError) -> (r: ApplicationError)
        ensures
            r == commit_failure(error),
    {
        crate::ports::classify_commit_error(error)
    }

    pub fn map_uow_error_rollback(_error: UnitOfWorkError) -> (r: ApplicationError)
        ensures
            r == ApplicationError::TemporarilyUnavailable,
    {
        ApplicationError::TemporarilyUnavailable
    }

    /// Every domain refusal of a project or backlog change is a domain rejection.
    pub fn map_domain_error(_error: DomainError) -> (r: ApplicationError)
        ensures
            r == ApplicationError::DomainRejected,
    {
        ApplicationError::DomainRejected
    }
}

} // verus!
