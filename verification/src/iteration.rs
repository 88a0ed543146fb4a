//! Iteration and commitment command decisions: opening an iteration on a process
//! timebox, committing and changing its scope, and moving it through its lifecycle.

use vstd::prelude::*;

use crate::command::{cursor_text, found, require_found, versioned_cursor};
use crate::contracts::{
    ApplicationResultRef, CommitmentState, DerivedViewKind, DerivedWorkViewRef, FormalWorkKind,
    FormalWorkRef, IdempotencyResultView, IterationRef, IterationState, ProjectLifecycleState,
    ProjectMemberRef, ProjectRef, WorkCommandReceipt,
};
use crate::errors::ApplicationError;
use crate::ports::{
    commit_failure, domain_failure_fine, idempotency_failure, port_failure_domain,
    repository_failure, DomainError, IdempotencyError, PortError, RepositoryError, UnitOfWorkError,
};
use crate::records::{FormalWorkScope, ProjectRecord};
use crate::results::{duplicate_of, IterationCommandResult, StoredCommandResult};
use crate::text::{blank, is_blank};

verus! {

/// Lifecycle targets of an iteration.
#[derive(Clone, Copy, Debug, PartialEq, Eq, Structural)]
pub enum IterationLifecycleTarget {
    InProgress,
    Closed,
    Cancelled,
}

/// What the process service reports about a timebox.
#[derive(Clone, Debug)]
pub struct ProcessTimeboxSummary {
    pub project_ref: ProjectRef,
    pub can_open_iteration: bool,
    pub source_digest: String,
}

/// An iteration commitment as stored.
#[derive(Clone, Debug)]
pub struct IterationCommitmentRecord {
    pub commitment_state: CommitmentState,
    pub committed_work_refs: Vec<FormalWorkRef>,
}

/// A change to a commitment's scope.
#[derive(Clone, Debug)]
pub struct CommitmentChangeSet {
    pub add_work_refs: Vec<FormalWorkRef>,
    pub remove_work_refs: Vec<FormalWorkRef>,
}

/// The values of `s` that do not occur earlier in it, in order.
pub open spec fn distinct_values<V>(s: Seq<V>) -> Seq<V>
    decreases s.len(),
{
    if s.len() == 0 {
        Seq::empty()
    } else {
        let kept = distinct_values(s.drop_last());
        if s.drop_last().contains(s.last()) {
            kept
        } else {
            kept.push(s.last())
        }
    }
}

/// Keeping first occurrences keeps every value and repeats none.
pub proof fn lemma_distinct_values<V>(s: Seq<V>)
    ensures
        forall|x: V| distinct_values(s).contains(x) <==> s.contains(x),
        distinct_values(s).no_duplicates(),
    decreases s.len(),
{
    if s.len() > 0 {
        let init = s.drop_last();
        lemma_distinct_values(init);
        assert(s =~= init.push(s.last()));
        assert forall|x: V| distinct_values(s).contains(x) <==> s.contains(x) by {
            lemma_seq_push_contains(init, s.last(), x);
            lemma_seq_push_contains(distinct_values(init), s.last(), x);
        }
    }
}

proof fn lemma_seq_push_contains<V>(s: Seq<V>, v: V, x: V)
    ensures
        s.push(v).contains(x) == (s.contains(x) || v == x),
{
    if s.contains(x) {
        let i = choose|i: int| 0 <= i < s.len() && s[i] == x;
        assert(s.push(v)[i] == x);
    }
    if v == x {
        assert(s.push(v)[s.len() as int] == x);
    }
    if s.push(v).contains(x) {
        let i = choose|i: int| 0 <= i < s.push(v).len() && s.push(v)[i] == x;
        if i < s.len() {
            assert(s[i] == x);
        }
    }
}

/// The views of a list of formal work references.
pub open spec fn work_views(refs: Seq<FormalWorkRef>) -> Seq<(FormalWorkKind, Seq<char>)> {
    refs.map_values(|w: FormalWorkRef| w@)
}

/// The assignees named by a list of work scopes, in order, skipping scopes without one.
pub open spec fn scope_assignees(scopes: Seq<FormalWorkScope>) -> Seq<Seq<char>>
    decreases scopes.len(),
{
    if scopes.len() == 0 {
        Seq::empty()
    } else {
        let init = scope_assignees(scopes.drop_last());
        match scopes.last().assignee_ref {
            Some(member) => init.push(member@),
            None => init,
        }
    }
}

/// The timebox an iteration opens on must belong to the project, allow opening, and
/// carry a source digest.
pub open spec fn timebox_binds(summary: ProcessTimeboxSummary, project_ref: ProjectRef) -> bool {
    summary.project_ref@ == project_ref@ && summary.can_open_iteration && !blank(summary.source_digest@)
}

/// The commitment a lifecycle change works with: starting needs one (its absence is a
/// domain rejection), closing needs one (its absence is not found), cancelling takes
/// one if there is one.
pub open spec fn lifecycle_commitment_of(target: IterationLifecycleTarget, loaded: Result<Option<IterationCommitmentRecord>, RepositoryError>) -> Result<Option<IterationCommitmentRecord>, ApplicationError> {
    match loaded {
        Err(error) => Err(repository_failure(error)),
        Ok(Some(commitment)) => Ok(Some(commitment)),
        Ok(None) => match target {
            IterationLifecycleTarget::InProgress => Err(ApplicationError::DomainRejected),
            IterationLifecycleTarget::Closed => Err(ApplicationError::NotFound),
            IterationLifecycleTarget::Cancelled => Ok(None),
        },
    }
}

/// The stored iteration result of a duplicate request, marked as a replay.
pub open spec fn replayed_iteration(operation: Seq<char>, stored: Result<Option<StoredCommandResult>, RepositoryError>) -> Result<IterationCommandResult, ApplicationError> {
    match stored {
        Err(error) => Err(repository_failure(error)),
        Ok(Some(StoredCommandResult::Iteration(result))) => if result.receipt.result_ref.operation@ == operation {
            Ok(IterationCommandResult { receipt: duplicate_of(result.receipt), ..result })
        } else {
            Err(ApplicationError::DuplicateResultMissing)
        },
        Ok(_) => Err(ApplicationError::DuplicateResultMissing),
    }
}

/// A copy of a formal work reference.
fn copy_work_ref(work_ref: &FormalWorkRef) -> (r: FormalWorkRef)
    ensures
        r@ == work_ref@,
{
    FormalWorkRef { kind: work_ref.kind, id: work_ref.id.clone() }
}

/// Appends `item` unless an equal reference is already there.
fn push_distinct_work(merged: &mut Vec<FormalWorkRef>, item: &FormalWorkRef)
    ensures
        work_views(final(merged)@) == (if work_views(old(merged)@).contains(item@) {
            work_views(old(merged)@)
        } else {
            work_views(old(merged)@).push(item@)
        }),
{
    let mut present = false;
    let mut j: usize = 0;
    while j < merged.len()
        invariant
            j <= merged@.len(),
            present == exists|k: int| 0 <= k < j && merged@[k]@ == item@,
        decreases merged.len() - j,
    {
        if merged[j].same_as(item) {
            present = true;
        }
        j = j + 1;
    }
    proof {
        let views = work_views(merged@);
        if present {
            let k = choose|k: int| 0 <= k < merged@.len() && merged@[k]@ == item@;
            assert(views[k] == item@);
        } else {
            assert forall|k: int| 0 <= k < views.len() implies views[k] != item@ by {
                assert(views[k] == merged@[k]@);
            }
        }
    }
    if !present {
        let ghost before = merged@;
        merged.push(copy_work_ref(item));
        proof {
            assert(work_views(merged@) =~= work_views(before).push(item@));
        }
    }
}

/// Coordinates iteration and commitment commands inside one application transaction
/// boundary.
pub struct IterationCommandService<P, B, W, ITR, A, O, R, PR, U, PT, I, C, IDEM> {
    /// Project repository port.
    pub project_repo: P,
    /// Backlog repository port.
    pub backlog_repo: B,
    /// Formal work repository port.
    pub work_repo: W,
    /// Iteration repository port.
    pub iteration_repo: ITR,
    /// Audit repository port.
    pub audit_repo: A,
    /// Outbox repository port.
    pub outbox_repo: O,
    /// Stored command result repository port.
    pub command_results: R,
    /// Projection freshness repository port.
    pub projection_repo: PR,
    /// Unit of work factory.
    pub unit_of_work: U,
    /// Process timebox resolver port.
    pub timebox_resolver: PT,
    /// Id generator.
    pub ids: I,
    /// Clock port.
    pub clock: C,
    /// Idempotency repository.
    pub idempotency: IDEM,
}

impl<P, B, W, ITR, A, O, R, PR, U, PT, I, C, IDEM> IterationCommandService<P, B, W, ITR, A, O, R, PR, U, PT, I, C, IDEM> {
    /// Iterations open only in existing, active projects.
    pub fn open_target(loaded: Result<Option<ProjectRecord>, RepositoryError>) -> (r: Result<ProjectRecord, ApplicationError>)
        ensures
            match found(loaded) {
                Ok(project) => r == (if project.lifecycle_state == ProjectLifecycleState::Active {
                    Ok::<ProjectRecord, ApplicationError>(project)
                } else {
                    Err(ApplicationError::DomainRejected)
                }),
                Err(error) => r == Err::<ProjectRecord, ApplicationError>(error),
            },
    {
        let project = require_found(loaded)?;
        if project.lifecycle_state != ProjectLifecycleState::Active {
            return Err(ApplicationError::DomainRejected);
        }
        Ok(project)
    }

    /// Whether a resolved timebox can carry an iteration of the project.
    pub fn ensure_timebox_can_bind_to_project(summary: &ProcessTimeboxSummary, project_ref: &ProjectRef) -> (r: Result<(), ApplicationError>)
        ensures
            r == (if timebox_binds(*summary, *project_ref) {
                Ok::<(), ApplicationError>(())
            } else {
                Err(ApplicationError::ExternalReferenceUnresolved)
            }),
    {
        if !summary.project_ref.same_as(project_ref) || !summary.can_open_iteration
            || is_blank(summary.source_digest.as_str())
        {
            return Err(ApplicationError::ExternalReferenceUnresolved);
        }
        Ok(())
    }

    /// Starting or cancelling takes a change reason and no close reason.
    pub fn require_change_reason<CH, CL>(change_reason: Option<CH>, close_reason: Option<CL>) -> (r: Result<CH, ApplicationError>)
        ensures
            (change_reason is Some && close_reason is None) ==> r == Ok::<CH, ApplicationError>(change_reason->Some_0),
            !(change_reason is Some && close_reason is None) ==> r == Err::<CH, ApplicationError>(ApplicationError::InvalidRequest),
    {
        match (change_reason, close_reason) {
            (Some(reason), None) => Ok(reason),
            _ => Err(ApplicationError::InvalidRequest),
        }
    }

    /// Closing takes a close reason and no change reason.
    pub fn require_close_reason<CL, CH>(close_reason: Option<CL>, change_reason: Option<CH>) -> (r: Result<CL, ApplicationError>)
        ensures
            (close_reason is Some && change_reason is None) ==> r == Ok::<CL, ApplicationError>(close_reason->Some_0),
            !(close_reason is Some && change_reason is None) ==> r == Err::<CL, ApplicationError>(ApplicationError::InvalidRequest),
    {
        match (close_reason, change_reason) {
            (Some(reason), None) => Ok(reason),
            _ => Err(ApplicationError::InvalidRequest),
        }
    }

    /// The commitment a lifecycle change works with.
    pub fn lifecycle_commitment(
        target: IterationLifecycleTarget,
        loaded: Result<Option<IterationCommitmentRecord>, RepositoryError>,
    ) -> (r: Result<Option<IterationCommitmentRecord>, ApplicationError>)
        ensures
            r == lifecycle_commitment_of(target, loaded),
            // A stored commitment is used as it is, whatever the target.
            loaded matches Ok(Some(c)) ==> r == Ok::<Option<IterationCommitmentRecord>, ApplicationError>(Some(c)),
            // Without one: starting is rejected, closing finds nothing, cancelling goes on.
            loaded == Ok::<Option<IterationCommitmentRecord>, RepositoryError>(None) ==> r == (match target {
                IterationLifecycleTarget::InProgress => Err::<Option<IterationCommitmentRecord>, ApplicationError>(ApplicationError::DomainRejected),
                IterationLifecycleTarget::Closed => Err(ApplicationError::NotFound),
                IterationLifecycleTarget::Cancelled => Ok(None),
            }),
            loaded is Err ==> r is Err,
    {
        match loaded {
            Err(error) => Err(Self::map_repository_error(error)),
            Ok(Some(commitment)) => Ok(Some(commitment)),
            Ok(None) => match target {
                IterationLifecycleTarget::InProgress => Err(ApplicationError::DomainRejected),
                IterationLifecycleTarget::Closed => Err(ApplicationError::NotFound),
                IterationLifecycleTarget::Cancelled => Ok(None),
            },
        }
    }

    /// A commitment needs at least one candidate.
    pub fn require_candidates(work_refs: &Vec<FormalWorkRef>) -> (r: Result<(), ApplicationError>)
        ensures
            r == (if work_refs@.len() == 0 {
                Err::<(), ApplicationError>(ApplicationError::InvalidRequest)
            } else {
                Ok(())
            }),
    {
        if work_refs.len() == 0 {
            Err(ApplicationError::InvalidRequest)
        } else {
            Ok(())
        }
    }

    /// A commitment change must add or remove something.
    pub fn require_change(change_set: &CommitmentChangeSet) -> (r: Result<(), ApplicationError>)
        ensures
            r == (if change_set.add_work_refs@.len() == 0 && change_set.remove_work_refs@.len() == 0 {
                Err::<(), ApplicationError>(ApplicationError::InvalidRequest)
            } else {
                Ok(())
            }),
    {
        if change_set.add_work_refs.len() == 0 && change_set.remove_work_refs.len() == 0 {
            Err(ApplicationError::InvalidRequest)
        } else {
            Ok(())
        }
    }

    /// Committed or added work must already be in the project's backlog.
    pub fn require_in_backlog(contains: Result<bool, RepositoryError>) -> (r: Result<(), ApplicationError>)
        ensures
            match contains {
                Ok(true) => r == Ok::<(), ApplicationError>(()),
                Ok(false) => r == Err::<(), ApplicationError>(ApplicationError::DomainRejected),
                Err(error) => r == Err::<(), ApplicationError>(repository_failure(error)),
            },
    {
        match contains {
            Ok(true) => Ok(()),
            Ok(false) => Err(ApplicationError::DomainRejected),
            Err(error) => Err(Self::map_repository_error(error)),
        }
    }

    /// The work references a commitment change touches: the added then the removed
    /// ones, each once, in order of first appearance.
    pub fn merge_work_refs(left: &Vec<FormalWorkRef>, right: &Vec<FormalWorkRef>) -> (r: Vec<FormalWorkRef>)
        ensures
            work_views(r@) == distinct_values(work_views(left@) + work_views(right@)),
    {
        let ghost all = work_views(left@) + work_views(right@);
        let mut merged: Vec<FormalWorkRef> = Vec::new();
        let mut i: usize = 0;
        while i < left.len()
            invariant
                i <= left@.len(),
                all == work_views(left@) + work_views(right@),
                work_views(merged@) == distinct_values(all.take(i as int)),
            decreases left.len() - i,
        {
            proof {
                assert(all.take(i + 1).drop_last() =~= all.take(i as int));
                assert(all.take(i + 1).last() == left@[i as int]@);
                lemma_distinct_values(all.take(i as int));
            }
            push_distinct_work(&mut merged, &left[i]);
            i = i + 1;
        }
        let mut j: usize = 0;
        while j < right.len()
            invariant
                j <= right@.len(),
                all == work_views(left@) + work_views(right@),
                work_views(merged@) == distinct_values(all.take(left@.len() + j as int)),
            decreases right.len() - j,
        {
            proof {
                let n: int = left@.len() + j;
                assert(all.take(n + 1).drop_last() =~= all.take(n));
                assert(all.take(n + 1).last() == right@[j as int]@);
                lemma_distinct_values(all.take(n));
            }
            push_distinct_work(&mut merged, &right[j]);
            j = j + 1;
        }
        proof {
            assert(all.take((left@.len() + right@.len()) as int) =~= all);
        }
        merged
    }

    /// The members whose work views an iteration change makes stale: the assignees of
    /// the affected work, each once, in order of first appearance.
    pub fn affected_assignees(scopes: &Vec<FormalWorkScope>) -> (r: Vec<ProjectMemberRef>)
        ensures
            r@.map_values(|m: ProjectMemberRef| m@) == distinct_values(scope_assignees(scopes@)),
    {
        let mut assignees: Vec<ProjectMemberRef> = Vec::new();
        let mut i: usize = 0;
        while i < scopes.len()
            invariant
                i <= scopes@.len(),
                assignees@.map_values(|m: ProjectMemberRef| m@) == distinct_values(scope_assignees(scopes@.take(i as int))),
            decreases scopes.len() - i,
        {
            let ghost prefix = scopes@.take(i as int);
            proof {
                assert(scopes@.take(i + 1).drop_last() =~= prefix);
                assert(scopes@.take(i + 1).last() == scopes@[i as int]);
            }
            match &scopes[i].assignee_ref {
                Some(member_ref) => {
                    let ghost names = scope_assignees(prefix);
                    proof {
                        lemma_distinct_values(names);
                        assert(scope_assignees(scopes@.take(i + 1)) =~= names.push(member_ref@));
                        assert(names.push(member_ref@).drop_last() =~= names);
                    }
                    let mut present = false;
                    let mut j: usize = 0;
                    while j < assignees.len()
                        invariant
                            j <= assignees@.len(),
                            present == exists|k: int| 0 <= k < j && assignees@[k]@ == member_ref@,
                        decreases assignees.len() - j,
                    {
                        if assignees[j].same_as(member_ref) {
                            present = true;
                        }
                        j = j + 1;
                    }
                    proof {
                        let views = assignees@.map_values(|m: ProjectMemberRef| m@);
                        if present {
                            let k = choose|k: int| 0 <= k < assignees@.len() && assignees@[k]@ == member_ref@;
                            assert(views[k] == member_ref@);
                        } else {
                            assert forall|k: int| 0 <= k < views.len() implies views[k] != member_ref@ by {
                                assert(views[k] == assignees@[k]@);
                            }
                        }
                    }
                    if !present {
                        let ghost before = assignees@;
                        assignees.push(ProjectMemberRef { project_member_id: member_ref.project_member_id.clone() });
                        proof {
                            assert(assignees@.map_values(|m: ProjectMemberRef| m@)
                                =~= before.map_values(|m: ProjectMemberRef| m@).push(member_ref@));
                        }
                    }
                },
                None => {
                    proof {
                        assert(scope_assignees(scopes@.take(i + 1)) =~= scope_assignees(prefix));
                    }
                },
            }
            i = i + 1;
        }
        proof {
            assert(scopes@.take(scopes@.len() as int) =~= scopes@);
        }
        assignees
    }

    /// The views an iteration change makes stale: the project's board, the iteration's
    /// summary, then the work view of each affected assignee.
    pub fn affected_views(project_ref: &ProjectRef, assignee_refs: &Vec<ProjectMemberRef>, iteration_ref: &IterationRef) -> (r: Vec<DerivedWorkViewRef>)
        ensures
            r@.len() == assignee_refs@.len() + 2,
            r@[0]@ == (DerivedViewKind::ProjectBoard, project_ref@, None::<Seq<char>>),
            r@[1]@ == (DerivedViewKind::IterationSummary, iteration_ref@, None::<Seq<char>>),
            forall|k: int| 0 <= k < assignee_refs@.len() ==> #[trigger] r@[k + 2]@ == (DerivedViewKind::MemberWork, assignee_refs@[k]@, None::<Seq<char>>),
    {
        let mut affected = Vec::new();
        affected.push(DerivedWorkViewRef::project_board(project_ref));
        affected.push(DerivedWorkViewRef::iteration_summary(iteration_ref));
        let mut i: usize = 0;
        while i < assignee_refs.len()
            invariant
                i <= assignee_refs@.len(),
                affected@.len() == i + 2,
                affected@[0]@ == (DerivedViewKind::ProjectBoard, project_ref@, None::<Seq<char>>),
                affected@[1]@ == (DerivedViewKind::IterationSummary, iteration_ref@, None::<Seq<char>>),
                forall|k: int| 0 <= k < i ==> #[trigger] affected@[k + 2]@ == (DerivedViewKind::MemberWork, assignee_refs@[k]@, None::<Seq<char>>),
            decreases assignee_refs.len() - i,
        {
            affected.push(DerivedWorkViewRef::member_work(&assignee_refs[i]));
            i = i + 1;
        }
        affected
    }

    /// The result of an iteration command.
    pub fn iteration_result(
        iteration_ref: IterationRef,
        iteration_state: IterationState,
        commitment_state: Option<CommitmentState>,
        result_ref: ApplicationResultRef,
        trace_id: String,
        outbox_id: String,
        version: u64,
    ) -> (r: IterationCommandResult)
        ensures
            r.iteration_ref == iteration_ref,
            r.iteration_state == iteration_state,
            r.commitment_state == commitment_state,
            r.receipt.result_ref == result_ref,
            r.receipt.trace_id == Some(trace_id),
            r.receipt.outbox_refs@ == seq![outbox_id],
            r.receipt.version == version,
            r.receipt.idempotency == IdempotencyResultView::Applied,
    {
        let mut outbox_refs = Vec::new();
        outbox_refs.push(outbox_id);
        IterationCommandResult {
            iteration_ref,
            iteration_state,
            commitment_state,
            receipt: WorkCommandReceipt::applied(result_ref, Some(trace_id), outbox_refs, version),
        }
    }

    /// Replays the stored result of a duplicate iteration command.
    pub fn load_duplicate_iteration_result(
        operation: &String,
        stored: Result<Option<StoredCommandResult>, RepositoryError>,
    ) -> (r: Result<IterationCommandResult, ApplicationError>)
        ensures
            r == replayed_iteration(operation@, stored),
    {
        let stored = match stored {
            Ok(stored) => stored,
            Err(error) => return Err(Self::map_repository_error(error)),
        };
        let result = match stored {
            Some(result) => result.into_iteration_result(operation),
            None => None,
        };
        match result {
            Some(result) => Ok(result.with_duplicate_receipt()),
            None => Err(ApplicationError::DuplicateResultMissing),
        }
    }

    /// The truth cursor of an iteration at a version.
    pub fn iteration_cursor(iteration_ref: &IterationRef, version: u64) -> (r: String)
        ensures
            r@ == cursor_text("iteration"@, iteration_ref@, version),
    {
        versioned_cursor("iteration", iteration_ref.iteration_id.as_str(), version)
    }

    /// A failed step rolls the transaction back before its error is returned.
    pub fn rollback_and_err(error: ApplicationError, rollback: Result<(), UnitOfWorkError>) -> (r: ApplicationError)
        ensures
            r == crate::ports::after_rollback(error, rollback),
    {
        crate::ports::rollback_and_err(error, rollback)
    }

    pub fn map_repository_error(error: RepositoryError) -> (r: ApplicationError)
        ensures
            r == repository_failure(error),
    {
        crate::ports::classify_repository_error(error)
    }

    pub fn map_port_error(error: PortError) -> (r: ApplicationError)
        ensures
            r == port_failure_domain(error),
    {
        crate::ports::classify_port_error_domain(error)
    }

    pub fn map_domain_error(error: DomainError) -> (r: ApplicationError)
        ensures
            r == domain_failure_fine(error),
    {
        crate::ports::classify_domain_error_fine(error)
    }

    pub fn map_idempotency_error(error: IdempotencyError) -> (r: ApplicationError)
        ensures
            r == idempotency_failure(error),
    {
        crate::ports::classify_idempotency_error(error)
    }

    pub fn map_uow_error_begin(_error: UnitOfWorkError) -> (r: ApplicationError)
        ensures
            r == ApplicationError::TemporarilyUnavailable,
    {
        ApplicationError::TemporarilyUnavailable
    }

    pub fn map_uow_error_commit(error: UnitOfWorkError) -> (r: ApplicationError)
        ensures
            r == commit_failure(error),
    {
        crate::ports::classify_commit_error(error)
    }

    pub fn map_uow_error_rollback(_error: UnitOfWorkError) -> (r: ApplicationError)
        ensures
            r == ApplicationError::TemporarilyUnavailable,
    {
        ApplicationError::TemporarilyUnavailable
    }
}

} // verus!
