//! Operations jobs: projection rebuild, reference refresh, trace and archive handoff,
//! and reconciliation. These are the choices each job makes between its port calls.

use vstd::prelude::*;

use crate::contracts::{DerivedFreshnessState, DerivedViewKind, DerivedWorkViewRef, ProjectRef};
use crate::errors::ApplicationError;
use crate::outbox::WorkJobFailureRef;
use crate::paging::paginate_items;
use crate::ports::{
    commit_failure, idempotency_failure, port_failure_job, repository_failure, IdempotencyError,
    Page, PageRequest, PortError, RepositoryError, UnitOfWorkError,
};
use crate::references::{stable_dedup_reference_refs, ExternalReferenceRef};

verus! {

/// Page size for views affected by a change.
pub const AFFECTED_VIEWS_PAGE_LIMIT: u32 = 100;
/// Page size for archive handoff summaries.
pub const ARCHIVE_HANDOFF_PAGE_LIMIT: u32 = 100;
/// Page size for reconciliation reads.
pub const RECONCILIATION_PAGE_LIMIT: u32 = 100;
/// Page size for trace handoff reads.
pub const TRACE_HANDOFF_PAGE_LIMIT: u32 = 100;

/// A first page of the given size.
pub fn first_page(limit: u32) -> (r: PageRequest)
    ensures
        r.limit == limit,
        r.page_token is None,
{
    PageRequest { limit, page_token: None }
}

/// The first page of views affected by a change.
pub fn affected_views_page() -> (r: PageRequest)
    ensures
        r.limit == AFFECTED_VIEWS_PAGE_LIMIT,
        r.page_token is None,
{
    first_page(AFFECTED_VIEWS_PAGE_LIMIT)
}

/// The first page of reconciliation reads.
pub fn reconciliation_page() -> (r: PageRequest)
    ensures
        r.limit == RECONCILIATION_PAGE_LIMIT,
        r.page_token is None,
{
    first_page(RECONCILIATION_PAGE_LIMIT)
}

/// The first page of trace records to hand off.
pub fn trace_handoff_page() -> (r: PageRequest)
    ensures
        r.limit == TRACE_HANDOFF_PAGE_LIMIT,
        r.page_token is None,
{
    first_page(TRACE_HANDOFF_PAGE_LIMIT)
}

/// The first page of archive summaries.
pub fn archive_handoff_page() -> (r: PageRequest)
    ensures
        r.limit == ARCHIVE_HANDOFF_PAGE_LIMIT,
        r.page_token is None,
{
    first_page(ARCHIVE_HANDOFF_PAGE_LIMIT)
}

pub fn map_repository_error(error: RepositoryError) -> (r: ApplicationError)
    ensures
        r == repository_failure(error),
{
    crate::ports::classify_repository_error(error)
}

pub fn map_idempotency_error(error: IdempotencyError) -> (r: ApplicationError)
    ensures
        r == idempotency_failure(error),
{
    crate::ports::classify_idempotency_error(error)
}

pub fn map_port_error(error: PortError) -> (r: ApplicationError)
    ensures
        r == port_failure_job(error),
{
    match error {
        PortError::Unavailable => ApplicationError::TemporarilyUnavailable,
        PortError::NotFound | PortError::Rejected => ApplicationError::ExternalReferenceUnresolved,
        PortError::InvalidResponse => ApplicationError::InvalidRequest,
    }
}

pub fn map_uow_error_begin(_error: UnitOfWorkError) -> (r: ApplicationError)
    ensures
        r == ApplicationError::TemporarilyUnavailable,
{
    ApplicationError::TemporarilyUnavailable
}

pub fn map_uow_error_commit(error: UnitOfWorkError) -> (r: ApplicationError)
    ensures
        r == commit_failure(error),
{
    crate::ports::classify_commit_error(error)
}

pub fn map_uow_error_rollback(_error: UnitOfWorkError) -> (r: ApplicationError)
    ensures
        r == ApplicationError::TemporarilyUnavailable,
{
    ApplicationError::TemporarilyUnavailable
}

/// The failure of a job's rollback.
pub fn rollback_uow(rollback: Result<(), UnitOfWorkError>) -> (r: Result<(), ApplicationError>)
    ensures
        rollback is Ok ==> r is Ok,
        rollback is Err ==> r == Err::<(), ApplicationError>(ApplicationError::TemporarilyUnavailable),
{
    match rollback {
        Ok(()) => Ok(()),
        Err(error) => Err(map_uow_error_rollback(error)),
    }
}

/// The number of views a rebuild scanned: the rebuild does not count them.
pub fn affected_count() -> (r: Result<u64, ApplicationError>)
    ensures
        r == Ok::<u64, ApplicationError>(0),
{
    Ok(0)
}

// ---------------------------------------------------------------------------
// Reference refresh.
// ---------------------------------------------------------------------------

/// How a refresh job selects its references.
#[derive(Clone, Copy, Debug, PartialEq, Eq, Structural)]
pub enum ExternalReferenceScopeKind {
    StaleOnly,
    Project,
    ExplicitRefs,
}

/// The references a refresh job is asked to refresh.
#[derive(Clone, Debug)]
pub struct ExternalReferenceScope {
    pub scope_kind: ExternalReferenceScopeKind,
    pub project_ref: Option<ProjectRef>,
    pub reference_refs: Vec<ExternalReferenceRef>,
}

/// Where a refresh job reads its page of references from.
pub enum RefreshSource {
    /// The stale or failed references the snapshot store lists.
    StaleReferences,
    /// The references of one project.
    ProjectReferences(ProjectRef),
    /// An explicit list, already deduplicated and cut to the requested page.
    Explicit(Page<ExternalReferenceRef>),
}

/// Whether a refresh scope is well formed: stale-only names nothing, a project scope
/// names a project and no references, an explicit scope names references and no project.
pub open spec fn refresh_scope_valid(scope: ExternalReferenceScope) -> bool {
    match scope.scope_kind {
        ExternalReferenceScopeKind::StaleOnly => scope.project_ref.is_none() && scope.reference_refs@.len() == 0,
        ExternalReferenceScopeKind::Project => scope.project_ref.is_some() && scope.reference_refs@.len() == 0,
        ExternalReferenceScopeKind::ExplicitRefs => scope.project_ref.is_none() && scope.reference_refs@.len() > 0,
    }
}

/// Chooses where a refresh job reads its references from. No scope means the stale ones.
pub fn load_refresh_refs(scope: Option<ExternalReferenceScope>, page: PageRequest) -> (r: Result<RefreshSource, ApplicationError>)
    ensures
        scope is None ==> (r matches Ok(RefreshSource::StaleReferences)),
        scope matches Some(s) ==> (!refresh_scope_valid(s) <==> r == Err::<RefreshSource, ApplicationError>(ApplicationError::InvalidRequest)),
        scope matches Some(s) ==> (refresh_scope_valid(s) ==> match s.scope_kind {
            ExternalReferenceScopeKind::StaleOnly => r matches Ok(RefreshSource::StaleReferences),
            ExternalReferenceScopeKind::Project => r matches Ok(RefreshSource::ProjectReferences(p)) && p == s.project_ref.unwrap(),
            ExternalReferenceScopeKind::ExplicitRefs => r matches Ok(RefreshSource::Explicit(_)),
        }),
{
    match scope {
        None => Ok(RefreshSource::StaleReferences),
        Some(scope) => match scope.scope_kind {
            ExternalReferenceScopeKind::StaleOnly => {
                if scope.project_ref.is_some() || scope.reference_refs.len() != 0 {
                    return Err(ApplicationError::InvalidRequest);
                }
                Ok(RefreshSource::StaleReferences)
            },
            ExternalReferenceScopeKind::Project => {
                let project_ref = match scope.project_ref {
                    Some(project_ref) => project_ref,
                    None => return Err(ApplicationError::InvalidRequest),
                };
                if scope.reference_refs.len() != 0 {
                    return Err(ApplicationError::InvalidRequest);
                }
                Ok(RefreshSource::ProjectReferences(project_ref))
            },
            ExternalReferenceScopeKind::ExplicitRefs => {
                if scope.project_ref.is_some() || scope.reference_refs.len() == 0 {
                    return Err(ApplicationError::InvalidRequest);
                }
                Ok(RefreshSource::Explicit(paginate_items(stable_dedup_reference_refs(scope.reference_refs), page)))
            },
        },
    }
}

/// Whether a failure to refresh one reference is recorded as a failed reference (the
/// job goes on) rather than aborting the job.
pub open spec fn refresh_failure_is_reported(error: ApplicationError) -> bool {
    ||| error == ApplicationError::ExternalReferenceUnresolved
    ||| error == ApplicationError::TemporarilyUnavailable
    ||| error == ApplicationError::InvalidRequest
}

/// What a refresh job does after one reference failed to refresh.
pub fn refresh_failure_reported(error: ApplicationError) -> (r: bool)
    ensures
        r == refresh_failure_is_reported(error),
        // An unresolved, unavailable or invalid reference is reported and the job goes on;
        // any other failure aborts it.
        r <==> (error == ApplicationError::ExternalReferenceUnresolved || error == ApplicationError::TemporarilyUnavailable
            || error == ApplicationError::InvalidRequest),
{
    match error {
        ApplicationError::ExternalReferenceUnresolved
        | ApplicationError::TemporarilyUnavailable
        | ApplicationError::InvalidRequest => true,
        _ => false,
    }
}

/// Whether a refresh job marks views stale: only when some reference changed and some
/// view depends on the changed references.
pub fn refresh_marks_stale(changed_refs: usize, affected_views: usize) -> (r: bool)
    ensures
        r == (changed_refs > 0 && affected_views > 0),
{
    changed_refs > 0 && affected_views > 0
}

// ---------------------------------------------------------------------------
// Trace and archive handoff.
// ---------------------------------------------------------------------------

/// Tally of a trace handoff page: one port reply per trace record, in order; each
/// accepted handoff counts as changed, each refused one is reported failed.
pub open spec fn handoff_tally(replies: Seq<bool>) -> (nat, nat)
    decreases replies.len(),
{
    if replies.len() == 0 {
        (0, 0)
    } else {
        let rest = handoff_tally(replies.drop_last());
        if replies.last() { ((rest.0 + 1) as nat, rest.1) } else { (rest.0, (rest.1 + 1) as nat) }
    }
}

/// Every trace record of a handoff page is either handed off or reported failed.
pub proof fn lemma_handoff_tally_partitions(replies: Seq<bool>)
    ensures
        handoff_tally(replies).0 + handoff_tally(replies).1 == replies.len(),
    decreases replies.len(),
{
    if replies.len() > 0 {
        lemma_handoff_tally_partitions(replies.drop_last());
    }
}

/// How one more reply moves a handoff page's counts: an accepted handoff counts as
/// changed, a refused one as failed.
pub proof fn lemma_handoff_tally_step(replies: Seq<bool>, accepted: bool)
    ensures
        accepted ==> handoff_tally(replies.push(accepted)) == ((handoff_tally(replies).0 + 1) as nat, handoff_tally(replies).1),
        !accepted ==> handoff_tally(replies.push(accepted)) == (handoff_tally(replies).0, (handoff_tally(replies).1 + 1) as nat),
{
    assert(replies.push(accepted).drop_last() =~= replies);
}

/// Counts a trace handoff page from the port replies (`true` for an accepted handoff).
pub fn tally_trace_handoffs(replies: &Vec<bool>) -> (r: (u64, u64))
    ensures
        r.0 == handoff_tally(replies@).0,
        r.1 == handoff_tally(replies@).1,
{
    let mut changed: u64 = 0;
    let mut failed: u64 = 0;
    let mut i: usize = 0;
    while i < replies.len()
        invariant
            i <= replies@.len(),
            changed == handoff_tally(replies@.take(i as int)).0,
            failed == handoff_tally(replies@.take(i as int)).1,
            changed + failed == i,
        decreases replies.len() - i,
    {
        proof {
            assert(replies@.take(i + 1).drop_last() =~= replies@.take(i as int));
            lemma_handoff_tally_partitions(replies@.take(i as int));
        }
        if replies[i] {
            changed = changed + 1;
        } else {
            failed = failed + 1;
        }
        i = i + 1;
    }
    proof {
        assert(replies@.take(replies@.len() as int) =~= replies@);
    }
    (changed, failed)
}

/// How an archive handoff selects its summaries.
#[derive(Clone, Copy, Debug, PartialEq, Eq, Structural)]
pub enum ArchiveHandoffScopeKind {
    Subjects,
    ProjectCursor,
}

/// The scope of an archive handoff.
#[derive(Clone, Debug)]
pub struct ArchiveHandoffScope {
    pub scope_kind: ArchiveHandoffScopeKind,
    pub project_ref: Option<ProjectRef>,
    pub subject_refs: Vec<String>,
    pub source_cursor: Option<String>,
}

/// Where an archive handoff reads its summaries from.
pub enum ArchiveSummarySource {
    /// The summaries of the named subjects, from an optional cursor on.
    Subjects { subject_refs: Vec<String>, source_cursor: Option<String> },
    /// The summaries of one project from a cursor on.
    Project { project_ref: ProjectRef, source_cursor: String },
}

/// Whether an archive scope is well formed: a subject scope names subjects and no project;
/// a project scope names a project and a cursor and no subjects.
pub open spec fn archive_scope_valid(scope: ArchiveHandoffScope) -> bool {
    match scope.scope_kind {
        ArchiveHandoffScopeKind::Subjects => scope.project_ref.is_none() && scope.subject_refs@.len() > 0,
        ArchiveHandoffScopeKind::ProjectCursor => scope.project_ref.is_some() && scope.source_cursor.is_some()
            && scope.subject_refs@.len() == 0,
    }
}

/// Chooses where an archive handoff reads its summaries from.
pub fn load_archive_scope_summaries(archive_scope: ArchiveHandoffScope) -> (r: Result<ArchiveSummarySource, ApplicationError>)
    ensures
        !archive_scope_valid(archive_scope) <==> r == Err::<ArchiveSummarySource, ApplicationError>(ApplicationError::InvalidRequest),
        archive_scope_valid(archive_scope) ==> match archive_scope.scope_kind {
            ArchiveHandoffScopeKind::Subjects => r matches Ok(ArchiveSummarySource::Subjects { subject_refs, source_cursor })
                && subject_refs == archive_scope.subject_refs && source_cursor == archive_scope.source_cursor,
            ArchiveHandoffScopeKind::ProjectCursor => r matches Ok(ArchiveSummarySource::Project { project_ref, source_cursor })
                && project_ref == archive_scope.project_ref.unwrap() && source_cursor == archive_scope.source_cursor.unwrap(),
        },
{
    match archive_scope.scope_kind {
        ArchiveHandoffScopeKind::Subjects => {
            if archive_scope.project_ref.is_some() || archive_scope.subject_refs.len() == 0 {
                return Err(ApplicationError::InvalidRequest);
            }
            Ok(ArchiveSummarySource::Subjects {
                subject_refs: archive_scope.subject_refs,
                source_cursor: archive_scope.source_cursor,
            })
        },
        ArchiveHandoffScopeKind::ProjectCursor => {
            let project_ref = match archive_scope.project_ref {
                Some(project_ref) => project_ref,
                None => return Err(ApplicationError::InvalidRequest),
            };
            let source_cursor = match archive_scope.source_cursor {
                Some(source_cursor) => source_cursor,
                None => return Err(ApplicationError::InvalidRequest),
            };
            if archive_scope.subject_refs.len() != 0 {
                return Err(ApplicationError::InvalidRequest);
            }
            Ok(ArchiveSummarySource::Project { project_ref, source_cursor })
        },
    }
}

/// The counts of an archive handoff report: the summaries scanned, one change when the
/// handoff was accepted, otherwise one failed handoff.
pub fn archive_report_counts(summaries: u64, accepted: bool) -> (r: (u64, u64, u64))
    ensures
        r.0 == summaries,
        accepted ==> r.1 == 1 && r.2 == 0,
        !accepted ==> r.1 == 0 && r.2 == 1,
{
    if accepted { (summaries, 1, 0) } else { (summaries, 0, 1) }
}

// ---------------------------------------------------------------------------
// Reconciliation.
// ---------------------------------------------------------------------------

/// What a reconciliation run covers.
#[derive(Clone, Copy, Debug, PartialEq, Eq, Structural)]
pub enum WorkReconciliationScopeKind {
    All,
    Project,
    DerivedView,
    ExternalReference,
}

/// The scope of a reconciliation run.
#[derive(Clone, Debug)]
pub struct WorkReconciliationScopeRef {
    pub scope_kind: WorkReconciliationScopeKind,
    pub project_ref: Option<ProjectRef>,
    pub view_ref: Option<DerivedWorkViewRef>,
}

/// The project a reconciliation run reads truth for: a project-scoped derived view names
/// its project; otherwise the scope must name one.
pub open spec fn reconciliation_project(scope: WorkReconciliationScopeRef) -> Option<Seq<char>> {
    if scope.scope_kind == WorkReconciliationScopeKind::DerivedView && scope.view_ref.is_some()
        && (scope.view_ref.unwrap().view_kind == DerivedViewKind::ProjectBoard
            || scope.view_ref.unwrap().view_kind == DerivedViewKind::WorkSearch) {
        Some(scope.view_ref.unwrap().scope_id@)
    } else {
        match scope.project_ref {
            Some(p) => Some(p@),
            None => None,
        }
    }
}

/// Resolves the project of a reconciliation scope.
pub fn project_ref_from_scope(scope_ref: &WorkReconciliationScopeRef) -> (r: Result<ProjectRef, ApplicationError>)
    ensures
        reconciliation_project(*scope_ref) matches Some(p) ==> (r matches Ok(project) && project@ == p),
        reconciliation_project(*scope_ref) is None ==> r == Err::<ProjectRef, ApplicationError>(ApplicationError::InvalidRequest),
{
    if scope_ref.scope_kind == WorkReconciliationScopeKind::DerivedView {
        if let Some(view_ref) = &scope_ref.view_ref {
            if view_ref.view_kind == DerivedViewKind::ProjectBoard || view_ref.view_kind == DerivedViewKind::WorkSearch {
                return Ok(ProjectRef { project_id: view_ref.scope_id.clone() });
            }
        }
    }
    match &scope_ref.project_ref {
        Some(project_ref) => Ok(project_ref.clone_ref()),
        None => Err(ApplicationError::InvalidRequest),
    }
}

/// The freshness state of one derived view.
#[derive(Clone, Debug)]
pub struct DerivedWorkViewState {
    pub view_ref: DerivedWorkViewRef,
    pub freshness_state: DerivedFreshnessState,
    pub source_cursor: String,
}

/// The views that are not fresh, in order.
pub open spec fn stale_views(states: Seq<DerivedWorkViewState>) -> Seq<(DerivedViewKind, Seq<char>, Option<Seq<char>>)>
    decreases states.len(),
{
    if states.len() == 0 {
        Seq::empty()
    } else {
        let rest = stale_views(states.drop_last());
        if states.last().freshness_state != DerivedFreshnessState::Fresh {
            rest.push(states.last().view_ref@)
        } else {
            rest
        }
    }
}

/// Whether some state that is not `Fresh` is the state of this view.
pub open spec fn unfresh_state_of(states: Seq<DerivedWorkViewState>, view: (DerivedViewKind, Seq<char>, Option<Seq<char>>)) -> bool {
    exists|i: int| #![trigger states[i]] 0 <= i < states.len() && states[i].freshness_state != DerivedFreshnessState::Fresh
        && states[i].view_ref@ === view
}

/// Every view that is not `Fresh` (stale, rebuilding or failed) is among the gaps.
pub proof fn lemma_every_unfresh_view_is_a_gap(states: Seq<DerivedWorkViewState>, i: int)
    requires
        0 <= i < states.len(),
        states[i].freshness_state != DerivedFreshnessState::Fresh,
    ensures
        exists|j: int| 0 <= j < stale_views(states).len() && stale_views(states)[j] === states[i].view_ref@,
    decreases states.len(),
{
    let prefix = states.drop_last();
    if i < states.len() - 1 {
        assert(prefix[i] === states[i]);
        lemma_every_unfresh_view_is_a_gap(prefix, i);
        let j = choose|j: int| 0 <= j < stale_views(prefix).len() && stale_views(prefix)[j] === prefix[i].view_ref@;
        assert(stale_views(states)[j] === stale_views(prefix)[j]);
    } else {
        assert(stale_views(states)[stale_views(prefix).len() as int] === states[i].view_ref@);
    }
}

/// Every gap is the view of a state that is not `Fresh`.
pub proof fn lemma_every_gap_is_an_unfresh_view(states: Seq<DerivedWorkViewState>, j: int)
    requires
        0 <= j < stale_views(states).len(),
    ensures
        unfresh_state_of(states, stale_views(states)[j]),
    decreases states.len(),
{
    let prefix = states.drop_last();
    if j < stale_views(prefix).len() {
        assert(stale_views(states)[j] === stale_views(prefix)[j]);
        lemma_every_gap_is_an_unfresh_view(prefix, j);
        let k = choose|k: int| 0 <= k < prefix.len() && prefix[k].freshness_state != DerivedFreshnessState::Fresh
            && prefix[k].view_ref@ === stale_views(prefix)[j];
        assert(states[k] === prefix[k]);
    } else {
        let last = states.len() - 1;
        assert(states[last] === states.last());
        assert(stale_views(states)[j] === states.last().view_ref@);
    }
}

/// The projection gaps of a reconciliation report: every view that is not fresh.
pub fn projection_gaps(states: &Vec<DerivedWorkViewState>) -> (r: Vec<DerivedWorkViewRef>)
    ensures
        r@.map_values(|v: DerivedWorkViewRef| v@) == stale_views(states@),
        forall|i: int| #![trigger states@[i]]
            0 <= i < states@.len() && states@[i].freshness_state != DerivedFreshnessState::Fresh
                ==> exists|j: int| 0 <= j < r@.len() && r@[j]@ === states@[i].view_ref@,
        forall|j: int| 0 <= j < r@.len() ==> unfresh_state_of(states@, #[trigger] r@[j]@),
{
    let mut gaps: Vec<DerivedWorkViewRef> = Vec::new();
    let mut i: usize = 0;
    while i < states.len()
        invariant
            i <= states@.len(),
            gaps@.map_values(|v: DerivedWorkViewRef| v@) == stale_views(states@.take(i as int)),
        decreases states.len() - i,
    {
        proof {
            assert(states@.take(i + 1).drop_last() =~= states@.take(i as int));
            assert(states@.take(i + 1).last() == states@[i as int]);
        }
        if states[i].freshness_state != DerivedFreshnessState::Fresh {
            let view = states[i].view_ref.clone_ref();
            gaps.push(view);
            proof {
                assert(gaps@.map_values(|v: DerivedWorkViewRef| v@) =~= stale_views(states@.take(i as int)).push(states@[i as int].view_ref@));
            }
        }
        i = i + 1;
    }
    proof {
        assert(states@.take(states@.len() as int) =~= states@);
        let views = gaps@.map_values(|v: DerivedWorkViewRef| v@);
        assert forall|j: int| 0 <= j < gaps@.len() implies #[trigger] gaps@[j]@ === stale_views(states@)[j] by {
            assert(views[j] === gaps@[j]@);
        }
        assert forall|i: int| #![trigger states@[i]]
            0 <= i < states@.len() && states@[i].freshness_state != DerivedFreshnessState::Fresh
            implies exists|j: int| 0 <= j < gaps@.len() && gaps@[j]@ === states@[i].view_ref@ by {
            lemma_every_unfresh_view_is_a_gap(states@, i);
            let j = choose|j: int| 0 <= j < stale_views(states@).len() && stale_views(states@)[j] === states@[i].view_ref@;
            assert(gaps@[j]@ === stale_views(states@)[j]);
        }
        assert forall|j: int| 0 <= j < gaps@.len() implies unfresh_state_of(states@, #[trigger] gaps@[j]@) by {
            assert(gaps@[j]@ === stale_views(states@)[j]);
            lemma_every_gap_is_an_unfresh_view(states@, j);
        }
    }
    gaps
}

impl ProjectRef {
    /// A copy of the reference naming the same project.
    pub fn clone_ref(&self) -> (r: ProjectRef)
        ensures
            r@ == self@,
    {
        ProjectRef { project_id: self.project_id.clone() }
    }
}

// ---------------------------------------------------------------------------
// The services.
// ---------------------------------------------------------------------------

/// Rebuilds project-scoped derived views from committed truth summaries.
pub struct WorkDerivedMaintenanceService<TRUTH, PROJ, U, IDEM, JR, IDS> {
    /// Truth snapshot reader.
    pub truth_snapshot_repo: TRUTH,
    /// Projection repository.
    pub projection_repo: PROJ,
    /// Unit-of-work factory.
    pub unit_of_work: U,
    /// Shared idempotency repository.
    pub idempotency: IDEM,
    /// Job result repository for duplicate replay.
    pub job_results: JR,
    /// Deterministic result id generator.
    pub ids: IDS,
}

/// Refreshes local reference snapshots from adjacent boundaries.
pub struct WorkReferenceRefreshService<RS, PROJ, MEM, METHOD, SRC, EVID, PROC, CLOCK, U, IDEM, JR, IDS> {
    /// Reference snapshot repository.
    pub reference_repo: RS,
    /// Projection repository.
    pub projection_repo: PROJ,
    /// Member resolver.
    pub member_resolver: MEM,
    /// Method definition resolver.
    pub method_resolver: METHOD,
    /// Source resolver.
    pub source_resolver: SRC,
    /// Evidence resolver.
    pub evidence_resolver: EVID,
    /// Process timebox resolver.
    pub process_timebox_resolver: PROC,
    /// Clock port.
    pub clock: CLOCK,
    /// Unit-of-work factory.
    pub unit_of_work: U,
    /// Shared idempotency repository.
    pub idempotency: IDEM,
    /// Job result repository.
    pub job_results: JR,
    /// Deterministic result id generator.
    pub ids: IDS,
}

/// Prepares trace handoff markers and optional trace-available outbox records.
pub struct WorkTraceHandoffService<AUDIT, OUTBOX, HANDOFF, CLOCK, U, IDEM, JR, IDS> {
    /// Audit repository.
    pub audit_repo: AUDIT,
    /// Work outbox repository.
    pub outbox_repo: OUTBOX,
    /// Runtime trace handoff seam.
    pub trace_handoff: HANDOFF,
    /// Clock port.
    pub clock: CLOCK,
    /// Unit-of-work factory.
    pub unit_of_work: U,
    /// Shared idempotency repository.
    pub idempotency: IDEM,
    /// Job result repository.
    pub job_results: JR,
    /// Deterministic result id generator.
    pub ids: IDS,
}

/// Prepares archive handoff markers and optional archive trace-available outbox records.
pub struct WorkArchiveHandoffService<SUMMARY, AUDIT, OUTBOX, HANDOFF, CLOCK, U, IDEM, JR, IDS> {
    /// Archive summary repository.
    pub archive_summary_repo: SUMMARY,
    /// Audit repository.
    pub audit_repo: AUDIT,
    /// Work outbox repository.
    pub outbox_repo: OUTBOX,
    /// Runtime archive handoff seam.
    pub archive_handoff: HANDOFF,
    /// Clock port.
    pub clock: CLOCK,
    /// Unit-of-work factory.
    pub unit_of_work: U,
    /// Shared idempotency repository.
    pub idempotency: IDEM,
    /// Job result repository.
    pub job_results: JR,
    /// Deterministic result id generator.
    pub ids: IDS,
}

/// Produces read-only reconciliation reports over truth, projections, outbox, and references.
pub struct WorkReconciliationService<TRUTH, PROJ, OUTBOX, RS, U, IDEM, JR, IDS> {
    /// Truth snapshot reader.
    pub truth_snapshot_repo: TRUTH,
    /// Projection repository.
    pub projection_repo: PROJ,
    /// Outbox repository.
    pub outbox_repo: OUTBOX,
    /// Reference snapshot repository.
    pub reference_repo: RS,
    /// Unit-of-work factory.
    pub unit_of_work: U,
    /// Shared idempotency repository.
    pub idempotency: IDEM,
    /// Job result repository.
    pub job_results: JR,
    /// Deterministic result id generator.
    pub ids: IDS,
}

/// The failure reported for a refused archive handoff.
pub fn archive_failure_ref(archive_scope: String, target_ref: String) -> (r: WorkJobFailureRef)
    ensures
        r matches WorkJobFailureRef::ArchiveHandoff { archive_scope: s, target_ref: t } && s == archive_scope && t == target_ref,
{
    WorkJobFailureRef::ArchiveHandoff { archive_scope, target_ref }
}

} // verus!
