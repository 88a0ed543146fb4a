//! Plain-value model of the Work contract values that the application logic reads:
//! stable references, lifecycle states and derived-view identities.

use vstd::prelude::*;

verus! {

/// Stable reference to a Work-owned project.
#[derive(Clone, Debug)]
pub struct ProjectRef {
    pub project_id: String,
}

/// Stable reference to a project backlog.
#[derive(Clone, Debug)]
pub struct BacklogRef {
    pub backlog_id: String,
}

/// Stable reference to a project-local member responsibility.
#[derive(Clone, Debug)]
pub struct ProjectMemberRef {
    pub project_member_id: String,
}

/// Stable reference to an iteration.
#[derive(Clone, Debug)]
pub struct IterationRef {
    pub iteration_id: String,
}

/// The two kinds of formal work.
#[derive(Clone, Copy, Debug, PartialEq, Eq, Structural)]
pub enum FormalWorkKind {
    WorkItem,
    ChildWorkItem,
}

/// Unified reference to a root or child formal work record.
#[derive(Clone, Debug)]
pub struct FormalWorkRef {
    pub kind: FormalWorkKind,
    pub id: String,
}

/// The kinds of derived (projected) Work views.
#[derive(Clone, Copy, Debug, PartialEq, Eq, Structural)]
pub enum DerivedViewKind {
    ProjectBoard,
    MemberWork,
    IterationSummary,
    WorkSearch,
}

/// Stable identity of one derived view: its kind, the id of the scope it is built for
/// (a project for board and search views, a project member for member-work views,
/// an iteration for summary views), and for a search view the digest of its criteria.
#[derive(Clone, Debug)]
pub struct DerivedWorkViewRef {
    pub view_kind: DerivedViewKind,
    pub scope_id: String,
    /// The digest of the search criteria a search view is built for; no other view has one.
    pub criteria_digest: Option<String>,
}

impl View for ProjectRef {
    type V = Seq<char>;

    open spec fn view(&self) -> Seq<char> {
        self.project_id@
    }
}

impl View for BacklogRef {
    type V = Seq<char>;

    open spec fn view(&self) -> Seq<char> {
        self.backlog_id@
    }
}

impl View for ProjectMemberRef {
    type V = Seq<char>;

    open spec fn view(&self) -> Seq<char> {
        self.project_member_id@
    }
}

impl View for IterationRef {
    type V = Seq<char>;

    open spec fn view(&self) -> Seq<char> {
        self.iteration_id@
    }
}

impl View for FormalWorkRef {
    type V = (FormalWorkKind, Seq<char>);

    open spec fn view(&self) -> (FormalWorkKind, Seq<char>) {
        (self.kind, self.id@)
    }
}

impl View for DerivedWorkViewRef {
    type V = (DerivedViewKind, Seq<char>, Option<Seq<char>>);

    open spec fn view(&self) -> (DerivedViewKind, Seq<char>, Option<Seq<char>>) {
        (self.view_kind, self.scope_id@, match self.criteria_digest {
            Some(d) => Some(d@),
            None => None,
        })
    }
}

impl ProjectRef {
    /// Whether two project references name the same project.
    pub fn same_as(&self, other: &ProjectRef) -> (r: bool)
        ensures
            r == (self@ == other@),
    {
        self.project_id == other.project_id
    }
}

impl ProjectMemberRef {
    /// Whether two member references name the same project member.
    pub fn same_as(&self, other: &ProjectMemberRef) -> (r: bool)
        ensures
            r == (self@ == other@),
    {
        self.project_member_id == other.project_member_id
    }
}

impl FormalWorkRef {
    /// Whether two formal work references name the same record.
    pub fn same_as(&self, other: &FormalWorkRef) -> (r: bool)
        ensures
            r == (self@ == other@),
    {
        self.kind == other.kind && self.id == other.id
    }
}

impl DerivedWorkViewRef {
    /// The board view of one project.
    pub fn project_board(project_ref: &ProjectRef) -> (r: DerivedWorkViewRef)
        ensures
            r@ == (DerivedViewKind::ProjectBoard, project_ref@, None::<Seq<char>>),
    {
        DerivedWorkViewRef { view_kind: DerivedViewKind::ProjectBoard, scope_id: project_ref.project_id.clone(), criteria_digest: None }
    }

    /// The member-work view of one project member.
    pub fn member_work(member_ref: &ProjectMemberRef) -> (r: DerivedWorkViewRef)
        ensures
            r@ == (DerivedViewKind::MemberWork, member_ref@, None::<Seq<char>>),
    {
        DerivedWorkViewRef {
            view_kind: DerivedViewKind::MemberWork,
            scope_id: member_ref.project_member_id.clone(),
            criteria_digest: None,
        }
    }

    /// The summary view of one iteration.
    pub fn iteration_summary(iteration_ref: &IterationRef) -> (r: DerivedWorkViewRef)
        ensures
            r@ == (DerivedViewKind::IterationSummary, iteration_ref@, None::<Seq<char>>),
    {
        DerivedWorkViewRef {
            view_kind: DerivedViewKind::IterationSummary,
            scope_id: iteration_ref.iteration_id.clone(),
            criteria_digest: None,
        }
    }

    /// The search view of one project for one set of search criteria, by their digest.
    pub fn search(project_ref: &ProjectRef, criteria_digest: String) -> (r: DerivedWorkViewRef)
        ensures
            r@ == (DerivedViewKind::WorkSearch, project_ref@, Some(criteria_digest@)),
    {
        DerivedWorkViewRef {
            view_kind: DerivedViewKind::WorkSearch,
            scope_id: project_ref.project_id.clone(),
            criteria_digest: Some(criteria_digest),
        }
    }

    /// A copy of this reference.
    pub fn clone_ref(&self) -> (r: DerivedWorkViewRef)
        ensures
            r@ == self@,
    {
        let criteria_digest = match &self.criteria_digest {
            Some(d) => Some(d.clone()),
            None => None,
        };
        DerivedWorkViewRef { view_kind: self.view_kind, scope_id: self.scope_id.clone(), criteria_digest }
    }
}

/// Lifecycle of a project.
#[derive(Clone, Copy, Debug, PartialEq, Eq, Structural)]
pub enum ProjectLifecycleState {
    Active,
    Closed,
    Archived,
}

/// Availability of a backlog.
#[derive(Clone, Copy, Debug, PartialEq, Eq, Structural)]
pub enum BacklogState {
    Open,
    LockedForMaintenance,
    Archived,
}

/// Lifecycle of formal work.
#[derive(Clone, Copy, Debug, PartialEq, Eq, Structural)]
pub enum WorkItemState {
    Formalized,
    Committed,
    InProgress,
    Completed,
    Cancelled,
    Superseded,
}

/// Responsibility state of a project member.
#[derive(Clone, Copy, Debug, PartialEq, Eq, Structural)]
pub enum ProjectMemberResponsibilityState {
    Proposed,
    Active,
    Paused,
    Released,
}

/// Freshness of a derived view.
#[derive(Clone, Copy, Debug, PartialEq, Eq, Structural)]
pub enum DerivedFreshnessState {
    Fresh,
    Stale,
    Rebuilding,
    Failed,
}

/// Verification state reported for external evidence.
#[derive(Clone, Copy, Debug, PartialEq, Eq, Structural)]
pub enum EvidenceVerifiedState {
    Verified,
    Rejected,
    Unverified,
}

/// State of a promote result.
#[derive(Clone, Copy, Debug, PartialEq, Eq, Structural)]
pub enum PromoteResultState {
    PendingReview,
    Accepted,
    Rejected,
}

/// State of a dependency between two formal work records.
#[derive(Clone, Copy, Debug, PartialEq, Eq, Structural)]
pub enum DependencyState {
    Proposed,
    Active,
    Satisfied,
    Waived,
    Cancelled,
}

/// State of a blocker on formal work.
#[derive(Clone, Copy, Debug, PartialEq, Eq, Structural)]
pub enum BlockerState {
    Open,
    Resolved,
}

/// Lifecycle of an iteration.
#[derive(Clone, Copy, Debug, PartialEq, Eq, Structural)]
pub enum IterationState {
    Planning,
    Committed,
    InProgress,
    Closed,
    Cancelled,
}

/// State of an iteration commitment.
#[derive(Clone, Copy, Debug, PartialEq, Eq, Structural)]
pub enum CommitmentState {
    Committed,
    Changed,
    Closed,
}

/// Whether a command was applied now or replayed from a stored result.
#[derive(Clone, Copy, Debug, PartialEq, Eq, Structural)]
pub enum IdempotencyResultView {
    Applied,
    Duplicate,
}

/// Stable reference to the stored result of one protected operation.
#[derive(Clone, Debug)]
pub struct ApplicationResultRef {
    pub operation: String,
    pub result_id: String,
}

impl ApplicationResultRef {
    /// The result reference for one operation run.
    pub fn for_operation(operation: String, result_id: String) -> (r: ApplicationResultRef)
        ensures
            r.operation@ == operation@,
            r.result_id@ == result_id@,
    {
        ApplicationResultRef { operation, result_id }
    }
}

/// Receipt attached to every command result.
#[derive(Clone, Debug)]
pub struct WorkCommandReceipt {
    pub result_ref: ApplicationResultRef,
    pub trace_id: Option<String>,
    pub outbox_refs: Vec<String>,
    pub version: u64,
    pub idempotency: IdempotencyResultView,
}

impl WorkCommandReceipt {
    /// A receipt for a command applied now.
    pub fn applied(
        result_ref: ApplicationResultRef,
        trace_id: Option<String>,
        outbox_refs: Vec<String>,
        version: u64,
    ) -> (r: WorkCommandReceipt)
        ensures
            r.result_ref == result_ref,
            r.trace_id == trace_id,
            r.outbox_refs == outbox_refs,
            r.version == version,
            r.idempotency == IdempotencyResultView::Applied,
    {
        WorkCommandReceipt { result_ref, trace_id, outbox_refs, version, idempotency: IdempotencyResultView::Applied }
    }

    /// The same receipt, marked as replayed from a stored result.
    pub fn with_duplicate_idempotency(self) -> (r: WorkCommandReceipt)
        ensures
            r == (WorkCommandReceipt { idempotency: IdempotencyResultView::Duplicate, ..self }),
    {
        WorkCommandReceipt { idempotency: IdempotencyResultView::Duplicate, ..self }
    }
}

} // verus!
