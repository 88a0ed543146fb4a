//! Authorized Work query decisions: who may read what, which surface a response takes,
//! and how stored records become the public read views.

use vstd::prelude::*;

use crate::contracts::{
    BacklogRef, BacklogState, BlockerState, CommitmentState, DependencyState,
    DerivedFreshnessState, DerivedWorkViewRef, FormalWorkKind, FormalWorkRef, IterationRef,
    IterationState, ProjectLifecycleState, ProjectMemberRef, ProjectMemberResponsibilityState,
    ProjectRef, WorkItemState,
};
use crate::errors::ApplicationError;
use crate::ops::DerivedWorkViewState;
use crate::ports::{query_repository_failure, PageInfo, PageRequest, PortError, RepositoryError};
use crate::records::{FormalWorkRecord, ProjectMemberRecord};

verus! {

/// The surface a query response takes.
#[derive(Clone, Copy, Debug, PartialEq, Eq, Structural)]
pub enum QuerySurface {
    Visible,
    Empty,
    Stale,
    Rebuilding,
    Failed,
    Missing,
    NotVisible,
}

/// A query response: its surface and, where the surface carries one, the data.
#[derive(Clone, Debug)]
pub struct WorkQueryResponse<T> {
    pub surface: QuerySurface,
    pub data: Option<T>,
}

/// Visible data.
pub fn visible_response<T>(data: T) -> (r: WorkQueryResponse<T>)
    ensures
        r == (WorkQueryResponse { surface: QuerySurface::Visible, data: Some(data) }),
{
    WorkQueryResponse { surface: QuerySurface::Visible, data: Some(data) }
}

/// A visible view that holds no items.
pub fn empty_response<T>(data: T) -> (r: WorkQueryResponse<T>)
    ensures
        r == (WorkQueryResponse { surface: QuerySurface::Empty, data: Some(data) }),
{
    WorkQueryResponse { surface: QuerySurface::Empty, data: Some(data) }
}

/// Data from a projection that lags its truth.
pub fn stale_response<T>(data: T) -> (r: WorkQueryResponse<T>)
    ensures
        r == (WorkQueryResponse { surface: QuerySurface::Stale, data: Some(data) }),
{
    WorkQueryResponse { surface: QuerySurface::Stale, data: Some(data) }
}

/// Data from a projection that is being rebuilt.
pub fn rebuilding_with_response<T>(data: T) -> (r: WorkQueryResponse<T>)
    ensures
        r == (WorkQueryResponse { surface: QuerySurface::Rebuilding, data: Some(data) }),
{
    WorkQueryResponse { surface: QuerySurface::Rebuilding, data: Some(data) }
}

/// Data from a projection whose last build failed.
pub fn failed_response<T>(data: T) -> (r: WorkQueryResponse<T>)
    ensures
        r == (WorkQueryResponse { surface: QuerySurface::Failed, data: Some(data) }),
{
    WorkQueryResponse { surface: QuerySurface::Failed, data: Some(data) }
}

/// The target does not exist.
pub fn missing_response<T>() -> (r: WorkQueryResponse<T>)
    ensures
        r == (WorkQueryResponse::<T> { surface: QuerySurface::Missing, data: None }),
{
    WorkQueryResponse { surface: QuerySurface::Missing, data: None }
}

/// The caller may not see the target.
pub fn not_visible_response<T>() -> (r: WorkQueryResponse<T>)
    ensures
        r == (WorkQueryResponse::<T> { surface: QuerySurface::NotVisible, data: None }),
{
    WorkQueryResponse { surface: QuerySurface::NotVisible, data: None }
}

/// The view has not been built yet.
pub fn rebuilding_response<T>() -> (r: WorkQueryResponse<T>)
    ensures
        r == (WorkQueryResponse::<T> { surface: QuerySurface::Rebuilding, data: None }),
{
    WorkQueryResponse { surface: QuerySurface::Rebuilding, data: None }
}

/// What reading a query's target leads to: the target, or the answer given without it.
#[derive(Clone, Debug)]
pub enum QueryTarget<R, T> {
    Found(R),
    Answer(WorkQueryResponse<T>),
}

/// The outcome of reading a query's target: a failed read is a repository failure, an
/// absent target is answered with `absent` and no data.
pub open spec fn target_outcome<R, T>(loaded: Result<Option<R>, RepositoryError>, absent: QuerySurface) -> Result<QueryTarget<R, T>, ApplicationError> {
    match loaded {
        Err(error) => Err(query_repository_failure(error)),
        Ok(None) => Ok(QueryTarget::Answer(WorkQueryResponse { surface: absent, data: None })),
        Ok(Some(target)) => Ok(QueryTarget::Found(target)),
    }
}

/// Visibility policy for Work queries: a project's data is visible to its active and
/// paused members.
#[derive(Clone, Copy, Debug)]
pub struct WorkQueryVisibilityPolicy;

/// Public page metadata.
#[derive(Clone, Debug)]
pub struct PublicPageInfo {
    pub next_page_token: Option<String>,
    pub has_more: bool,
}

/// Freshness marker attached to projected views.
#[derive(Clone, Debug)]
pub struct ProjectionViewMarker {
    pub view_ref: DerivedWorkViewRef,
    pub source_cursor: String,
    pub freshness_state: DerivedFreshnessState,
}

/// Summary of one formal work record.
#[derive(Clone, Debug)]
pub struct FormalWorkSummaryView {
    pub work_ref: FormalWorkRef,
    pub work_state: WorkItemState,
    pub assignee_ref: Option<ProjectMemberRef>,
    pub completion_ref: Option<String>,
}

/// Optional backlog filters: a work state and an assignee.
#[derive(Clone, Debug)]
pub struct BacklogQueryFilter {
    pub work_state: Option<WorkItemState>,
    pub assignee_ref: Option<ProjectMemberRef>,
}

/// Summary of one project member.
#[derive(Clone, Debug)]
pub struct ProjectMemberSummaryView {
    pub project_member_ref: ProjectMemberRef,
    pub member_id: String,
    pub responsibility_state: ProjectMemberResponsibilityState,
}

/// A dependency or a blocker, by id.
#[derive(Clone, Debug)]
pub enum DependencyOrBlockerRef {
    Dependency(String),
    Blocker(String),
}

/// The state of a relation.
#[derive(Clone, Debug)]
pub enum WorkRelationStateView {
    Dependency(DependencyState),
    Blocker(BlockerState),
}

/// Summary of one active relation of a work record.
#[derive(Clone, Debug)]
pub struct WorkRelationSummaryView {
    pub relation_ref: DependencyOrBlockerRef,
    pub affected_work_refs: Vec<FormalWorkRef>,
    pub relation_state: WorkRelationStateView,
}

/// A dependency as stored.
#[derive(Clone, Debug)]
pub struct DependencyRecord {
    pub upstream_work_ref: FormalWorkRef,
    pub downstream_work_ref: FormalWorkRef,
    pub dependency_state: DependencyState,
}

/// A blocker as stored.
#[derive(Clone, Debug)]
pub struct BlockerRecord {
    pub blocked_work_ref: FormalWorkRef,
    pub blocker_state: BlockerState,
    /// The evidence a resolved blocker was resolved with.
    pub resolved_evidence_ref: Option<String>,
}

/// Read view of one formal work record.
#[derive(Clone, Debug)]
pub struct WorkItemView {
    pub work_ref: FormalWorkRef,
    pub parent_ref: Option<FormalWorkRef>,
    pub work_state: WorkItemState,
    pub assignee_ref: Option<ProjectMemberRef>,
    pub source_ref: Option<String>,
    pub completion_ref: Option<String>,
    pub relations: Vec<WorkRelationSummaryView>,
}

/// Read view of a project's backlog page.
#[derive(Clone, Debug)]
pub struct BacklogView {
    pub backlog_ref: BacklogRef,
    pub project_ref: ProjectRef,
    pub backlog_state: BacklogState,
    pub items: Vec<FormalWorkSummaryView>,
    pub page: PublicPageInfo,
}

/// Projected view of one member's work.
#[derive(Clone, Debug)]
pub struct MemberWorkView {
    pub member_ref: ProjectMemberRef,
    pub assigned_work: Vec<FormalWorkSummaryView>,
    pub marker: ProjectionViewMarker,
    pub page: PublicPageInfo,
}

/// A member-work projection as stored, with its freshness.
#[derive(Clone, Debug)]
pub struct MemberWorkViewProjection {
    pub view: MemberWorkView,
    pub freshness: DerivedWorkViewState,
}

/// Projected summary of one iteration.
#[derive(Clone, Debug)]
pub struct IterationSummaryView {
    pub iteration_ref: IterationRef,
    pub iteration_state: IterationState,
    pub commitment_state: Option<CommitmentState>,
    pub committed_work: Vec<FormalWorkRef>,
    pub marker: ProjectionViewMarker,
}

/// An iteration-summary projection as stored, with its freshness.
#[derive(Clone, Debug)]
pub struct IterationSummaryViewProjection {
    pub view: IterationSummaryView,
    pub freshness: DerivedWorkViewState,
}

/// Read view of the facts of one project.
#[derive(Clone, Debug)]
pub struct ProjectWorkFactsView {
    pub project_ref: ProjectRef,
    pub lifecycle_state: ProjectLifecycleState,
    pub backlog_ref: Option<BacklogRef>,
    pub members: Vec<ProjectMemberSummaryView>,
    pub formal_work: Vec<FormalWorkSummaryView>,
    pub relations: Vec<WorkRelationSummaryView>,
}

/// A member responsibility that can read its project's data.
pub open spec fn visible_member(state: ProjectMemberResponsibilityState) -> bool {
    state == ProjectMemberResponsibilityState::Active || state == ProjectMemberResponsibilityState::Paused
}

/// The summary of a stored formal work record.
pub open spec fn summary_of(record: FormalWorkRecord) -> FormalWorkSummaryView {
    match record {
        FormalWorkRecord::WorkItem(item) => FormalWorkSummaryView {
            work_ref: FormalWorkRef { kind: FormalWorkKind::WorkItem, id: item.work_item_id },
            work_state: item.work_state,
            assignee_ref: Some(item.assignee_ref),
            completion_ref: item.completion_ref,
        },
        FormalWorkRecord::ChildWorkItem(child) => FormalWorkSummaryView {
            work_ref: FormalWorkRef { kind: FormalWorkKind::ChildWorkItem, id: child.child_work_item_id },
            work_state: child.work_state,
            assignee_ref: None,
            completion_ref: child.completion_ref,
        },
    }
}

/// Whether a summary passes a backlog filter: each filter that is set must match.
pub open spec fn passes_filter(summary: FormalWorkSummaryView, filter: Option<BacklogQueryFilter>) -> bool {
    match filter {
        None => true,
        Some(filter) => {
            &&& (filter.work_state is None || summary.work_state == filter.work_state->Some_0)
            &&& (filter.assignee_ref is None || (summary.assignee_ref is Some && summary.assignee_ref->Some_0@ == filter.assignee_ref->Some_0@))
        },
    }
}

/// The backlog items of a page: the summaries of the records found, that pass the filter.
pub open spec fn backlog_items(records: Seq<Option<FormalWorkRecord>>, filter: Option<BacklogQueryFilter>) -> Seq<FormalWorkSummaryView>
    decreases records.len(),
{
    if records.len() == 0 {
        Seq::empty()
    } else {
        let rest = backlog_items(records.drop_last(), filter);
        match records.last() {
            Some(record) => if passes_filter(summary_of(record), filter) {
                rest.push(summary_of(record))
            } else {
                rest
            },
            None => rest,
        }
    }
}

/// A backlog filter lets through only what it names: with an assignee set, only work
/// assigned to that member; with a work state set, only work in that state; each
/// whether or not the other is set. Work that matches every filter that is set passes.
pub proof fn lemma_filter_keeps_only_matching_work(summary: FormalWorkSummaryView, filter: BacklogQueryFilter)
    ensures
        passes_filter(summary, Some(filter)) && filter.assignee_ref is Some
            ==> summary.assignee_ref is Some && summary.assignee_ref->Some_0@ == filter.assignee_ref->Some_0@,
        passes_filter(summary, Some(filter)) && filter.work_state is Some
            ==> summary.work_state == filter.work_state->Some_0,
        (filter.work_state is None || summary.work_state == filter.work_state->Some_0)
            && (filter.assignee_ref is None
                || (summary.assignee_ref is Some && summary.assignee_ref->Some_0@ == filter.assignee_ref->Some_0@))
            ==> passes_filter(summary, Some(filter)),
        passes_filter(summary, None),
{
}

/// Every item of a backlog page passes the page's filter.
pub proof fn lemma_backlog_items_pass_filter(records: Seq<Option<FormalWorkRecord>>, filter: Option<BacklogQueryFilter>)
    ensures
        forall|i: int| 0 <= i < backlog_items(records, filter).len()
            ==> passes_filter(#[trigger] backlog_items(records, filter)[i], filter),
    decreases records.len(),
{
    if records.len() > 0 {
        let prefix = records.drop_last();
        lemma_backlog_items_pass_filter(prefix, filter);
        assert forall|i: int| 0 <= i < backlog_items(records, filter).len()
            implies passes_filter(#[trigger] backlog_items(records, filter)[i], filter) by {
            if i < backlog_items(prefix, filter).len() {
                assert(backlog_items(records, filter)[i] == backlog_items(prefix, filter)[i]);
            }
        }
    }
}

/// The summaries that match an optional work state.
pub open spec fn in_state(items: Seq<FormalWorkSummaryView>, work_state: Option<WorkItemState>) -> Seq<FormalWorkSummaryView>
    decreases items.len(),
{
    if items.len() == 0 {
        Seq::empty()
    } else {
        let rest = in_state(items.drop_last(), work_state);
        if work_state is None || items.last().work_state == work_state->Some_0 {
            rest.push(items.last())
        } else {
            rest
        }
    }
}

/// Every assigned item in the asked state is kept.
pub proof fn lemma_in_state_keeps_every_match(items: Seq<FormalWorkSummaryView>, work_state: Option<WorkItemState>, i: int)
    requires
        0 <= i < items.len(),
        work_state is None || items[i].work_state == work_state->Some_0,
    ensures
        exists|j: int| 0 <= j < in_state(items, work_state).len() && in_state(items, work_state)[j] === items[i],
    decreases items.len(),
{
    let prefix = items.drop_last();
    if i < items.len() - 1 {
        assert(prefix[i] === items[i]);
        lemma_in_state_keeps_every_match(prefix, work_state, i);
        let j = choose|j: int| 0 <= j < in_state(prefix, work_state).len() && in_state(prefix, work_state)[j] === prefix[i];
        assert(in_state(items, work_state)[j] === in_state(prefix, work_state)[j]);
    } else {
        assert(in_state(items, work_state)[in_state(prefix, work_state).len() as int] === items[i]);
    }
}

/// Every kept item is one of the assigned items, and in the asked state.
pub proof fn lemma_in_state_keeps_only_matches(items: Seq<FormalWorkSummaryView>, work_state: Option<WorkItemState>, j: int)
    requires
        0 <= j < in_state(items, work_state).len(),
    ensures
        work_state is None || in_state(items, work_state)[j].work_state == work_state->Some_0,
        items.contains(in_state(items, work_state)[j]),
    decreases items.len(),
{
    let prefix = items.drop_last();
    if j < in_state(prefix, work_state).len() {
        assert(in_state(items, work_state)[j] === in_state(prefix, work_state)[j]);
        lemma_in_state_keeps_only_matches(prefix, work_state, j);
        let k = choose|k: int| 0 <= k < prefix.len() && prefix[k] == in_state(prefix, work_state)[j];
        assert(items[k] == prefix[k]);
    } else {
        assert(in_state(items, work_state)[j] === items.last());
        assert(items[items.len() - 1] == items.last());
    }
}

/// The surface a projected view takes from its freshness.
pub open spec fn projection_surface(state: DerivedFreshnessState) -> QuerySurface {
    match state {
        DerivedFreshnessState::Fresh => QuerySurface::Visible,
        DerivedFreshnessState::Stale => QuerySurface::Stale,
        DerivedFreshnessState::Rebuilding => QuerySurface::Rebuilding,
        DerivedFreshnessState::Failed => QuerySurface::Failed,
    }
}

fn copy_work_ref(work_ref: &FormalWorkRef) -> (r: FormalWorkRef)
    ensures
        r == *work_ref,
{
    FormalWorkRef { kind: work_ref.kind, id: work_ref.id.clone() }
}

fn copy_text(text: &Option<String>) -> (r: Option<String>)
    ensures
        r == *text,
{
    match text {
        Some(t) => Some(t.clone()),
        None => None,
    }
}

fn copy_summary(summary: &FormalWorkSummaryView) -> (r: FormalWorkSummaryView)
    ensures
        r == *summary,
{
    FormalWorkSummaryView {
        work_ref: copy_work_ref(&summary.work_ref),
        work_state: summary.work_state,
        assignee_ref: match &summary.assignee_ref {
            Some(m) => Some(ProjectMemberRef { project_member_id: m.project_member_id.clone() }),
            None => None,
        },
        completion_ref: copy_text(&summary.completion_ref),
    }
}

/// Coordinates authorized Work reads.
pub struct AuthorizedWorkQueryService<PJ, PM, B, W, D, I, PROJ, AMR> {
    /// Project repository port.
    pub project_repo: PJ,
    /// Project member repository port.
    pub member_repo: PM,
    /// Backlog repository port.
    pub backlog_repo: B,
    /// Formal work repository port.
    pub work_repo: W,
    /// Dependency repository port.
    pub dependency_repo: D,
    /// Iteration repository port.
    pub iteration_repo: I,
    /// Projection repository port.
    pub projection_repo: PROJ,
    /// Actor member resolver port.
    pub actor_member_resolver: AMR,
    /// Visibility policy.
    pub visibility: WorkQueryVisibilityPolicy,
}

impl<PJ, PM, B, W, D, I, PROJ, AMR> AuthorizedWorkQueryService<PJ, PM, B, W, D, I, PROJ, AMR> {
    /// The summary of a project member.
    pub fn project_member_summary(member: ProjectMemberRecord) -> (r: ProjectMemberSummaryView)
        ensures
            r == (ProjectMemberSummaryView {
                project_member_ref: member.project_member_ref,
                member_id: member.member_id,
                responsibility_state: member.responsibility_state,
            }),
    {
        ProjectMemberSummaryView {
            project_member_ref: member.project_member_ref,
            member_id: member.member_id,
            responsibility_state: member.responsibility_state,
        }
    }

    /// The summary of a stored formal work record: root items carry their assignee,
    /// children carry none.
    pub fn formal_work_summary_from_record(record: &FormalWorkRecord) -> (r: FormalWorkSummaryView)
        ensures
            r == summary_of(*record),
    {
        match record {
            FormalWorkRecord::WorkItem(item) => FormalWorkSummaryView {
                work_ref: FormalWorkRef { kind: FormalWorkKind::WorkItem, id: item.work_item_id.clone() },
                work_state: item.work_state,
                assignee_ref: Some(ProjectMemberRef { project_member_id: item.assignee_ref.project_member_id.clone() }),
                completion_ref: copy_text(&item.completion_ref),
            },
            FormalWorkRecord::ChildWorkItem(child) => FormalWorkSummaryView {
                work_ref: FormalWorkRef { kind: FormalWorkKind::ChildWorkItem, id: child.child_work_item_id.clone() },
                work_state: child.work_state,
                assignee_ref: None,
                completion_ref: copy_text(&child.completion_ref),
            },
        }
    }

    /// The read view of a formal work record with its relations: a child names its
    /// parent and source, a root item its assignee.
    pub fn work_item_view(record: FormalWorkRecord, relations: Vec<WorkRelationSummaryView>) -> (r: WorkItemView)
        ensures
            r.relations == relations,
            match record {
                FormalWorkRecord::WorkItem(item) => r == (WorkItemView {
                    work_ref: FormalWorkRef { kind: FormalWorkKind::WorkItem, id: item.work_item_id },
                    parent_ref: None,
                    work_state: item.work_state,
                    assignee_ref: Some(item.assignee_ref),
                    source_ref: None,
                    completion_ref: item.completion_ref,
                    relations,
                }),
                FormalWorkRecord::ChildWorkItem(child) => r == (WorkItemView {
                    work_ref: FormalWorkRef { kind: FormalWorkKind::ChildWorkItem, id: child.child_work_item_id },
                    parent_ref: Some(FormalWorkRef { kind: FormalWorkKind::WorkItem, id: child.parent_work_item_id }),
                    work_state: child.work_state,
                    assignee_ref: None,
                    source_ref: Some(child.source_ref),
                    completion_ref: child.completion_ref,
                    relations,
                }),
            },
    {
        match record {
            FormalWorkRecord::WorkItem(item) => WorkItemView {
                work_ref: FormalWorkRef { kind: FormalWorkKind::WorkItem, id: item.work_item_id },
                parent_ref: None,
                work_state: item.work_state,
                assignee_ref: Some(item.assignee_ref),
                source_ref: None,
                completion_ref: item.completion_ref,
                relations,
            },
            FormalWorkRecord::ChildWorkItem(child) => WorkItemView {
                work_ref: FormalWorkRef { kind: FormalWorkKind::ChildWorkItem, id: child.child_work_item_id },
                parent_ref: Some(FormalWorkRef { kind: FormalWorkKind::WorkItem, id: child.parent_work_item_id }),
                work_state: child.work_state,
                assignee_ref: None,
                source_ref: Some(child.source_ref),
                completion_ref: child.completion_ref,
                relations,
            },
        }
    }

    /// Whether a summary passes a backlog filter.
    pub fn summary_allowed(summary: &FormalWorkSummaryView, filter: &Option<BacklogQueryFilter>) -> (r: bool)
        ensures
            r == passes_filter(*summary, *filter),
            filter is None ==> r,
            // A set assignee admits only work assigned to that member, whatever the state filter.
            r && filter is Some && filter->Some_0.assignee_ref is Some
                ==> summary.assignee_ref is Some && summary.assignee_ref->Some_0@ == filter->Some_0.assignee_ref->Some_0@,
            // A set work state admits only work in that state, whatever the assignee filter.
            r && filter is Some && filter->Some_0.work_state is Some
                ==> summary.work_state == filter->Some_0.work_state->Some_0,
            filter is Some
                && (filter->Some_0.work_state is None || summary.work_state == filter->Some_0.work_state->Some_0)
                && (filter->Some_0.assignee_ref is None || (summary.assignee_ref is Some
                    && summary.assignee_ref->Some_0@ == filter->Some_0.assignee_ref->Some_0@))
                ==> r,
    {
        match filter {
            None => true,
            Some(filter) => {
                let state_ok = match filter.work_state {
                    None => true,
                    Some(state) => summary.work_state == state,
                };
                let assignee_ok = match &filter.assignee_ref {
                    None => true,
                    Some(wanted) => match &summary.assignee_ref {
                        Some(assignee) => assignee.same_as(wanted),
                        None => false,
                    },
                };
                state_ok && assignee_ok
            },
        }
    }

    /// The backlog items of a page, from the records looked up for its references (a
    /// reference whose record is gone is skipped).
    pub fn load_backlog_items(records: &Vec<Option<FormalWorkRecord>>, filter: &Option<BacklogQueryFilter>) -> (r: Vec<FormalWorkSummaryView>)
        ensures
            r@ == backlog_items(records@, *filter),
            filter is Some && filter->Some_0.assignee_ref is Some ==> forall|i: int| 0 <= i < r@.len()
                ==> (#[trigger] r@[i]).assignee_ref is Some && r@[i].assignee_ref->Some_0@ == filter->Some_0.assignee_ref->Some_0@,
            filter is Some && filter->Some_0.work_state is Some ==> forall|i: int| 0 <= i < r@.len()
                ==> (#[trigger] r@[i]).work_state == filter->Some_0.work_state->Some_0,
    {
        let mut items: Vec<FormalWorkSummaryView> = Vec::new();
        let mut i: usize = 0;
        while i < records.len()
            invariant
                i <= records@.len(),
                items@ == backlog_items(records@.take(i as int), *filter),
            decreases records.len() - i,
        {
            proof {
                assert(records@.take(i + 1).drop_last() =~= records@.take(i as int));
                assert(records@.take(i + 1).last() == records@[i as int]);
            }
            match &records[i] {
                Some(record) => {
                    let summary = Self::formal_work_summary_from_record(record);
                    if Self::summary_allowed(&summary, filter) {
                        items.push(summary);
                    }
                },
                None => {},
            }
            i = i + 1;
        }
        proof {
            assert(records@.take(records@.len() as int) =~= records@);
            lemma_backlog_items_pass_filter(records@, *filter);
            if filter is Some {
                let wanted = filter->Some_0;
                assert forall|i: int| 0 <= i < items@.len() implies
                    (wanted.assignee_ref is Some ==> (#[trigger] items@[i]).assignee_ref is Some
                        && items@[i].assignee_ref->Some_0@ == wanted.assignee_ref->Some_0@)
                    && (wanted.work_state is Some ==> items@[i].work_state == wanted.work_state->Some_0) by {
                    assert(items@[i] == backlog_items(records@, *filter)[i]);
                    lemma_filter_keeps_only_matching_work(items@[i], wanted);
                }
            }
        }
        items
    }

    /// The assigned work that matches an optional work state, in order.
    pub fn filter_member_work(assigned: &Vec<FormalWorkSummaryView>, work_state: Option<WorkItemState>) -> (r: Vec<FormalWorkSummaryView>)
        ensures
            r@ == in_state(assigned@, work_state),
            // Only work in the asked state is kept, and all of it.
            forall|j: int| 0 <= j < r@.len()
                ==> (work_state is None || (#[trigger] r@[j]).work_state == work_state->Some_0) && assigned@.contains(r@[j]),
            forall|i: int| 0 <= i < assigned@.len() && (work_state is None || (#[trigger] assigned@[i]).work_state == work_state->Some_0)
                ==> r@.contains(assigned@[i]),
    {
        let mut kept: Vec<FormalWorkSummaryView> = Vec::new();
        let mut i: usize = 0;
        while i < assigned.len()
            invariant
                i <= assigned@.len(),
                kept@ == in_state(assigned@.take(i as int), work_state),
            decreases assigned.len() - i,
        {
            proof {
                assert(assigned@.take(i + 1).drop_last() =~= assigned@.take(i as int));
                assert(assigned@.take(i + 1).last() == assigned@[i as int]);
            }
            let matches = match work_state {
                None => true,
                Some(state) => assigned[i].work_state == state,
            };
            if matches {
                kept.push(copy_summary(&assigned[i]));
            }
            i = i + 1;
        }
        proof {
            assert(assigned@.take(assigned@.len() as int) =~= assigned@);
            assert forall|j: int| 0 <= j < kept@.len() implies
                (work_state is None || (#[trigger] kept@[j]).work_state == work_state->Some_0) && assigned@.contains(kept@[j]) by {
                lemma_in_state_keeps_only_matches(assigned@, work_state, j);
            }
            assert forall|i: int| 0 <= i < assigned@.len() && (work_state is None || (#[trigger] assigned@[i]).work_state == work_state->Some_0)
                implies kept@.contains(assigned@[i]) by {
                lemma_in_state_keeps_every_match(assigned@, work_state, i);
            }
        }
        kept
    }

    /// The summary of an active dependency: it affects its upstream and downstream work.
    pub fn dependency_relation_summary(dependency_id: String, dependency: DependencyRecord) -> (r: WorkRelationSummaryView)
        ensures
            r.relation_ref == DependencyOrBlockerRef::Dependency(dependency_id),
            r.affected_work_refs@ == seq![dependency.upstream_work_ref, dependency.downstream_work_ref],
            r.relation_state == WorkRelationStateView::Dependency(dependency.dependency_state),
    {
        let mut affected = Vec::new();
        affected.push(dependency.upstream_work_ref);
        affected.push(dependency.downstream_work_ref);
        WorkRelationSummaryView {
            relation_ref: DependencyOrBlockerRef::Dependency(dependency_id),
            affected_work_refs: affected,
            relation_state: WorkRelationStateView::Dependency(dependency.dependency_state),
        }
    }

    /// The summary of an active blocker: it affects the work it blocks.
    pub fn blocker_relation_summary(blocker_id: String, blocker: BlockerRecord) -> (r: WorkRelationSummaryView)
        ensures
            r.relation_ref == DependencyOrBlockerRef::Blocker(blocker_id),
            r.affected_work_refs@ == seq![blocker.blocked_work_ref],
            r.relation_state == WorkRelationStateView::Blocker(blocker.blocker_state),
    {
        let mut affected = Vec::new();
        affected.push(blocker.blocked_work_ref);
        WorkRelationSummaryView {
            relation_ref: DependencyOrBlockerRef::Blocker(blocker_id),
            affected_work_refs: affected,
            relation_state: WorkRelationStateView::Blocker(blocker.blocker_state),
        }
    }

    /// The freshness marker of a projected view.
    pub fn projection_marker(freshness: &DerivedWorkViewState) -> (r: ProjectionViewMarker)
        ensures
            r.view_ref@ == freshness.view_ref@,
            r.source_cursor == freshness.source_cursor,
            r.freshness_state == freshness.freshness_state,
    {
        ProjectionViewMarker {
            view_ref: freshness.view_ref.clone_ref(),
            source_cursor: freshness.source_cursor.clone(),
            freshness_state: freshness.freshness_state,
        }
    }

    /// A projected view takes the surface its freshness names, always with its data.
    pub fn map_projection_surface<T>(freshness_state: DerivedFreshnessState, view: T) -> (r: WorkQueryResponse<T>)
        ensures
            r == (WorkQueryResponse { surface: projection_surface(freshness_state), data: Some(view) }),
            // Only a fresh view is answered as visible; every other freshness is named on the surface.
            r.surface == QuerySurface::Visible <==> freshness_state == DerivedFreshnessState::Fresh,
            freshness_state == DerivedFreshnessState::Stale ==> r.surface == QuerySurface::Stale,
            freshness_state == DerivedFreshnessState::Rebuilding ==> r.surface == QuerySurface::Rebuilding,
            freshness_state == DerivedFreshnessState::Failed ==> r.surface == QuerySurface::Failed,
            r.data == Some(view),
    {
        match freshness_state {
            DerivedFreshnessState::Fresh => visible_response(view),
            DerivedFreshnessState::Stale => stale_response(view),
            DerivedFreshnessState::Rebuilding => rebuilding_with_response(view),
            DerivedFreshnessState::Failed => failed_response(view),
        }
    }

    /// A refused read answers with the not-visible surface; any other failure is an error.
    pub fn visibility_surface<T>(error: ApplicationError) -> (r: Result<WorkQueryResponse<T>, ApplicationError>)
        ensures
            error == ApplicationError::NotVisible ==> r == Ok::<WorkQueryResponse<T>, ApplicationError>(WorkQueryResponse { surface: QuerySurface::NotVisible, data: None }),
            error != ApplicationError::NotVisible ==> r == Err::<WorkQueryResponse<T>, ApplicationError>(error),
    {
        match error {
            ApplicationError::NotVisible => Ok(not_visible_response()),
            other => Err(other),
        }
    }

    /// The public page metadata of a repository page.
    pub fn public_page_info(page_info: PageInfo) -> (r: PublicPageInfo)
        ensures
            r.next_page_token == page_info.next_page_token,
            r.has_more == page_info.has_more,
    {
        PublicPageInfo { next_page_token: page_info.next_page_token, has_more: page_info.has_more }
    }

    /// The page read when the caller names none: the first fifty items.
    pub fn default_page() -> (r: PageRequest)
        ensures
            r.limit == 50,
            r.page_token is None,
    {
        PageRequest { limit: 50, page_token: None }
    }

    /// Query reads distinguish only a missing record.
    pub fn map_repo_error(error: RepositoryError) -> (r: ApplicationError)
        ensures
            r == query_repository_failure(error),
    {
        match error {
            RepositoryError::NotFound => ApplicationError::NotFound,
            RepositoryError::VersionConflict | RepositoryError::TransactionRejected | RepositoryError::StoreUnavailable => {
                ApplicationError::TemporarilyUnavailable
            },
        }
    }

    /// Reads the target of a query that answers a missing target as missing: the project
    /// of project facts and backlogs, a backlog, a work record, a member, an iteration,
    /// an iteration summary.
    pub fn target_or_missing<R, T>(loaded: Result<Option<R>, RepositoryError>) -> (r: Result<QueryTarget<R, T>, ApplicationError>)
        ensures
            r == target_outcome::<R, T>(loaded, QuerySurface::Missing),
    {
        match loaded {
            Err(error) => Err(Self::map_repo_error(error)),
            Ok(None) => Ok(QueryTarget::Answer(missing_response())),
            Ok(Some(target)) => Ok(QueryTarget::Found(target)),
        }
    }

    /// Reads the scope of a work record: a record without a scope is not visible.
    pub fn scope_or_not_visible<T>(loaded: Result<Option<crate::records::FormalWorkScope>, RepositoryError>) -> (r: Result<QueryTarget<crate::records::FormalWorkScope, T>, ApplicationError>)
        ensures
            r == target_outcome::<crate::records::FormalWorkScope, T>(loaded, QuerySurface::NotVisible),
    {
        match loaded {
            Err(error) => Err(Self::map_repo_error(error)),
            Ok(None) => Ok(QueryTarget::Answer(not_visible_response())),
            Ok(Some(scope)) => Ok(QueryTarget::Found(scope)),
        }
    }

    /// Whether a member responsibility can read its project's data.
    pub fn member_is_visible(member: &ProjectMemberRecord) -> (r: bool)
        ensures
            r == visible_member(member.responsibility_state),
            // Active and paused members read their project; proposed and released ones do not.
            r <==> (member.responsibility_state == ProjectMemberResponsibilityState::Active
                || member.responsibility_state == ProjectMemberResponsibilityState::Paused),
    {
        match member.responsibility_state {
            ProjectMemberResponsibilityState::Active | ProjectMemberResponsibilityState::Paused => true,
            ProjectMemberResponsibilityState::Proposed | ProjectMemberResponsibilityState::Released => false,
        }
    }

    /// The global member behind the calling actor: an actor the resolver does not know
    /// or refuses sees nothing.
    pub fn resolve_query_actor_member(resolved: Result<String, PortError>) -> (r: Result<String, ApplicationError>)
        ensures
            match resolved {
                Ok(member_id) => r == Ok::<String, ApplicationError>(member_id),
                Err(PortError::NotFound) | Err(PortError::Rejected) => r == Err::<String, ApplicationError>(ApplicationError::NotVisible),
                Err(_) => r == Err::<String, ApplicationError>(ApplicationError::TemporarilyUnavailable),
            },
    {
        match resolved {
            Ok(member_id) => Ok(member_id),
            Err(error) => Err(match error {
                PortError::NotFound | PortError::Rejected => ApplicationError::NotVisible,
                PortError::Unavailable | PortError::InvalidResponse => ApplicationError::TemporarilyUnavailable,
            }),
        }
    }

    /// A project is readable by the actor's visible responsibility in it.
    pub fn authorize_project_read(member: Result<Option<ProjectMemberRecord>, RepositoryError>) -> (r: Result<ProjectMemberRef, ApplicationError>)
        ensures
            match member {
                Err(error) => r == Err::<ProjectMemberRef, ApplicationError>(query_repository_failure(error)),
                Ok(None) => r == Err::<ProjectMemberRef, ApplicationError>(ApplicationError::NotVisible),
                Ok(Some(m)) => if visible_member(m.responsibility_state) {
                    r == Ok::<ProjectMemberRef, ApplicationError>(m.project_member_ref)
                } else {
                    r == Err::<ProjectMemberRef, ApplicationError>(ApplicationError::NotVisible)
                },
            },
    {
        let member = match member {
            Ok(member) => member,
            Err(error) => return Err(Self::map_repo_error(error)),
        };
        let member = match member {
            Some(member) => member,
            None => return Err(ApplicationError::NotVisible),
        };
        if !Self::member_is_visible(&member) {
            return Err(ApplicationError::NotVisible);
        }
        Ok(member.project_member_ref)
    }

    /// A member's work is readable only while the member is visible; then the read is
    /// authorized on the member's project, which this returns.
    pub fn authorize_member_work_read(target_member: &ProjectMemberRecord) -> (r: Result<ProjectRef, ApplicationError>)
        ensures
            visible_member(target_member.responsibility_state) ==> r is Ok && r->Ok_0@ == target_member.project_id@,
            !visible_member(target_member.responsibility_state) ==> r == Err::<ProjectRef, ApplicationError>(ApplicationError::NotVisible),
    {
        if !Self::member_is_visible(target_member) {
            return Err(ApplicationError::NotVisible);
        }
        Ok(ProjectRef { project_id: target_member.project_id.clone() })
    }

    /// A work record is readable on its project: the read is authorized on the project of
    /// its scope, which this returns.
    pub fn authorize_work_read(scope: &crate::records::FormalWorkScope) -> (r: ProjectRef)
        ensures
            r@ == scope.project_ref@,
    {
        ProjectRef { project_id: scope.project_ref.project_id.clone() }
    }

    /// An iteration is readable on its project, which this returns.
    pub fn authorize_iteration_read(iteration_project_id: &String) -> (r: ProjectRef)
        ensures
            r@ == iteration_project_id@,
    {
        ProjectRef { project_id: iteration_project_id.clone() }
    }

    /// A backlog page with no items takes the empty surface.
    pub fn backlog_response(view: BacklogView) -> (r: WorkQueryResponse<BacklogView>)
        ensures
            r.data == Some(view),
            r.surface == (if view.items@.len() == 0 { QuerySurface::Empty } else { QuerySurface::Visible }),
    {
        if view.items.len() == 0 {
            empty_response(view)
        } else {
            visible_response(view)
        }
    }

    /// The response of a member-work read: a view not built yet is rebuilding; otherwise
    /// the assigned work that matches the requested state, under the projection's surface.
    pub fn member_work_response(projection: Option<MemberWorkViewProjection>, work_state: Option<WorkItemState>) -> (r: WorkQueryResponse<MemberWorkView>)
        ensures
            projection is None ==> r == (WorkQueryResponse::<MemberWorkView> { surface: QuerySurface::Rebuilding, data: None }),
            projection is Some ==> {
                let p = projection->Some_0;
                &&& r.surface == projection_surface(p.freshness.freshness_state)
                &&& r.data is Some
                &&& r.data->Some_0.member_ref == p.view.member_ref
                &&& r.data->Some_0.assigned_work@ == in_state(p.view.assigned_work@, work_state)
                &&& r.data->Some_0.marker.view_ref@ == p.freshness.view_ref@
                &&& r.data->Some_0.marker.source_cursor == p.freshness.source_cursor
                &&& r.data->Some_0.marker.freshness_state == p.freshness.freshness_state
                &&& r.data->Some_0.page == p.view.page
            },
    {
        match projection {
            None => rebuilding_response(),
            Some(projection) => {
                let assigned_work = Self::filter_member_work(&projection.view.assigned_work, work_state);
                let marker = Self::projection_marker(&projection.freshness);
                let view = MemberWorkView {
                    member_ref: projection.view.member_ref,
                    assigned_work,
                    marker,
                    page: projection.view.page,
                };
                Self::map_projection_surface(projection.freshness.freshness_state, view)
            },
        }
    }

    /// The response of an iteration-summary read: a summary not built yet is missing;
    /// otherwise the summary under the projection's surface.
    pub fn iteration_summary_response(projection: Option<IterationSummaryViewProjection>) -> (r: WorkQueryResponse<IterationSummaryView>)
        ensures
            projection is None ==> r == (WorkQueryResponse::<IterationSummaryView> { surface: QuerySurface::Missing, data: None }),
            projection is Some ==> {
                let p = projection->Some_0;
                &&& r.surface == projection_surface(p.freshness.freshness_state)
                &&& r.data is Some
                &&& r.data->Some_0.iteration_ref == p.view.iteration_ref
                &&& r.data->Some_0.iteration_state == p.view.iteration_state
                &&& r.data->Some_0.commitment_state == p.view.commitment_state
                &&& r.data->Some_0.committed_work == p.view.committed_work
                &&& r.data->Some_0.marker.view_ref@ == p.freshness.view_ref@
                &&& r.data->Some_0.marker.source_cursor == p.freshness.source_cursor
                &&& r.data->Some_0.marker.freshness_state == p.freshness.freshness_state
            },
    {
        match projection {
            None => missing_response(),
            Some(projection) => {
                let marker = Self::projection_marker(&projection.freshness);
                let view = IterationSummaryView {
                    iteration_ref: projection.view.iteration_ref,
                    iteration_state: projection.view.iteration_state,
                    commitment_state: projection.view.commitment_state,
                    committed_work: projection.view.committed_work,
                    marker,
                };
                Self::map_projection_surface(projection.freshness.freshness_state, view)
            },
        }
    }

    /// The facts of a project: its members summarized in order, with its backlog's work
    /// and relations.
    pub fn project_work_facts(
        project_ref: ProjectRef,
        lifecycle_state: ProjectLifecycleState,
        backlog_ref: Option<BacklogRef>,
        members: Vec<ProjectMemberRecord>,
        formal_work: Vec<FormalWorkSummaryView>,
        relations: Vec<WorkRelationSummaryView>,
    ) -> (r: ProjectWorkFactsView)
        ensures
            r.project_ref == project_ref,
            r.lifecycle_state == lifecycle_state,
            r.backlog_ref == backlog_ref,
            r.members@.len() == members@.len(),
            forall|k: int| 0 <= k < members@.len() ==> #[trigger] r.members@[k] == (ProjectMemberSummaryView {
                project_member_ref: members@[k].project_member_ref,
                member_id: members@[k].member_id,
                responsibility_state: members@[k].responsibility_state,
            }),
            r.formal_work == formal_work,
            r.relations == relations,
    {
        let mut summaries: Vec<ProjectMemberSummaryView> = Vec::new();
        let mut i: usize = 0;
        while i < members.len()
            invariant
                i <= members@.len(),
                summaries@.len() == i,
                forall|k: int| 0 <= k < i ==> #[trigger] summaries@[k] == (ProjectMemberSummaryView {
                    project_member_ref: members@[k].project_member_ref,
                    member_id: members@[k].member_id,
                    responsibility_state: members@[k].responsibility_state,
                }),
            decreases members.len() - i,
        {
            let member = &members[i];
            summaries.push(ProjectMemberSummaryView {
                project_member_ref: ProjectMemberRef { project_member_id: member.project_member_ref.project_member_id.clone() },
                member_id: member.member_id.clone(),
                responsibility_state: member.responsibility_state,
            });
            i = i + 1;
        }
        ProjectWorkFactsView { project_ref, lifecycle_state, backlog_ref, members: summaries, formal_work, relations }
    }
}

} // verus!
