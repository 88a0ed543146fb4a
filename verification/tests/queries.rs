use work_application::contracts::{
    BacklogRef, BacklogState, DerivedFreshnessState, DerivedViewKind, DerivedWorkViewRef,
    FormalWorkKind, FormalWorkRef, ProjectMemberRef, ProjectMemberResponsibilityState, ProjectRef,
    WorkItemState,
};
use work_application::errors::ApplicationError;
use work_application::ops::DerivedWorkViewState;
use work_application::ports::{PageInfo, PortError, RepositoryError};
use work_application::query::{
    AuthorizedWorkQueryService, BacklogQueryFilter, BacklogView, FormalWorkSummaryView,
    MemberWorkView, MemberWorkViewProjection, ProjectionViewMarker, PublicPageInfo, QuerySurface,
};
use work_application::query::{ProjectWorkFactsView, QueryTarget, WorkItemView};
use work_application::records::{ChildWorkItemRecord, FormalWorkRecord, ProjectMemberRecord, ProjectRecord, WorkItemRecord};

type Queries = AuthorizedWorkQueryService<(), (), (), (), (), (), (), ()>;

fn member_ref(id: &str) -> ProjectMemberRef {
    ProjectMemberRef { project_member_id: id.to_owned() }
}

fn member(state: ProjectMemberResponsibilityState) -> ProjectMemberRecord {
    ProjectMemberRecord {
        project_member_ref: member_ref("m-1"),
        project_id: "p-1".to_owned(),
        member_id: "g-1".to_owned(),
        responsibility_state: state,
    }
}

fn root(id: &str, assignee: &str, state: WorkItemState) -> FormalWorkRecord {
    FormalWorkRecord::WorkItem(WorkItemRecord {
        work_item_id: id.to_owned(),
        backlog_id: "b-1".to_owned(),
        assignee_ref: member_ref(assignee),
        work_state: state,
        completion_ref: None,
    })
}

fn child(id: &str, state: WorkItemState) -> FormalWorkRecord {
    FormalWorkRecord::ChildWorkItem(ChildWorkItemRecord {
        child_work_item_id: id.to_owned(),
        parent_work_item_id: "w-1".to_owned(),
        work_state: state,
        source_ref: "src-1".to_owned(),
        completion_ref: Some("ev-1".to_owned()),
    })
}

fn freshness(state: DerivedFreshnessState) -> DerivedWorkViewState {
    DerivedWorkViewState {
        view_ref: DerivedWorkViewRef { view_kind: DerivedViewKind::MemberWork, scope_id: "m-1".to_owned(), criteria_digest: None },
        freshness_state: state,
        source_cursor: "cursor-1".to_owned(),
    }
}

#[test]
fn active_and_paused_members_can_read() {
    assert!(Queries::member_is_visible(&member(ProjectMemberResponsibilityState::Active)));
    assert!(Queries::member_is_visible(&member(ProjectMemberResponsibilityState::Paused)));
    assert!(!Queries::member_is_visible(&member(ProjectMemberResponsibilityState::Released)));
    assert!(!Queries::member_is_visible(&member(ProjectMemberResponsibilityState::Proposed)));
}

#[test]
fn project_read_needs_a_visible_responsibility() {
    let granted = Queries::authorize_project_read(Ok(Some(member(ProjectMemberResponsibilityState::Active))));
    assert_eq!(granted.unwrap().project_member_id, "m-1");
    assert_eq!(Queries::authorize_project_read(Ok(None)).unwrap_err(), ApplicationError::NotVisible);
    let released = Queries::authorize_project_read(Ok(Some(member(ProjectMemberResponsibilityState::Released))));
    assert_eq!(released.unwrap_err(), ApplicationError::NotVisible);
    let failed = Queries::authorize_project_read(Err(RepositoryError::VersionConflict));
    assert_eq!(failed.unwrap_err(), ApplicationError::TemporarilyUnavailable);
}

#[test]
fn unknown_actor_sees_nothing() {
    assert_eq!(Queries::resolve_query_actor_member(Err(PortError::Rejected)).unwrap_err(), ApplicationError::NotVisible);
    assert_eq!(
        Queries::resolve_query_actor_member(Err(PortError::InvalidResponse)).unwrap_err(),
        ApplicationError::TemporarilyUnavailable
    );
    assert_eq!(Queries::resolve_query_actor_member(Ok("g-1".to_owned())).unwrap(), "g-1");
}

#[test]
fn member_work_read_checks_target_member_first() {
    let target = member(ProjectMemberResponsibilityState::Released);
    assert_eq!(Queries::authorize_member_work_read(&target).unwrap_err(), ApplicationError::NotVisible);
    let target = member(ProjectMemberResponsibilityState::Active);
    assert_eq!(Queries::authorize_member_work_read(&target).unwrap().project_id, "p-1");
}

#[test]
fn refused_read_answers_not_visible_and_other_errors_pass() {
    let refused = Queries::visibility_surface::<u8>(ApplicationError::NotVisible).unwrap();
    assert_eq!(refused.surface, QuerySurface::NotVisible);
    assert!(refused.data.is_none());
    let failed = Queries::visibility_surface::<u8>(ApplicationError::TemporarilyUnavailable);
    assert_eq!(failed.unwrap_err(), ApplicationError::TemporarilyUnavailable);
}

#[test]
fn projection_freshness_names_the_surface() {
    assert_eq!(Queries::map_projection_surface(DerivedFreshnessState::Fresh, 1u8).surface, QuerySurface::Visible);
    assert_eq!(Queries::map_projection_surface(DerivedFreshnessState::Stale, 1u8).surface, QuerySurface::Stale);
    assert_eq!(Queries::map_projection_surface(DerivedFreshnessState::Rebuilding, 1u8).surface, QuerySurface::Rebuilding);
    let failed = Queries::map_projection_surface(DerivedFreshnessState::Failed, 7u8);
    assert_eq!(failed.surface, QuerySurface::Failed);
    assert_eq!(failed.data, Some(7));
}

#[test]
fn default_page_reads_fifty_items() {
    let page = Queries::default_page();
    assert_eq!(page.limit, 50);
    assert!(page.page_token.is_none());
}

#[test]
fn backlog_filter_by_state_and_assignee() {
    let records = vec![
        Some(root("w-1", "m-1", WorkItemState::InProgress)),
        None,
        Some(root("w-2", "m-2", WorkItemState::InProgress)),
        Some(child("c-1", WorkItemState::InProgress)),
        Some(root("w-3", "m-1", WorkItemState::Completed)),
    ];
    let all = Queries::load_backlog_items(&records, &None);
    assert_eq!(all.len(), 4);
    let filter = Some(BacklogQueryFilter { work_state: Some(WorkItemState::InProgress), assignee_ref: Some(member_ref("m-1")) });
    let items = Queries::load_backlog_items(&records, &filter);
    assert_eq!(items.len(), 1);
    assert_eq!(items[0].work_ref.id, "w-1");
    let by_state = Some(BacklogQueryFilter { work_state: Some(WorkItemState::InProgress), assignee_ref: None });
    let ids: Vec<String> = Queries::load_backlog_items(&records, &by_state).iter().map(|s| s.work_ref.id.clone()).collect();
    assert_eq!(ids, vec!["w-1".to_owned(), "w-2".to_owned(), "c-1".to_owned()]);
}

#[test]
fn child_summaries_carry_no_assignee() {
    let summary = Queries::formal_work_summary_from_record(&child("c-9", WorkItemState::Formalized));
    assert_eq!(summary.work_ref.kind, FormalWorkKind::ChildWorkItem);
    assert!(summary.assignee_ref.is_none());
    assert_eq!(summary.completion_ref, Some("ev-1".to_owned()));
    let view = Queries::work_item_view(child("c-9", WorkItemState::Formalized), vec![]);
    assert_eq!(view.parent_ref.map(|p| p.id), Some("w-1".to_owned()));
    assert_eq!(view.source_ref, Some("src-1".to_owned()));
}

fn summary(id: &str, state: WorkItemState) -> FormalWorkSummaryView {
    FormalWorkSummaryView {
        work_ref: FormalWorkRef { kind: FormalWorkKind::WorkItem, id: id.to_owned() },
        work_state: state,
        assignee_ref: Some(member_ref("m-1")),
        completion_ref: None,
    }
}

#[test]
fn member_work_surfaces_follow_projection() {
    let missing = Queries::member_work_response(None, None);
    assert_eq!(missing.surface, QuerySurface::Rebuilding);
    assert!(missing.data.is_none());
    let projection = MemberWorkViewProjection {
        view: MemberWorkView {
            member_ref: member_ref("m-1"),
            assigned_work: vec![summary("w-1", WorkItemState::InProgress), summary("w-2", WorkItemState::Committed)],
            marker: ProjectionViewMarker {
                view_ref: DerivedWorkViewRef { view_kind: DerivedViewKind::MemberWork, scope_id: "m-1".to_owned(), criteria_digest: None },
                source_cursor: "old".to_owned(),
                freshness_state: DerivedFreshnessState::Fresh,
            },
            page: PublicPageInfo { next_page_token: None, has_more: false },
        },
        freshness: freshness(DerivedFreshnessState::Stale),
    };
    let response = Queries::member_work_response(Some(projection), Some(WorkItemState::Committed));
    assert_eq!(response.surface, QuerySurface::Stale);
    let view = response.data.unwrap();
    assert_eq!(view.assigned_work.len(), 1);
    assert_eq!(view.assigned_work[0].work_ref.id, "w-2");
    assert_eq!(view.marker.source_cursor, "cursor-1");
    assert_eq!(view.marker.freshness_state, DerivedFreshnessState::Stale);
}

#[test]
fn empty_backlog_page_is_empty_surface() {
    let view = BacklogView {
        backlog_ref: BacklogRef { backlog_id: "b-1".to_owned() },
        project_ref: ProjectRef { project_id: "p-1".to_owned() },
        backlog_state: BacklogState::Open,
        items: vec![],
        page: Queries::public_page_info(PageInfo { next_page_token: None, has_more: false }),
    };
    assert_eq!(Queries::backlog_response(view.clone()).surface, QuerySurface::Empty);
    let full = BacklogView { items: vec![summary("w-1", WorkItemState::Formalized)], ..view };
    assert_eq!(Queries::backlog_response(full).surface, QuerySurface::Visible);
}

#[test]
fn missing_iteration_summary_is_missing() {
    let response = Queries::iteration_summary_response(None);
    assert_eq!(response.surface, QuerySurface::Missing);
}

#[test]
fn query_repository_errors_distinguish_only_missing() {
    assert_eq!(Queries::map_repo_error(RepositoryError::NotFound), ApplicationError::NotFound);
    assert_eq!(Queries::map_repo_error(RepositoryError::VersionConflict), ApplicationError::TemporarilyUnavailable);
}

#[test]
fn project_facts_summarize_members_in_order() {
    let facts = Queries::project_work_facts(
        ProjectRef { project_id: "p-1".to_owned() },
        work_application::contracts::ProjectLifecycleState::Active,
        None,
        vec![member(ProjectMemberResponsibilityState::Active), ProjectMemberRecord { member_id: "g-2".to_owned(), ..member(ProjectMemberResponsibilityState::Paused) }],
        vec![],
        vec![],
    );
    let ids: Vec<String> = facts.members.iter().map(|m| m.member_id.clone()).collect();
    assert_eq!(ids, vec!["g-1".to_owned(), "g-2".to_owned()]);
    assert_eq!(facts.members[1].responsibility_state, ProjectMemberResponsibilityState::Paused);
}

#[test]
fn tc_work_query_001_project_work_facts_hit_missing_not_visible() {
    let missing = Queries::target_or_missing::<ProjectRecord, ProjectWorkFactsView>(Ok(None)).unwrap();
    match missing {
        QueryTarget::Answer(response) => {
            assert_eq!(response.surface, QuerySurface::Missing);
            assert!(response.data.is_none());
        }
        QueryTarget::Found(_) => panic!("a missing project was found"),
    }
    let found = Queries::target_or_missing::<ProjectRecord, ProjectWorkFactsView>(Ok(Some(ProjectRecord {
        project_ref: ProjectRef { project_id: "p-1".to_owned() },
        lifecycle_state: work_application::contracts::ProjectLifecycleState::Active,
    })))
    .unwrap();
    assert!(matches!(found, QueryTarget::Found(ref p) if p.project_ref.project_id == "p-1"));
    let refused = Queries::resolve_query_actor_member(Err(PortError::Rejected)).unwrap_err();
    let answer = Queries::visibility_surface::<ProjectWorkFactsView>(refused).unwrap();
    assert_eq!(answer.surface, QuerySurface::NotVisible);
    assert!(answer.data.is_none());
    assert!(matches!(
        Queries::target_or_missing::<ProjectRecord, ProjectWorkFactsView>(Err(RepositoryError::StoreUnavailable)),
        Err(ApplicationError::TemporarilyUnavailable)
    ));
}

#[test]
fn work_record_without_scope_is_not_visible() {
    match Queries::scope_or_not_visible::<WorkItemView>(Ok(None)).unwrap() {
        QueryTarget::Answer(response) => assert_eq!(response.surface, QuerySurface::NotVisible),
        QueryTarget::Found(_) => panic!("no scope was read"),
    }
}

#[test]
fn search_views_of_one_project_differ_by_criteria() {
    let project = ProjectRef { project_id: "p-1".to_owned() };
    let first = DerivedWorkViewRef::search(&project, "criteria-a".to_owned());
    let second = DerivedWorkViewRef::search(&project, "criteria-b".to_owned());
    assert_eq!(first.view_kind, DerivedViewKind::WorkSearch);
    assert_eq!(first.scope_id, second.scope_id);
    assert_ne!(first.criteria_digest, second.criteria_digest);
    assert_eq!(DerivedWorkViewRef::project_board(&project).criteria_digest, None);
    assert_eq!(first.clone_ref().criteria_digest, Some("criteria-a".to_owned()));
}
