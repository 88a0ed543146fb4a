use work_application::command::{expected_audit_version, require_idempotency_key, versioned_cursor};
use work_application::contracts::{
    EvidenceVerifiedState,
    ApplicationResultRef, BacklogRef, BacklogState, DerivedViewKind, DerivedWorkViewRef,
    FormalWorkKind, FormalWorkRef, IdempotencyResultView, IterationRef, ProjectLifecycleState,
    ProjectMemberRef, ProjectMemberResponsibilityState, ProjectRef, PromoteResultState,
    WorkCommandReceipt, WorkItemState,
};
use work_application::dependency::{
    DependencyBlockerService, DependencyChangeReasonKind, DependencyPlan, DependencyTarget,
};
use work_application::errors::ApplicationError;
use work_application::iteration::{
    CommitmentChangeSet, IterationCommandService, IterationCommitmentRecord,
    IterationLifecycleTarget, ProcessTimeboxSummary,
};
use work_application::member::{
    Activation, ProjectMemberCommandService, ProjectMemberReasonKind, ResponsibilityPlan,
    ResponsibilityTarget,
};
use work_application::ports::{PortError, RepositoryError, UnitOfWorkError};
use work_application::project::{
    ArchivedBacklog, DuplicateSurface, ProjectCommandService, ProjectLifecycleTarget,
};
use work_application::promote::{
    FormalWorkIntent, PromoteCommandService, PromoteDecision, PromoteResultRecord,
    PromoteReviewDecision, ReviewPlan,
};
use work_application::records::{
    BacklogRecord, ChildWorkItemRecord, FormalWorkRecord, FormalWorkScope, ProjectMemberRecord,
    ProjectRecord, WorkItemRecord,
};
use work_application::references::ExternalReferenceRef;
use work_application::results::{ProjectCommandResult, StoredCommandResult, WorkItemCommandResult};
use work_application::workitem::{matches_terminal, EvidenceStep, WorkItemCommandService, WorkLifecycleTarget};

type Project = ProjectCommandService<(), (), (), (), (), (), (), (), (), ()>;
type Member = ProjectMemberCommandService<(), (), (), (), (), (), (), (), (), (), (), ()>;
type Work = WorkItemCommandService<(), (), (), (), (), (), (), (), (), (), (), (), (), ()>;
type Promote = PromoteCommandService<(), (), (), (), (), (), (), (), (), (), (), (), ()>;
type Dependency = DependencyBlockerService<(), (), (), (), (), (), (), (), (), (), ()>;
type Iteration = IterationCommandService<(), (), (), (), (), (), (), (), (), (), (), (), ()>;

fn project_ref(id: &str) -> ProjectRef {
    ProjectRef { project_id: id.to_owned() }
}

fn member_ref(id: &str) -> ProjectMemberRef {
    ProjectMemberRef { project_member_id: id.to_owned() }
}

fn member(id: &str, project: &str, state: ProjectMemberResponsibilityState) -> ProjectMemberRecord {
    ProjectMemberRecord {
        project_member_ref: member_ref(id),
        project_id: project.to_owned(),
        member_id: format!("global-{id}"),
        responsibility_state: state,
    }
}

fn receipt(operation: &str) -> WorkCommandReceipt {
    WorkCommandReceipt::applied(
        ApplicationResultRef::for_operation(operation.to_owned(), "result-1".to_owned()),
        Some("trace-1".to_owned()),
        vec!["outbox-1".to_owned()],
        3,
    )
}

#[test]
fn cursors_name_record_and_version() {
    assert_eq!(versioned_cursor("project", "p-1", 7), "project:p-1:v7");
    assert_eq!(Project::project_cursor(&project_ref("p-1"), 12), "project:p-1:v12");
    assert_eq!(
        Project::backlog_cursor(&BacklogRef { backlog_id: "b-9".to_owned() }, 0),
        "backlog:b-9:v0"
    );
    assert_eq!(Member::member_cursor(&member_ref("m-2"), 5), "project_member:m-2:v5");
    assert_eq!(
        Iteration::iteration_cursor(&IterationRef { iteration_id: "it-4".to_owned() }, 30),
        "iteration:it-4:v30"
    );
    let child = FormalWorkRef { kind: FormalWorkKind::ChildWorkItem, id: "c-1".to_owned() };
    assert_eq!(Work::work_cursor(&child, 2), "child_work_item:c-1:v2");
    let root = FormalWorkRef { kind: FormalWorkKind::WorkItem, id: "w-1".to_owned() };
    assert_eq!(Promote::work_cursor(&root, 41), "work_item:w-1:v41");
    assert_eq!(Dependency::relation_cursor("dependency", "d-3", 1), "dependency:d-3:v1");
}

#[test]
fn audit_version_follows_trace_count_unless_gapped() {
    assert_eq!(expected_audit_version(false, 4), Some(4));
    assert_eq!(expected_audit_version(true, 4), None);
    assert_eq!(Project::creation_audit_version(false), Some(1));
    assert_eq!(Project::creation_audit_version(true), None);
}

#[test]
fn missing_idempotency_key_is_invalid() {
    assert_eq!(require_idempotency_key(None).unwrap_err(), ApplicationError::InvalidRequest);
    assert_eq!(require_idempotency_key(Some("k".to_owned())).unwrap(), "k");
}

#[test]
fn backlog_operations_replay_backlog_surfaces() {
    assert_eq!(Project::duplicate_surface("update_backlog_availability"), DuplicateSurface::Backlog);
    assert_eq!(Project::duplicate_surface("update_project_lifecycle"), DuplicateSurface::Project);
    assert_eq!(Project::duplicate_surface("create_project"), DuplicateSurface::Project);
    assert_eq!(Project::duplicate_surface("update_backlo"), DuplicateSurface::Project);
}

#[test]
fn archiving_a_project_moves_cursor_to_its_backlog() {
    let project = project_ref("p-1");
    let (cursor, outbox) = Project::lifecycle_effects(&project, 4, "o-p".to_owned(), None);
    assert_eq!(cursor, "project:p-1:v4");
    assert_eq!(outbox, vec!["o-p".to_owned()]);
    let archived = ArchivedBacklog {
        backlog_ref: BacklogRef { backlog_id: "b-1".to_owned() },
        outbox_id: "o-b".to_owned(),
        version: 9,
    };
    let (cursor, outbox) = Project::lifecycle_effects(&project, 4, "o-p".to_owned(), Some(archived));
    assert_eq!(cursor, "backlog:b-1:v9");
    assert_eq!(outbox, vec!["o-p".to_owned(), "o-b".to_owned()]);
}

#[test]
fn archive_needs_the_backlog_but_closing_does_not() {
    let closed = Project::archive_backlog(ProjectLifecycleTarget::Closed, Ok(None));
    assert!(matches!(closed, Ok(None)));
    let archived = Project::archive_backlog(ProjectLifecycleTarget::Archived, Ok(None));
    assert_eq!(archived.unwrap_err(), ApplicationError::NotFound);
    let failed = Project::archive_backlog(ProjectLifecycleTarget::Archived, Err(RepositoryError::StoreUnavailable));
    assert_eq!(failed.unwrap_err(), ApplicationError::TemporarilyUnavailable);
}

#[test]
fn missing_project_is_not_found() {
    let loaded: Result<Option<ProjectRecord>, RepositoryError> = Ok(None);
    assert_eq!(Project::lifecycle_target(loaded).unwrap_err(), ApplicationError::NotFound);
    let conflict: Result<Option<ProjectRecord>, RepositoryError> = Err(RepositoryError::VersionConflict);
    assert_eq!(Project::lifecycle_target(conflict).unwrap_err(), ApplicationError::VersionConflict);
}

#[test]
fn backlog_board_belongs_to_backlog_project() {
    let backlog = BacklogRecord {
        backlog_ref: BacklogRef { backlog_id: "b-1".to_owned() },
        project_id: "p-7".to_owned(),
        backlog_state: BacklogState::Open,
    };
    let views = Project::backlog_board_views(&backlog);
    assert_eq!(views.len(), 1);
    assert_eq!(views[0].view_kind, DerivedViewKind::ProjectBoard);
    assert_eq!(views[0].scope_id, "p-7");
}

#[test]
fn project_port_errors_treat_invalid_response_as_transient() {
    assert_eq!(Project::map_port_error(PortError::InvalidResponse), ApplicationError::TemporarilyUnavailable);
    assert_eq!(Promote::map_port_error(PortError::InvalidResponse), ApplicationError::DomainRejected);
    assert_eq!(Project::map_port_error(PortError::Rejected), ApplicationError::ExternalReferenceUnresolved);
}

#[test]
fn commit_failure_status_is_unknown() {
    assert_eq!(Project::map_uow_error_commit(UnitOfWorkError::CommitFailed), ApplicationError::CommitStatusUnknown);
    assert_eq!(Member::map_uow_error_commit(UnitOfWorkError::RollbackFailed), ApplicationError::TemporarilyUnavailable);
    assert_eq!(Work::map_uow_error_begin(UnitOfWorkError::BeginFailed), ApplicationError::TemporarilyUnavailable);
}

#[test]
fn duplicate_project_command_replays_stored_result() {
    let stored = StoredCommandResult::Project(ProjectCommandResult {
        project_ref: project_ref("p-1"),
        lifecycle_state: ProjectLifecycleState::Active,
        receipt: receipt("create_project"),
    });
    let replayed = Project::load_duplicate_project_result(&"create_project".to_owned(), Ok(Some(stored))).unwrap();
    assert_eq!(replayed.project_ref.project_id, "p-1");
    assert_eq!(replayed.receipt.idempotency, IdempotencyResultView::Duplicate);
    assert_eq!(replayed.receipt.version, 3);
    assert_eq!(replayed.receipt.outbox_refs, vec!["outbox-1".to_owned()]);
}

#[test]
fn duplicate_with_missing_surface_is_reported_missing() {
    let missing = Work::load_duplicate_work_result(&"create_work_item".to_owned(), Ok(None));
    assert_eq!(missing.unwrap_err(), ApplicationError::DuplicateResultMissing);
    let stored = StoredCommandResult::WorkItem(WorkItemCommandResult {
        work_ref: FormalWorkRef { kind: FormalWorkKind::WorkItem, id: "w-1".to_owned() },
        work_state: WorkItemState::Formalized,
        receipt: receipt("create_child_work_item"),
    });
    let foreign = Work::load_duplicate_work_result(&"create_work_item".to_owned(), Ok(Some(stored)));
    assert_eq!(foreign.unwrap_err(), ApplicationError::DuplicateResultMissing);
    let failed = Work::load_duplicate_work_result(&"create_work_item".to_owned(), Err(RepositoryError::NotFound));
    assert_eq!(failed.unwrap_err(), ApplicationError::NotFound);
}

#[test]
fn identity_is_assigned_once_per_project() {
    let existing = Ok(Some(member("m-1", "p-1", ProjectMemberResponsibilityState::Active)));
    assert_eq!(Member::admit_assignment(existing).unwrap_err(), ApplicationError::DomainRejected);
    assert!(Member::admit_assignment(Ok(None)).is_ok());
}

#[test]
fn released_member_cannot_return_to_active() {
    assert_eq!(
        Member::responsibility_plan(ResponsibilityTarget::Active, ProjectMemberReasonKind::Assigned).unwrap(),
        ResponsibilityPlan::Reactivate
    );
    assert_eq!(
        Member::activation(ProjectMemberResponsibilityState::Released).unwrap_err(),
        ApplicationError::DomainRejected
    );
    assert_eq!(Member::activation(ProjectMemberResponsibilityState::Proposed).unwrap(), Activation::Activate);
    assert_eq!(Member::activation(ProjectMemberResponsibilityState::Paused).unwrap(), Activation::Resume);
}

#[test]
fn releasing_needs_a_release_reason() {
    assert_eq!(
        Member::responsibility_plan(ResponsibilityTarget::Released, ProjectMemberReasonKind::Assigned).unwrap_err(),
        ApplicationError::DomainRejected
    );
    assert_eq!(
        Member::responsibility_plan(ResponsibilityTarget::Released, ProjectMemberReasonKind::Released).unwrap(),
        ResponsibilityPlan::Release
    );
}

#[test]
fn unresolved_member_snapshot_fails_before_activation() {
    let failed = Member::snapshot_from_input(Err(PortError::NotFound), Ok(()));
    assert_eq!(failed.unwrap_err(), ApplicationError::ExternalReferenceUnresolved);
    let unavailable = Member::snapshot_from_input(Err(PortError::Unavailable), Ok(()));
    assert_eq!(unavailable.unwrap_err(), ApplicationError::TemporarilyUnavailable);
}

#[test]
fn new_work_needs_an_active_member_of_the_project() {
    let project = project_ref("p-1");
    let active = Ok(Some(member("m-1", "p-1", ProjectMemberResponsibilityState::Active)));
    assert!(Work::creation_assignee(active, &project).is_ok());
    let elsewhere = Ok(Some(member("m-1", "p-2", ProjectMemberResponsibilityState::Active)));
    assert_eq!(Work::creation_assignee(elsewhere, &project).unwrap_err(), ApplicationError::NotFound);
    let paused = Ok(Some(member("m-1", "p-1", ProjectMemberResponsibilityState::Paused)));
    assert_eq!(Work::creation_assignee(paused, &project).unwrap_err(), ApplicationError::NotFound);
}

fn root_item(state: WorkItemState) -> WorkItemRecord {
    WorkItemRecord {
        work_item_id: "w-1".to_owned(),
        backlog_id: "b-1".to_owned(),
        assignee_ref: member_ref("m-1"),
        work_state: state,
        completion_ref: None,
    }
}

#[test]
fn children_hang_from_open_root_items_only() {
    let open = Work::child_parent(Ok(Some(FormalWorkRecord::WorkItem(root_item(WorkItemState::InProgress)))));
    assert_eq!(open.unwrap().work_item_id, "w-1");
    let done = Work::child_parent(Ok(Some(FormalWorkRecord::WorkItem(root_item(WorkItemState::Completed)))));
    assert_eq!(done.unwrap_err(), ApplicationError::DomainRejected);
    let child = FormalWorkRecord::ChildWorkItem(ChildWorkItemRecord {
        child_work_item_id: "c-1".to_owned(),
        parent_work_item_id: "w-1".to_owned(),
        work_state: WorkItemState::Formalized,
        source_ref: "src".to_owned(),
        completion_ref: None,
    });
    assert_eq!(Work::child_parent(Ok(Some(child))).unwrap_err(), ApplicationError::DomainRejected);
    assert!(matches_terminal(WorkItemState::Superseded));
    assert!(!matches_terminal(WorkItemState::Committed));
}

#[test]
fn completion_needs_evidence() {
    assert_eq!(Work::evidence_step(WorkLifecycleTarget::Completed, None).unwrap_err(), ApplicationError::InvalidRequest);
    assert!(matches!(
        Work::evidence_step(WorkLifecycleTarget::Completed, Some("ev".to_owned())),
        Ok(EvidenceStep::Resolve(e)) if e == "ev"
    ));
    assert!(matches!(
        Work::evidence_step(WorkLifecycleTarget::InProgress, None),
        Ok(EvidenceStep::PassThrough(None))
    ));
}

#[test]
fn work_views_include_member_work_when_assigned() {
    let views = Work::work_stale_views(&project_ref("p-1"), &Some(member_ref("m-1")));
    assert_eq!(views.len(), 2);
    assert_eq!(views[1].view_kind, DerivedViewKind::MemberWork);
    assert_eq!(views[1].scope_id, "m-1");
    assert_eq!(Work::work_stale_views(&project_ref("p-1"), &None).len(), 1);
}

fn promote_record(state: PromoteResultState) -> PromoteResultRecord {
    PromoteResultRecord {
        promote_result_id: "pr-1".to_owned(),
        source_ref: ExternalReferenceRef::SourceWork { source_kind: 1, external_id: "ext".to_owned() },
        result_state: state,
        created_work_ref: None,
    }
}

#[test]
fn pending_request_blocks_a_new_one_for_the_same_source() {
    let pending = Ok(Some(promote_record(PromoteResultState::PendingReview)));
    assert_eq!(Promote::admit_request(pending).unwrap_err(), ApplicationError::DomainRejected);
    let decided = Ok(Some(promote_record(PromoteResultState::Rejected)));
    assert!(Promote::admit_request(decided).is_ok());
    assert_eq!(Promote::admit_policy(&PromoteDecision::Duplicate("x".to_owned())).unwrap_err(), ApplicationError::DomainRejected);
    assert!(Promote::admit_policy(&PromoteDecision::Allow).is_ok());
}

#[test]
fn review_version_conflict_has_single_winner() {
    let accepted = Ok(Some(promote_record(PromoteResultState::Accepted)));
    assert_eq!(Promote::review_target(accepted).unwrap_err(), ApplicationError::VersionConflict);
    let pending = Ok(Some(promote_record(PromoteResultState::PendingReview)));
    assert!(Promote::review_target(pending).is_ok());
    assert_eq!(Promote::review_target(Ok(None)).unwrap_err(), ApplicationError::NotFound);
}

#[test]
fn accept_needs_intent_and_reject_forbids_it() {
    let intent = FormalWorkIntent { title: "t".to_owned(), assignee_ref: member_ref("m-1") };
    assert_eq!(Promote::review_plan(PromoteReviewDecision::Accept, None).unwrap_err(), ApplicationError::InvalidRequest);
    assert_eq!(
        Promote::review_plan(PromoteReviewDecision::Reject("no".to_owned()), Some(intent.clone())).unwrap_err(),
        ApplicationError::InvalidRequest
    );
    assert!(matches!(Promote::review_plan(PromoteReviewDecision::Accept, Some(intent)), Ok(ReviewPlan::Accept(_))));
}

#[test]
fn accepted_work_lands_in_active_assignee_project() {
    let active = Ok(Some(member("m-1", "p-3", ProjectMemberResponsibilityState::Active)));
    assert_eq!(Promote::accept_target_project(active).unwrap().project_id, "p-3");
    let released = Ok(Some(member("m-1", "p-3", ProjectMemberResponsibilityState::Released)));
    assert_eq!(Promote::accept_target_project(released).unwrap_err(), ApplicationError::NotFound);
}

#[test]
fn review_outbox_adds_work_record_when_accepted() {
    assert_eq!(Promote::review_outbox_refs("a".to_owned(), None), vec!["a".to_owned()]);
    assert_eq!(
        Promote::review_outbox_refs("a".to_owned(), Some("b".to_owned())),
        vec!["a".to_owned(), "b".to_owned()]
    );
}

#[test]
fn dependency_state_change_requires_reason_and_evidence() {
    let wrong = Dependency::dependency_plan(DependencyTarget::Waived, DependencyChangeReasonKind::Cancelled, None);
    assert_eq!(wrong.unwrap_err(), ApplicationError::InvalidRequest);
    let no_evidence = Dependency::dependency_plan(DependencyTarget::Satisfied, DependencyChangeReasonKind::SatisfiedByEvidence, None);
    assert_eq!(no_evidence.unwrap_err(), ApplicationError::InvalidRequest);
    let satisfied = Dependency::dependency_plan(
        DependencyTarget::Satisfied,
        DependencyChangeReasonKind::SatisfiedByEvidence,
        Some("ev".to_owned()),
    );
    assert!(matches!(satisfied, Ok(DependencyPlan::Satisfy(e)) if e == "ev"));
    assert!(matches!(
        Dependency::dependency_plan(DependencyTarget::Active, DependencyChangeReasonKind::Activated, None),
        Ok(DependencyPlan::Activate)
    ));
}

#[test]
fn resolve_blocker_requires_verified_evidence() {
    assert!(Dependency::require_verified_evidence(EvidenceVerifiedState::Verified).is_ok());
    assert_eq!(
        Dependency::require_verified_evidence(EvidenceVerifiedState::Unverified).unwrap_err(),
        ApplicationError::InvalidRequest
    );
}

#[test]
fn relation_views_and_graph_scope() {
    let scope = FormalWorkScope {
        work_ref: FormalWorkRef { kind: FormalWorkKind::WorkItem, id: "w-1".to_owned() },
        project_ref: project_ref("p-1"),
        backlog_ref: BacklogRef { backlog_id: "b-1".to_owned() },
        assignee_ref: Some(member_ref("m-1")),
    };
    let views = Dependency::affected_relation_views(&scope);
    assert_eq!(views.len(), 2);
    assert_eq!(views[0].scope_id, "p-1");
    assert!(Dependency::graph_matches(&project_ref("p-1"), &scope).is_ok());
    assert_eq!(Dependency::graph_matches(&project_ref("p-2"), &scope).unwrap_err(), ApplicationError::DomainRejected);
}

#[test]
fn timebox_must_belong_to_project_and_carry_a_digest() {
    let summary = ProcessTimeboxSummary {
        project_ref: project_ref("p-1"),
        can_open_iteration: true,
        source_digest: "sha:1".to_owned(),
    };
    assert!(Iteration::ensure_timebox_can_bind_to_project(&summary, &project_ref("p-1")).is_ok());
    assert_eq!(
        Iteration::ensure_timebox_can_bind_to_project(&summary, &project_ref("p-2")).unwrap_err(),
        ApplicationError::ExternalReferenceUnresolved
    );
    let blank = ProcessTimeboxSummary { source_digest: " \t".to_owned(), ..summary.clone() };
    assert_eq!(
        Iteration::ensure_timebox_can_bind_to_project(&blank, &project_ref("p-1")).unwrap_err(),
        ApplicationError::ExternalReferenceUnresolved
    );
    let closed = ProcessTimeboxSummary { can_open_iteration: false, ..summary };
    assert!(Iteration::ensure_timebox_can_bind_to_project(&closed, &project_ref("p-1")).is_err());
}

#[test]
fn iteration_opens_only_in_active_projects() {
    let closed = Ok(Some(ProjectRecord { project_ref: project_ref("p-1"), lifecycle_state: ProjectLifecycleState::Closed }));
    assert_eq!(Iteration::open_target(closed).unwrap_err(), ApplicationError::DomainRejected);
}

#[test]
fn lifecycle_reason_shape() {
    assert_eq!(Iteration::require_change_reason(Some("c"), None::<&str>).unwrap(), "c");
    assert_eq!(Iteration::require_change_reason(Some("c"), Some("x")).unwrap_err(), ApplicationError::InvalidRequest);
    assert_eq!(Iteration::require_close_reason(None::<&str>, Some("c")).unwrap_err(), ApplicationError::InvalidRequest);
    assert_eq!(Iteration::require_close_reason(Some("x"), None::<&str>).unwrap(), "x");
}

#[test]
fn start_requires_existing_commitment() {
    let start = Iteration::lifecycle_commitment(IterationLifecycleTarget::InProgress, Ok(None));
    assert_eq!(start.unwrap_err(), ApplicationError::DomainRejected);
    let close = Iteration::lifecycle_commitment(IterationLifecycleTarget::Closed, Ok(None));
    assert_eq!(close.unwrap_err(), ApplicationError::NotFound);
    let cancel = Iteration::lifecycle_commitment(IterationLifecycleTarget::Cancelled, Ok(None));
    assert!(matches!(cancel, Ok(None)));
    let record = IterationCommitmentRecord {
        commitment_state: work_application::contracts::CommitmentState::Committed,
        committed_work_refs: vec![],
    };
    assert!(matches!(Iteration::lifecycle_commitment(IterationLifecycleTarget::InProgress, Ok(Some(record))), Ok(Some(_))));
}

#[test]
fn commitment_change_must_change_something() {
    let empty = CommitmentChangeSet { add_work_refs: vec![], remove_work_refs: vec![] };
    assert_eq!(Iteration::require_change(&empty).unwrap_err(), ApplicationError::InvalidRequest);
    assert_eq!(Iteration::require_candidates(&vec![]).unwrap_err(), ApplicationError::InvalidRequest);
    assert_eq!(Iteration::require_in_backlog(Ok(false)).unwrap_err(), ApplicationError::DomainRejected);
    assert!(Iteration::require_in_backlog(Ok(true)).is_ok());
}

#[test]
fn merged_work_refs_keep_first_occurrences() {
    let a = FormalWorkRef { kind: FormalWorkKind::WorkItem, id: "a".to_owned() };
    let b = FormalWorkRef { kind: FormalWorkKind::ChildWorkItem, id: "b".to_owned() };
    let a_child = FormalWorkRef { kind: FormalWorkKind::ChildWorkItem, id: "a".to_owned() };
    let merged = Iteration::merge_work_refs(&vec![a.clone(), b.clone(), a.clone()], &vec![b.clone(), a_child.clone()]);
    let ids: Vec<(FormalWorkKind, String)> = merged.iter().map(|r| (r.kind, r.id.clone())).collect();
    assert_eq!(
        ids,
        vec![
            (FormalWorkKind::WorkItem, "a".to_owned()),
            (FormalWorkKind::ChildWorkItem, "b".to_owned()),
            (FormalWorkKind::ChildWorkItem, "a".to_owned()),
        ]
    );
}

#[test]
fn affected_assignees_are_distinct_and_in_order() {
    let scope = |id: &str, assignee: Option<&str>| FormalWorkScope {
        work_ref: FormalWorkRef { kind: FormalWorkKind::WorkItem, id: id.to_owned() },
        project_ref: project_ref("p-1"),
        backlog_ref: BacklogRef { backlog_id: "b-1".to_owned() },
        assignee_ref: assignee.map(member_ref),
    };
    let scopes = vec![scope("w1", Some("m2")), scope("w2", None), scope("w3", Some("m1")), scope("w4", Some("m2"))];
    let assignees = Iteration::affected_assignees(&scopes);
    let ids: Vec<String> = assignees.iter().map(|m| m.project_member_id.clone()).collect();
    assert_eq!(ids, vec!["m2".to_owned(), "m1".to_owned()]);
    let views = Iteration::affected_views(&project_ref("p-1"), &assignees, &IterationRef { iteration_id: "it".to_owned() });
    let kinds: Vec<DerivedViewKind> = views.iter().map(|v: &DerivedWorkViewRef| v.view_kind).collect();
    assert_eq!(
        kinds,
        vec![DerivedViewKind::ProjectBoard, DerivedViewKind::IterationSummary, DerivedViewKind::MemberWork, DerivedViewKind::MemberWork]
    );
}
