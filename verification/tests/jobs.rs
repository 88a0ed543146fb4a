use work_application::api::{answer, WorkCommandHandlers, WorkQueryHandlers};
use work_application::contracts::{
    ApplicationResultRef, DerivedFreshnessState, DerivedViewKind, DerivedWorkViewRef,
    IdempotencyResultView, ProjectRef,
};
use work_application::digest::{command_digest, ActorContext};
use work_application::errors::{ApplicationError, WorkProtocolError};
use work_application::idempotency::RequestDigest;
use work_application::jobs::{
    job_idempotency_key, load_duplicate_reconciliation_report, load_duplicate_work_job_report,
    rebuild_report, reconciliation_report, reference_state_expected_version, refresh_report,
    refresh_step, snapshot_accepted, snapshot_route, trace_handoff_failure, RefreshStep,
    SnapshotRoute, WorkJobMetadata,
};
use work_application::ops::{DerivedWorkViewState, WorkReconciliationScopeKind, WorkReconciliationScopeRef};
use work_application::outbox::{publication_source, PublishItemStep, PublishOneOutcome, WorkJobFailureRef, WorkOutboxPublishService, WorkOutboxRecord, WorkOutboxEventKind, WorkOutboxSourceRef};
use work_application::ports::{PageRequest, RepositoryError};
use work_application::references::ExternalReferenceRef;
use work_application::results::StoredJobResult;

type Publisher = WorkOutboxPublishService<(), (), (), (), (), (), (), (), (), (), (), (), (), (), ()>;

fn result_ref(operation: &str) -> ApplicationResultRef {
    ApplicationResultRef::for_operation(operation.to_owned(), "r-1".to_owned())
}

#[test]
fn job_digest_is_the_canonical_page_json() {
    let page = PageRequest { limit: 50, page_token: None };
    let digest = Publisher::job_digest(&"publish_work_outbox".to_owned(), &page).unwrap();
    assert_eq!(digest.0, r#"{"operation":"publish_work_outbox","page_limit":50,"page_token":null}"#);
    let page = PageRequest { limit: 7, page_token: Some("a\"b\n".to_owned()) };
    let digest = Publisher::job_digest(&"op".to_owned(), &page).unwrap();
    assert_eq!(digest.0, r#"{"operation":"op","page_limit":7,"page_token":"a\"b\n"}"#);
}

#[test]
fn command_digest_is_canonical_json_with_sorted_keys() {
    let actor = ActorContext {
        actor_id: "actor-1".to_owned(),
        actor_kind: "human".to_owned(),
        delegated_by: None,
        role_refs: vec!["role-a".to_owned()],
        request_origin: "api".to_owned(),
    };
    let digest = RequestDigest::from_canonical_command_input(
        &"create_project".to_owned(),
        &actor,
        &r#"{"name":"Alpha","code":1}"#.to_owned(),
    )
    .unwrap();
    assert_eq!(
        digest.0,
        r#"{"actor_id":"actor-1","actor_kind":"human","command":{"code":1,"name":"Alpha"},"delegated_by":null,"operation":"create_project","request_origin":"api","role_refs":["role-a"]}"#
    );
    let again = RequestDigest::from_canonical_command_input(
        &"create_project".to_owned(),
        &actor,
        &r#"{"code":1,"name":"Alpha"}"#.to_owned(),
    )
    .unwrap();
    assert_eq!(digest.0, again.0);
}

#[test]
fn command_digest_names_every_actor_field() {
    let actor = ActorContext {
        actor_id: "a\"1".to_owned(),
        actor_kind: "agent".to_owned(),
        delegated_by: Some("lead".to_owned()),
        role_refs: vec!["r1".to_owned(), "r2".to_owned(), "r3".to_owned()],
        request_origin: "runtime".to_owned(),
    };
    let digest = RequestDigest::from_canonical_command_input(&"op".to_owned(), &actor, &"[ 1, 2 ]".to_owned()).unwrap();
    assert_eq!(
        digest.0,
        r#"{"actor_id":"a\"1","actor_kind":"agent","command":[1,2],"delegated_by":"lead","operation":"op","request_origin":"runtime","role_refs":["r1","r2","r3"]}"#
    );
    let other = ActorContext { actor_id: "a2".to_owned(), ..actor.clone() };
    let other_digest = RequestDigest::from_canonical_command_input(&"op".to_owned(), &other, &"[1,2]".to_owned()).unwrap();
    assert_ne!(digest.0, other_digest.0);
}

#[test]
fn command_that_is_not_json_is_an_invalid_request() {
    let actor = ActorContext {
        actor_id: "a".to_owned(),
        actor_kind: "human".to_owned(),
        delegated_by: Some("b".to_owned()),
        role_refs: vec![],
        request_origin: "api".to_owned(),
    };
    let digest = RequestDigest::from_canonical_command_input(&"op".to_owned(), &actor, &"{not json".to_owned());
    assert!(digest.is_err());
    assert_eq!(command_digest(digest).unwrap_err(), ApplicationError::InvalidRequest);
}

#[test]
fn job_needs_an_idempotency_key() {
    let metadata = WorkJobMetadata { job_run_id: "run-1".to_owned(), idempotency_key: None };
    assert_eq!(job_idempotency_key(&metadata).unwrap_err(), ApplicationError::InvalidRequest);
}

#[test]
fn reported_refresh_failures_do_not_abort_the_job() {
    assert_eq!(refresh_step(Ok(())), RefreshStep::Changed);
    assert_eq!(refresh_step(Err(ApplicationError::ExternalReferenceUnresolved)), RefreshStep::MarkFailed);
    assert_eq!(refresh_step(Err(ApplicationError::InvalidRequest)), RefreshStep::MarkFailed);
    assert_eq!(refresh_step(Err(ApplicationError::VersionConflict)), RefreshStep::Abort(ApplicationError::VersionConflict));
}

#[test]
fn refresh_report_counts_and_reports_failures_by_key() {
    let changed = vec![ExternalReferenceRef::Member("m".to_owned())];
    let failed = vec![
        ExternalReferenceRef::Evidence { evidence_kind: 2, external_id: "e-1".to_owned() },
        ExternalReferenceRef::ProcessTimebox("t-1".to_owned()),
    ];
    let report = refresh_report("run-1".to_owned(), result_ref("refresh_external_reference_snapshots"), 3, &changed, &failed);
    assert_eq!(report.scanned_count, 3);
    assert_eq!(report.changed_count, 1);
    let keys: Vec<String> = report
        .failed_refs
        .iter()
        .map(|f| match f {
            WorkJobFailureRef::ExternalReference(key) => key.clone(),
            _ => String::new(),
        })
        .collect();
    assert_eq!(keys, vec!["3:2:e-1".to_owned(), "4:t-1".to_owned()]);
    let receipt = report.receipt.unwrap();
    assert_eq!(receipt.version, 0);
    assert!(receipt.trace_id.is_none());
    assert!(receipt.outbox_refs.is_empty());
}

#[test]
fn snapshot_routes_by_reference_kind() {
    assert!(matches!(snapshot_route(&ExternalReferenceRef::Member("m".to_owned())), SnapshotRoute::MemberSnapshot(id) if id == "m"));
    assert!(matches!(snapshot_route(&ExternalReferenceRef::ProcessTimebox("t".to_owned())), SnapshotRoute::TimeboxState));
    assert_eq!(snapshot_accepted::<u8, ()>(Err(())).unwrap_err(), ApplicationError::InvalidRequest);
    assert_eq!(reference_state_expected_version::<u8>(Ok(Some((1, 4)))).unwrap(), Some(4));
    assert_eq!(reference_state_expected_version::<u8>(Ok(None)).unwrap(), None);
}

#[test]
fn rebuild_counts_rebuilt_views_as_changed() {
    let report = rebuild_report("run-2".to_owned(), result_ref("rebuild_work_projections"), 4);
    assert_eq!(report.scanned_count, 0);
    assert_eq!(report.changed_count, 4);
    assert!(report.failed_refs.is_empty());
}

#[test]
fn duplicate_job_replays_stored_report() {
    let stored = StoredJobResult::WorkJob(rebuild_report("run-2".to_owned(), result_ref("rebuild_work_projections"), 4));
    let replayed = load_duplicate_work_job_report(&"rebuild_work_projections".to_owned(), Ok(Some(stored))).unwrap();
    assert_eq!(replayed.changed_count, 4);
    assert_eq!(replayed.receipt.unwrap().idempotency, IdempotencyResultView::Duplicate);
    let missing = Publisher::load_duplicate_work_job_report(&"publish_work_outbox".to_owned(), Ok(None));
    assert_eq!(missing.unwrap_err(), ApplicationError::DuplicateResultMissing);
    let failed = load_duplicate_work_job_report(&"x".to_owned(), Err(RepositoryError::StoreUnavailable));
    assert_eq!(failed.unwrap_err(), ApplicationError::TemporarilyUnavailable);
}

#[test]
fn reconciliation_reports_views_that_are_not_fresh() {
    let scope = WorkReconciliationScopeRef {
        scope_kind: WorkReconciliationScopeKind::Project,
        project_ref: Some(ProjectRef { project_id: "p-1".to_owned() }),
        view_ref: None,
    };
    let state = |scope_id: &str, freshness_state| DerivedWorkViewState {
        view_ref: DerivedWorkViewRef { view_kind: DerivedViewKind::ProjectBoard, scope_id: scope_id.to_owned(), criteria_digest: None },
        freshness_state,
        source_cursor: "c".to_owned(),
    };
    let states = vec![state("a", DerivedFreshnessState::Fresh), state("b", DerivedFreshnessState::Failed), state("c", DerivedFreshnessState::Stale)];
    let report = reconciliation_report(scope, "cursor".to_owned(), &states, vec!["o-1".to_owned()], vec![]);
    let gaps: Vec<String> = report.projection_gaps.iter().map(|v| v.scope_id.clone()).collect();
    assert_eq!(gaps, vec!["b".to_owned(), "c".to_owned()]);
    let stored = StoredJobResult::Reconciliation(report);
    let replayed = load_duplicate_reconciliation_report(&"run_work_reconciliation".to_owned(), Ok(Some(stored.clone()))).unwrap();
    assert_eq!(replayed.truth_cursor, "cursor");
    let foreign = load_duplicate_reconciliation_report(&"publish_work_outbox".to_owned(), Ok(Some(stored)));
    assert_eq!(foreign.unwrap_err(), ApplicationError::DuplicateResultMissing);
}

#[test]
fn trace_handoff_failure_names_trace_subject_and_target() {
    match trace_handoff_failure("t-1".to_owned(), "s-1".to_owned(), "x-1".to_owned()) {
        WorkJobFailureRef::TraceHandoff { trace_id, subject_ref, target_ref } => {
            assert_eq!((trace_id.as_str(), subject_ref.as_str(), target_ref.as_str()), ("t-1", "s-1", "x-1"));
        }
        _ => panic!("expected a trace handoff failure"),
    }
}

#[test]
fn invalid_source_is_marked_failed_and_other_errors_abort() {
    assert_eq!(Publisher::publish_item_step(Ok(PublishOneOutcome::Published)), PublishItemStep::Outcome(PublishOneOutcome::Published));
    assert_eq!(Publisher::publish_item_step(Err(ApplicationError::InvalidOutboxSource)), PublishItemStep::MarkInvalidSource);
    assert_eq!(
        Publisher::publish_item_step(Err(ApplicationError::TemporarilyUnavailable)),
        PublishItemStep::Abort(ApplicationError::TemporarilyUnavailable)
    );
}

#[test]
fn outbound_envelope_keeps_record_identity() {
    let record = WorkOutboxRecord {
        outbox_id: "o-1".to_owned(),
        event_kind: WorkOutboxEventKind::ProjectChanged,
        source_ref: WorkOutboxSourceRef::Project { project_ref: ProjectRef { project_id: "p-1".to_owned() }, reason: "created".to_owned() },
        trace_context_ref: "trace-ctx".to_owned(),
        occurred_at: "2024-01-01T00:00:00Z".to_owned(),
    };
    let envelope = Publisher::envelope(&record, 5u8);
    assert_eq!(envelope.outbox_id, "o-1");
    assert_eq!(envelope.event_version, "v1");
    assert_eq!(envelope.trace_context_ref, "trace-ctx");
    assert_eq!(envelope.payload, 5);
}

#[test]
fn handlers_answer_on_the_protocol() {
    let handlers = WorkCommandHandlers::new(1u8, 2u8, 3u8, 4u8, 5u8, 6u8);
    assert_eq!(handlers.iteration_service, 6);
    let queries = WorkQueryHandlers::new("q");
    assert_eq!(queries.query_service, "q");
    assert_eq!(answer::<u8>(Ok(3)), Ok(3));
    assert_eq!(answer::<u8>(Err(ApplicationError::DuplicateResultMissing)), Err(WorkProtocolError::TemporarilyUnavailable));
    assert_eq!(answer::<u8>(Err(ApplicationError::NotVisible)), Err(WorkProtocolError::NotVisible));
}

#[test]
fn mismatched_outbox_source_is_invalid() {
    let project = WorkOutboxSourceRef::Project { project_ref: ProjectRef { project_id: "p-1".to_owned() }, reason: "created".to_owned() };
    assert!(matches!(
        publication_source(WorkOutboxEventKind::BacklogChanged, project.clone()),
        Err(ApplicationError::InvalidOutboxSource)
    ));
    assert!(publication_source(WorkOutboxEventKind::ProjectChanged, project).is_ok());
}
