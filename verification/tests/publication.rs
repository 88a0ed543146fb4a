use work_application::contracts::{
    ApplicationResultRef, BacklogRef, BacklogState, BlockerState, DerivedFreshnessState,
    DerivedViewKind, DerivedWorkViewRef, FormalWorkKind, FormalWorkRef, IterationRef,
    IterationState, ProjectLifecycleState, ProjectRef, PromoteResultState,
};
use work_application::errors::ApplicationError;
use work_application::ops::DerivedWorkViewState;
use work_application::outbox::{
    PublishOneOutcome, WorkJobFailureRef, WorkOutboxEventKind, WorkOutboxPublishService,
    WorkOutboxRecord, WorkOutboxSourceRef,
};
use work_application::promote::PromoteResultRecord;
use work_application::publication::{build_publication, LoadedTruth, WorkOutboundPublication, WorkTraceRecord};
use work_application::query::BlockerRecord;
use work_application::records::{BacklogRecord, ProjectRecord};
use work_application::references::ExternalReferenceRef;

type Publisher = WorkOutboxPublishService<(), (), (), (), (), (), (), (), (), (), (), (), (), (), ()>;

fn record(kind: WorkOutboxEventKind, source_ref: WorkOutboxSourceRef) -> WorkOutboxRecord {
    WorkOutboxRecord {
        outbox_id: "outbox-1".to_owned(),
        event_kind: kind,
        source_ref,
        trace_context_ref: "trace-ctx".to_owned(),
        occurred_at: "2024-01-01T00:00:00Z".to_owned(),
    }
}

fn project_source() -> WorkOutboxSourceRef {
    WorkOutboxSourceRef::Project {
        project_ref: ProjectRef { project_id: "project-1".to_owned() },
        reason: "project_created".to_owned(),
    }
}

fn project_truth() -> LoadedTruth {
    LoadedTruth::Project(ProjectRecord {
        project_ref: ProjectRef { project_id: "project-1".to_owned() },
        lifecycle_state: ProjectLifecycleState::Active,
    })
}

#[test]
fn publish_outbox_rebuilds_project_changed_payload_from_typed_source() {
    let publication = build_publication(record(WorkOutboxEventKind::ProjectChanged, project_source()), project_truth()).unwrap();
    match publication {
        WorkOutboundPublication::ProjectChanged(envelope) => {
            assert_eq!(envelope.outbox_id, "outbox-1");
            assert_eq!(envelope.event_version, "v1");
            assert_eq!(envelope.trace_context_ref, "trace-ctx");
            assert_eq!(envelope.payload.project_ref.project_id, "project-1");
            assert_eq!(envelope.payload.lifecycle_state, ProjectLifecycleState::Active);
            assert_eq!(envelope.payload.reason, "project_created");
        }
        other => panic!("unexpected publication {:?}", other),
    }
}

#[test]
fn publish_outbox_success_reports_one_changed_record() {
    let outcomes = vec![("outbox-1".to_owned(), PublishOneOutcome::Published)];
    let report = Publisher::page_report(
        "job-1".to_owned(),
        ApplicationResultRef::for_operation("publish_work_outbox".to_owned(), "r-1".to_owned()),
        &outcomes,
    );
    assert_eq!(report.scanned_count, 1);
    assert_eq!(report.changed_count, 1);
    assert!(report.failed_refs.is_empty());
    assert_eq!(report.job_run_id, "job-1");
    assert!(report.receipt.is_some());
}

#[test]
fn page_report_scans_every_record_and_reports_failures() {
    let outcomes = vec![
        ("o-1".to_owned(), PublishOneOutcome::Failed),
        ("o-2".to_owned(), PublishOneOutcome::AlreadyHandled),
        ("o-3".to_owned(), PublishOneOutcome::Published),
    ];
    let report = Publisher::page_report(
        "job-2".to_owned(),
        ApplicationResultRef::for_operation("publish_work_outbox".to_owned(), "r-2".to_owned()),
        &outcomes,
    );
    assert_eq!(report.scanned_count, 3);
    assert_eq!(report.changed_count, 2);
    let ids: Vec<String> = report
        .failed_refs
        .iter()
        .map(|f| match f {
            WorkJobFailureRef::WorkOutbox(id) => id.clone(),
            other => panic!("unexpected failure {:?}", other),
        })
        .collect();
    assert_eq!(ids, vec!["o-1".to_owned(), "o-2".to_owned()]);
}

#[test]
fn truth_of_another_kind_cannot_be_published() {
    let wrong_truth = LoadedTruth::TraceRecord(WorkTraceRecord { trace_id: "t".to_owned(), subject_ref: "s".to_owned() });
    assert!(matches!(
        build_publication(record(WorkOutboxEventKind::ProjectChanged, project_source()), wrong_truth),
        Err(ApplicationError::InvalidOutboxSource)
    ));
    assert!(matches!(
        build_publication(record(WorkOutboxEventKind::BacklogChanged, project_source()), project_truth()),
        Err(ApplicationError::InvalidOutboxSource)
    ));
}

#[test]
fn backlog_change_carries_its_project_and_reason() {
    let source = WorkOutboxSourceRef::Backlog {
        backlog_ref: BacklogRef { backlog_id: "backlog-1".to_owned() },
        reason: "locked".to_owned(),
    };
    let truth = LoadedTruth::Backlog(BacklogRecord {
        backlog_ref: BacklogRef { backlog_id: "backlog-1".to_owned() },
        project_id: "project-1".to_owned(),
        backlog_state: BacklogState::LockedForMaintenance,
    });
    match build_publication(record(WorkOutboxEventKind::BacklogChanged, source), truth).unwrap() {
        WorkOutboundPublication::BacklogChanged(envelope) => {
            assert_eq!(envelope.payload.project_ref.project_id, "project-1");
            assert_eq!(envelope.payload.backlog_state, BacklogState::LockedForMaintenance);
            assert_eq!(envelope.payload.reason, "locked");
        }
        other => panic!("unexpected publication {:?}", other),
    }
}

#[test]
fn promote_blocker_trace_and_view_payloads() {
    let work = FormalWorkRef { kind: FormalWorkKind::WorkItem, id: "w-1".to_owned() };
    let promote = LoadedTruth::PromoteResult(PromoteResultRecord {
        promote_result_id: "pr-1".to_owned(),
        source_ref: ExternalReferenceRef::SourceWork { source_kind: 1, external_id: "ext".to_owned() },
        result_state: PromoteResultState::Accepted,
        created_work_ref: Some(work.clone()),
    });
    match build_publication(record(WorkOutboxEventKind::PromoteResultRecorded, WorkOutboxSourceRef::PromoteResult("pr-1".to_owned())), promote).unwrap() {
        WorkOutboundPublication::PromoteResultRecorded(envelope) => {
            assert_eq!(envelope.payload.promote_result_ref, "pr-1");
            assert_eq!(envelope.payload.result_state, PromoteResultState::Accepted);
            assert_eq!(envelope.payload.created_work_ref.unwrap().id, "w-1");
        }
        other => panic!("unexpected publication {:?}", other),
    }
    let blocker = LoadedTruth::Blocker(BlockerRecord {
        blocked_work_ref: work,
        blocker_state: BlockerState::Resolved,
        resolved_evidence_ref: Some("ev-1".to_owned()),
    });
    match build_publication(record(WorkOutboxEventKind::WorkBlockerChanged, WorkOutboxSourceRef::Blocker("b-1".to_owned())), blocker).unwrap() {
        WorkOutboundPublication::WorkBlockerChanged(envelope) => {
            assert_eq!(envelope.payload.blocker_ref, "b-1");
            assert_eq!(envelope.payload.evidence_ref, Some("ev-1".to_owned()));
        }
        other => panic!("unexpected publication {:?}", other),
    }
    let trace_source = WorkOutboxSourceRef::TraceAvailable { trace_id: "t-1".to_owned(), handoff_ref: Some("h-1".to_owned()) };
    let trace = LoadedTruth::TraceRecord(WorkTraceRecord { trace_id: "t-1".to_owned(), subject_ref: "work:w-1".to_owned() });
    match build_publication(record(WorkOutboxEventKind::WorkTraceAvailable, trace_source), trace).unwrap() {
        WorkOutboundPublication::WorkTraceAvailable(envelope) => {
            assert_eq!(envelope.payload.subject_ref, "work:w-1");
            assert_eq!(envelope.payload.handoff_ref, Some("h-1".to_owned()));
        }
        other => panic!("unexpected publication {:?}", other),
    }
    let view_ref = DerivedWorkViewRef { view_kind: DerivedViewKind::ProjectBoard, scope_id: "project-1".to_owned(), criteria_digest: None };
    let freshness = LoadedTruth::Freshness(DerivedWorkViewState {
        view_ref: view_ref.clone(),
        freshness_state: DerivedFreshnessState::Stale,
        source_cursor: "cursor-1".to_owned(),
    });
    match build_publication(record(WorkOutboxEventKind::DerivedWorkViewChanged, WorkOutboxSourceRef::DerivedView(view_ref)), freshness).unwrap() {
        WorkOutboundPublication::DerivedWorkViewChanged(envelope) => {
            assert_eq!(envelope.payload.freshness_state, DerivedFreshnessState::Stale);
            assert_eq!(envelope.payload.source_cursor, "cursor-1");
        }
        other => panic!("unexpected publication {:?}", other),
    }
}

#[test]
fn iteration_without_commitment_has_no_affected_work() {
    let truth = LoadedTruth::Iteration { project_id: "project-1".to_owned(), iteration_state: IterationState::Planning, commitment: None };
    let source = WorkOutboxSourceRef::Iteration(IterationRef { iteration_id: "it-1".to_owned() });
    match build_publication(record(WorkOutboxEventKind::IterationChanged, source), truth).unwrap() {
        WorkOutboundPublication::IterationChanged(envelope) => {
            assert_eq!(envelope.payload.iteration_ref.iteration_id, "it-1");
            assert_eq!(envelope.payload.commitment_state, None);
            assert!(envelope.payload.affected_work_refs.is_empty());
        }
        other => panic!("unexpected publication {:?}", other),
    }
}
