use work_application::contracts::{ApplicationResultRef, ProjectRef};
use work_application::errors::ApplicationError;
use work_application::idempotency::{IdempotencyRecord, IdempotencyReservation, RequestDigest};
use work_application::ops::{
    archive_report_counts, load_archive_scope_summaries, load_refresh_refs, project_ref_from_scope,
    refresh_marks_stale, tally_trace_handoffs, ArchiveHandoffScope, ArchiveHandoffScopeKind,
    ArchiveSummarySource, ExternalReferenceScope, ExternalReferenceScopeKind, RefreshSource,
    WorkReconciliationScopeKind, WorkReconciliationScopeRef,
};
use work_application::outbox::{PublicationMark, PublishOneOutcome, WorkJobFailureRef, WorkOutboxPublishService};
use work_application::paging::paginate_items;
use work_application::ports::{PageRequest, PortError, RepositoryError, UnitOfWorkError};
use work_application::references::{current_cursor, reference_sort_key, stable_dedup_reference_refs, ExternalReferenceRef};
use work_application::text::{is_blank, parse_usize, text_less, u64_to_decimal};
use work_application::transaction::{
    start_finish, start_reservation, step_finish, step_reservation, FinishAction, FinishEvent,
    FinishPhase, FinishStyle, ReserveAction, ReserveEvent, ReservePhase, ReservationStyle,
};

type Publisher = WorkOutboxPublishService<(), (), (), (), (), (), (), (), (), (), (), (), (), (), ()>;

#[test]
fn decimal_round_trip() {
    assert_eq!(u64_to_decimal(0), "0");
    assert_eq!(u64_to_decimal(1234567890), "1234567890");
    assert_eq!(parse_usize("42"), Some(42));
    assert_eq!(parse_usize("+7"), Some(7));
    assert_eq!(parse_usize("4x"), None);
    assert_eq!(parse_usize(""), None);
}

#[test]
fn blank_text_is_whitespace_only() {
    assert!(is_blank(""));
    assert!(is_blank(" \t\n\u{3000}"));
    assert!(!is_blank(" a "));
    assert!(text_less("abc", "abd"));
    assert!(text_less("ab", "abc"));
    assert!(!text_less("b", "abc"));
}

#[test]
fn page_cut_and_next_token() {
    let items: Vec<u32> = (0..7).collect();
    let first = paginate_items(items.clone(), PageRequest { limit: 3, page_token: None });
    assert_eq!(first.items, vec![0, 1, 2]);
    assert!(first.page_info.has_more);
    assert_eq!(first.page_info.next_page_token, Some("3".to_owned()));
    let last = paginate_items(items.clone(), PageRequest { limit: 3, page_token: Some("6".to_owned()) });
    assert_eq!(last.items, vec![6]);
    assert!(!last.page_info.has_more);
    assert_eq!(last.page_info.next_page_token, None);
    let past = paginate_items(items.clone(), PageRequest { limit: 3, page_token: Some("9".to_owned()) });
    assert!(past.items.is_empty());
    let zero = paginate_items(items, PageRequest { limit: 0, page_token: Some("junk".to_owned()) });
    assert_eq!(zero.items, vec![0]);
}

#[test]
fn reference_keys_dedup_and_cursor() {
    let refs = vec![
        ExternalReferenceRef::ProcessTimebox("t".to_owned()),
        ExternalReferenceRef::Member("m".to_owned()),
        ExternalReferenceRef::SourceWork { source_kind: 1, external_id: "s".to_owned() },
        ExternalReferenceRef::Member("m".to_owned()),
    ];
    assert_eq!(reference_sort_key(&refs[2]), "2:1:s");
    let deduped = stable_dedup_reference_refs(refs.clone());
    let keys: Vec<String> = deduped.iter().map(reference_sort_key).collect();
    assert_eq!(keys, vec!["4:t".to_owned(), "0:m".to_owned(), "2:1:s".to_owned()]);
    assert_eq!(current_cursor(&deduped), "0:m|2:1:s|4:t");
    let reordered = vec![deduped[2].clone(), deduped[0].clone(), deduped[1].clone()];
    assert_eq!(current_cursor(&reordered), current_cursor(&deduped));
}

#[test]
fn explicit_refresh_scope_is_deduplicated_and_paged() {
    let scope = ExternalReferenceScope {
        scope_kind: ExternalReferenceScopeKind::ExplicitRefs,
        project_ref: None,
        reference_refs: vec![
            ExternalReferenceRef::Member("a".to_owned()),
            ExternalReferenceRef::Member("a".to_owned()),
            ExternalReferenceRef::Member("b".to_owned()),
        ],
    };
    match load_refresh_refs(Some(scope), PageRequest { limit: 1, page_token: None }).unwrap() {
        RefreshSource::Explicit(page) => {
            assert_eq!(page.items.len(), 1);
            assert!(page.page_info.has_more);
        }
        _ => panic!("expected an explicit page"),
    }
    let bad = ExternalReferenceScope {
        scope_kind: ExternalReferenceScopeKind::StaleOnly,
        project_ref: Some(ProjectRef { project_id: "p".to_owned() }),
        reference_refs: vec![],
    };
    assert!(matches!(load_refresh_refs(Some(bad), PageRequest { limit: 1, page_token: None }), Err(ApplicationError::InvalidRequest)));
    assert!(matches!(load_refresh_refs(None, PageRequest { limit: 1, page_token: None }), Ok(RefreshSource::StaleReferences)));
    assert!(refresh_marks_stale(1, 2));
    assert!(!refresh_marks_stale(0, 2));
}

#[test]
fn archive_scope_shapes() {
    let project_scope = ArchiveHandoffScope {
        scope_kind: ArchiveHandoffScopeKind::ProjectCursor,
        project_ref: Some(ProjectRef { project_id: "p".to_owned() }),
        subject_refs: vec![],
        source_cursor: None,
    };
    assert!(matches!(load_archive_scope_summaries(project_scope.clone()), Err(ApplicationError::InvalidRequest)));
    let with_cursor = ArchiveHandoffScope { source_cursor: Some("c".to_owned()), ..project_scope };
    assert!(matches!(load_archive_scope_summaries(with_cursor), Ok(ArchiveSummarySource::Project { .. })));
    assert_eq!(archive_report_counts(5, true), (5, 1, 0));
    assert_eq!(archive_report_counts(5, false), (5, 0, 1));
}

#[test]
fn trace_handoff_tally_partitions_records() {
    assert_eq!(tally_trace_handoffs(&vec![true, false, true, true]), (3, 1));
}

#[test]
fn reconciliation_project_from_board_view() {
    let scope = WorkReconciliationScopeRef {
        scope_kind: WorkReconciliationScopeKind::All,
        project_ref: None,
        view_ref: None,
    };
    assert!(matches!(project_ref_from_scope(&scope), Err(ApplicationError::InvalidRequest)));
}

#[test]
fn publication_marks_and_tally() {
    assert!(matches!(Publisher::after_publish(Ok("pub-1".to_owned())), PublicationMark::Published(r) if r == "pub-1"));
    match Publisher::after_publish(Err(PortError::Unavailable)) {
        PublicationMark::Failed(reason) => assert_eq!(reason.message, "Unavailable"),
        _ => panic!("expected a failed mark"),
    }
    let conflict = Publisher::mark_outcome(PublishOneOutcome::Published, Err(RepositoryError::VersionConflict), Ok(()));
    assert_eq!(conflict.unwrap(), PublishOneOutcome::AlreadyHandled);
    let outcomes = vec![
        ("o-1".to_owned(), PublishOneOutcome::Published),
        ("o-2".to_owned(), PublishOneOutcome::Failed),
        ("o-3".to_owned(), PublishOneOutcome::AlreadyHandled),
    ];
    let (changed, failed) = Publisher::tally_page(&outcomes);
    assert_eq!(changed, 2);
    let ids: Vec<String> = failed
        .iter()
        .map(|f| match f {
            WorkJobFailureRef::WorkOutbox(id) => id.clone(),
            _ => String::new(),
        })
        .collect();
    assert_eq!(ids, vec!["o-2".to_owned(), "o-3".to_owned()]);
}

#[test]
fn duplicate_command_never_runs_its_body() {
    let (phase, action) = start_reservation::<u8>(ReservationStyle::CheckThenBegin, true);
    assert!(matches!(action, ReserveAction::BeginUnitOfWork));
    let (phase, action) = step_reservation(ReservationStyle::CheckThenBegin, phase, ReserveEvent::Begun(Ok(())));
    assert!(matches!(action, ReserveAction::Reserve));
    let duplicate = IdempotencyReservation::Duplicate(ApplicationResultRef::for_operation("op".to_owned(), "r".to_owned()));
    let (phase, action) = step_reservation(ReservationStyle::CheckThenBegin, phase, ReserveEvent::Reservation(Ok(duplicate)));
    assert!(matches!(action, ReserveAction::Rollback));
    let (phase, action) = step_reservation(ReservationStyle::CheckThenBegin, phase, ReserveEvent::RolledBack(Ok(())));
    assert!(matches!(action, ReserveAction::LoadStoredResult(_)));
    let (phase, _) = step_reservation(ReservationStyle::CheckThenBegin, phase, ReserveEvent::StoredResult(Ok(Some(9u8))));
    assert!(matches!(phase, ReservePhase::Replayed(9)));
}

#[test]
fn job_without_identity_fails_inside_its_transaction() {
    let (phase, _) = start_reservation::<u8>(ReservationStyle::BeginThenCheck, false);
    let (phase, action) = step_reservation(ReservationStyle::BeginThenCheck, phase, ReserveEvent::Begun(Ok(())));
    assert!(matches!(action, ReserveAction::CheckIdentity));
    let (phase, _) = step_reservation(ReservationStyle::BeginThenCheck, phase, ReserveEvent::IdentityChecked(false));
    assert!(matches!(phase, ReservePhase::Failed(ApplicationError::InvalidRequest)));
    let (missing, _) = start_reservation::<u8>(ReservationStyle::CheckThenBegin, false);
    assert!(matches!(missing, ReservePhase::Failed(ApplicationError::InvalidRequest)));
    let record = IdempotencyRecord::reserved("k".to_owned(), "op".to_owned(), RequestDigest("d".to_owned()));
    let (phase, _) = start_reservation::<u8>(ReservationStyle::CheckThenBegin, true);
    let (phase, _) = step_reservation(ReservationStyle::CheckThenBegin, phase, ReserveEvent::Begun(Ok(())));
    let (phase, action) = step_reservation(ReservationStyle::CheckThenBegin, phase, ReserveEvent::Reservation(Ok(IdempotencyReservation::Reserved(record))));
    assert!(matches!(phase, ReservePhase::Reserved(_)));
    assert!(matches!(action, ReserveAction::Proceed));
}

#[test]
fn finishing_commits_after_save_and_completion() {
    let (phase, action) = start_finish();
    assert!(matches!(action, FinishAction::SaveResult));
    let (phase, _) = step_finish(FinishStyle::RollBackFirst, phase, FinishEvent::Saved(Ok(())));
    let (phase, action) = step_finish(FinishStyle::RollBackFirst, phase, FinishEvent::Completed(Ok(())));
    assert!(matches!(action, FinishAction::Commit));
    let (phase, _) = step_finish(FinishStyle::RollBackFirst, phase, FinishEvent::CommitReturned(Err(UnitOfWorkError::CommitFailed)));
    assert!(matches!(phase, FinishPhase::Failed(ApplicationError::CommitStatusUnknown)));
    let (phase, _) = start_finish();
    let (phase, action) = step_finish(FinishStyle::RollBackFirst, phase, FinishEvent::Saved(Err(RepositoryError::VersionConflict)));
    assert!(matches!(action, FinishAction::Rollback));
    let (phase, _) = step_finish(FinishStyle::RollBackFirst, phase, FinishEvent::RolledBack(Ok(())));
    assert!(matches!(phase, FinishPhase::Failed(ApplicationError::VersionConflict)));
}
