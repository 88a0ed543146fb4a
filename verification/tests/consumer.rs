use work_application::consumer::{
    inbound_dedup_key, truth_cursor_from_event, ConsumerDisposition, EvidenceReferenceChange,
    GovernanceResolutions, InboundReservationStep, InboundSourceRef, ReferenceEvent, RuntimePromoteRoute,
    WorkInboundConsumerService, WorkInboundEventEnvelope, AFFECTED_VIEWS_PAGE_LIMIT,
};
use work_application::contracts::{ApplicationResultRef, EvidenceVerifiedState};
use work_application::idempotency::{
    IdempotencyConflict, IdempotencyRecord, IdempotencyReservation, RequestDigest,
};
use work_application::inbound::InboundStep;
use work_application::ports::{IdempotencyError, PortError, UnitOfWorkError};

type Consumer = WorkInboundConsumerService<(), (), (), (), (), (), ()>;

fn envelope() -> WorkInboundEventEnvelope<()> {
    WorkInboundEventEnvelope {
        source_event_id: "evt-1".to_owned(),
        source_ref: InboundSourceRef { source_system: 3, external_id: "ext-9".to_owned() },
        event_version: "v1".to_owned(),
        occurred_at: "2024-01-01T00:00:00Z".to_owned(),
        payload: (),
    }
}

#[test]
fn only_v1_events_of_v1_topics_are_processed() {
    assert!(Consumer::validate_event_version("v1", "identity.member.changed.v1"));
    assert!(!Consumer::validate_event_version("v2", "identity.member.changed.v1"));
    assert!(!Consumer::validate_event_version("v1", "identity.member.changed.v2"));
    assert!(!Consumer::validate_event_version("v1", "v1"));
}

#[test]
fn dedup_key_and_cursor_name_the_delivery() {
    assert_eq!(inbound_dedup_key(&envelope(), "method.definition.changed.v1"), "method.definition.changed.v1:evt-1:3:ext-9");
    assert_eq!(truth_cursor_from_event("identity.member.changed.v1", &envelope()), "identity.member.changed.v1:ext-9:evt-1");
}

#[test]
fn affected_page_reads_one_hundred_views() {
    let page = Consumer::affected_page();
    assert_eq!(page.limit, AFFECTED_VIEWS_PAGE_LIMIT);
    assert_eq!(page.limit, 100);
}

#[test]
fn identity_event_needs_member_and_capability() {
    assert!(!Consumer::identity_event_valid("member-1", &vec![]));
    assert!(!Consumer::identity_event_valid("   ", &vec!["cap".to_owned()]));
    assert!(Consumer::identity_event_valid("member-1", &vec!["cap".to_owned()]));
}

#[test]
fn member_change_without_affected_views_writes_only_a_marker() {
    assert_eq!(Consumer::identity_disposition(2, 3), ConsumerDisposition::Ack);
    assert_eq!(Consumer::identity_disposition(2, 0), ConsumerDisposition::AckWithMarker);
    assert_eq!(Consumer::identity_disposition(0, 3), ConsumerDisposition::AckWithMarker);
    assert_eq!(Consumer::method_disposition(0), ConsumerDisposition::AckWithMarker);
    assert_eq!(Consumer::method_disposition(1), ConsumerDisposition::Ack);
}

fn record() -> IdempotencyRecord {
    IdempotencyRecord::reserved("k".to_owned(), "op".to_owned(), RequestDigest("d".to_owned()))
}

#[test]
fn duplicate_event_is_acknowledged_without_processing() {
    let duplicate = IdempotencyReservation::Duplicate(ApplicationResultRef::for_operation("op".to_owned(), "evt-1".to_owned()));
    assert!(matches!(Consumer::reserve_inbound(Ok(duplicate)), InboundReservationStep::Stop(ConsumerDisposition::AckDuplicate)));
    assert!(matches!(Consumer::reserve_inbound(Ok(IdempotencyReservation::Reserved(record()))), InboundReservationStep::Proceed(_)));
    let conflict = IdempotencyConflict {
        idempotency_key: "k".to_owned(),
        operation: "op".to_owned(),
        existing_digest: RequestDigest("a".to_owned()),
        incoming_digest: RequestDigest("b".to_owned()),
    };
    assert!(matches!(Consumer::reserve_inbound(Ok(IdempotencyReservation::Conflict(conflict))), InboundReservationStep::MarkConflict(_)));
    assert!(matches!(Consumer::reserve_inbound(Err(IdempotencyError::AlreadyReserved)), InboundReservationStep::Stop(ConsumerDisposition::Retry)));
    assert!(matches!(Consumer::reserve_inbound(Err(IdempotencyError::Conflict)), InboundReservationStep::Stop(ConsumerDisposition::DeadLetter)));
}

#[test]
fn failed_completion_or_commit_is_retried() {
    assert_eq!(Consumer::complete_inbound(Ok(()), Ok(()), ConsumerDisposition::Ack), ConsumerDisposition::Ack);
    assert_eq!(Consumer::complete_inbound(Err(IdempotencyError::StoreUnavailable), Ok(()), ConsumerDisposition::Ack), ConsumerDisposition::Retry);
    assert_eq!(Consumer::complete_inbound(Ok(()), Err(UnitOfWorkError::CommitFailed), ConsumerDisposition::AckWithMarker), ConsumerDisposition::Retry);
    assert_eq!(Consumer::after_begin(Err(UnitOfWorkError::BeginFailed)), Some(ConsumerDisposition::Retry));
    assert_eq!(Consumer::after_digest::<u8, u8>(&Err(0)), Some(ConsumerDisposition::DeadLetter));
    assert_eq!(Consumer::after_write::<u8>(&Err(1)), Some(ConsumerDisposition::Retry));
    assert_eq!(Consumer::after_domain::<(), u8>(&Err(1)), Some(ConsumerDisposition::DeadLetter));
    assert_eq!(Consumer::rollback_disposition(Err(UnitOfWorkError::RollbackFailed), ConsumerDisposition::DeadLetter), ConsumerDisposition::DeadLetter);
}

#[test]
fn runtime_promote_routes_by_source_lookup() {
    assert_eq!(Consumer::runtime_promote_route(Ok(false)), RuntimePromoteRoute::RecordIntake);
    assert_eq!(Consumer::runtime_promote_route(Ok(true)), RuntimePromoteRoute::Stop(ConsumerDisposition::DeadLetter));
    assert_eq!(Consumer::runtime_promote_route(Err(PortError::Unavailable)), RuntimePromoteRoute::Stop(ConsumerDisposition::Retry));
    assert_eq!(Consumer::runtime_promote_route(Err(PortError::NotFound)), RuntimePromoteRoute::RecordUnresolved);
    assert_eq!(Consumer::runtime_promote_route(Err(PortError::Rejected)), RuntimePromoteRoute::RecordUnresolved);
    assert_eq!(Consumer::runtime_promote_route(Err(PortError::InvalidResponse)), RuntimePromoteRoute::Stop(ConsumerDisposition::DeadLetter));
}

#[test]
fn runtime_promote_requested_writes_pending_intake_without_work_truth() {
    let route = Consumer::runtime_promote_route(Ok(false));
    let steps = Consumer::runtime_promote_steps(route);
    assert_eq!(steps.len(), 4);
    assert!(steps.iter().all(|(step, _)| *step != InboundStep::MarkStale));
    assert_eq!(steps[3].0, InboundStep::SavePendingIntake);
    let answer = Consumer::runtime_promote_disposition(Ok(false));
    assert_eq!(answer, ConsumerDisposition::AckWithMarker);
    let reserved = Consumer::reserve_inbound(Ok(IdempotencyReservation::Reserved(record())));
    assert_eq!(
        Consumer::delivery_disposition(None, reserved, Ok(answer), Ok(()), Ok(())),
        ConsumerDisposition::AckWithMarker
    );
}

#[test]
fn runtime_promote_requested_unresolved_source_saves_marker_and_dedups() {
    let route = Consumer::runtime_promote_route(Err(PortError::NotFound));
    let steps = Consumer::runtime_promote_steps(route);
    assert_eq!(steps, vec![(InboundStep::SaveUnresolvedReference, ConsumerDisposition::Retry)]);
    let answer = Consumer::runtime_promote_disposition(Err(PortError::NotFound));
    let first = Consumer::reserve_inbound(Ok(IdempotencyReservation::Reserved(record())));
    assert_eq!(Consumer::delivery_disposition(None, first, Ok(answer), Ok(()), Ok(())), ConsumerDisposition::AckWithMarker);
    let second = Consumer::reserve_inbound(Ok(IdempotencyReservation::Duplicate(ApplicationResultRef::for_operation(
        "consume_runtime_promote_requested".to_owned(),
        "evt-1".to_owned(),
    ))));
    assert_eq!(Consumer::delivery_disposition(None, second, Ok(answer), Ok(()), Ok(())), ConsumerDisposition::AckDuplicate);
}

#[test]
fn runtime_promote_requested_with_blank_source_dead_letters_before_reservation() {
    assert_eq!(Consumer::screen_runtime_promote_requested("v1", "  "), Some(ConsumerDisposition::DeadLetter));
    assert_eq!(Consumer::screen_runtime_promote_requested("v2", "src-1"), Some(ConsumerDisposition::DeadLetter));
    assert_eq!(Consumer::screen_runtime_promote_requested("v1", "src-1"), None);
    let screened = Consumer::screen_runtime_promote_requested("v1", "");
    let reserved = Consumer::reserve_inbound(Ok(IdempotencyReservation::Reserved(record())));
    assert_eq!(
        Consumer::delivery_disposition(screened, reserved, Ok(ConsumerDisposition::AckWithMarker), Ok(()), Ok(())),
        ConsumerDisposition::DeadLetter
    );
    assert_eq!(Consumer::runtime_promote_steps(Consumer::runtime_promote_route(Ok(true))).len(), 0);
}

#[test]
fn missing_capability_dead_letters_before_write() {
    assert_eq!(Consumer::screen_identity_member_changed("v1", "member-1", &vec![]), Some(ConsumerDisposition::DeadLetter));
    assert_eq!(Consumer::screen_identity_member_changed("v1", "member-1", &vec!["cap".to_owned()]), None);
    assert_eq!(Consumer::screen_method_definition_changed("v1", " "), Some(ConsumerDisposition::DeadLetter));
    assert_eq!(Consumer::screen_conversation_work_context_changed("v1", "src"), None);
    assert_eq!(Consumer::screen_process_timing_changed("v0", "tb"), Some(ConsumerDisposition::DeadLetter));
    assert_eq!(Consumer::screen_governance_decision_changed("v1", " ", true), None);
    assert_eq!(Consumer::screen_governance_decision_changed("v1", " ", false), Some(ConsumerDisposition::DeadLetter));
    assert_eq!(Consumer::screen_artifact_evidence_changed("v1", ""), Some(ConsumerDisposition::DeadLetter));
}

#[test]
fn member_change_marks_views_stale_exactly_when_acknowledged_as_change() {
    let (steps, disposition) = Consumer::identity_follow_up(1, 2);
    assert_eq!(disposition, ConsumerDisposition::Ack);
    assert_eq!(steps, vec![(InboundStep::MarkStale, ConsumerDisposition::Retry)]);
    let (steps, disposition) = Consumer::identity_follow_up(1, 0);
    assert_eq!(disposition, ConsumerDisposition::AckWithMarker);
    assert!(steps.is_empty());
    let (steps, disposition) = Consumer::method_follow_up(0);
    assert_eq!((steps.len(), disposition), (0, ConsumerDisposition::AckWithMarker));
    let (steps, disposition) = Consumer::method_follow_up(4);
    assert_eq!((steps.len(), disposition), (1, ConsumerDisposition::Ack));
}

#[test]
fn delivery_stops_where_a_stage_stops() {
    let reserved = || Consumer::reserve_inbound(Ok(IdempotencyReservation::Reserved(record())));
    assert_eq!(
        Consumer::delivery_disposition(None, reserved(), Err(ConsumerDisposition::Retry), Ok(()), Ok(())),
        ConsumerDisposition::Retry
    );
    assert_eq!(
        Consumer::delivery_disposition(None, reserved(), Ok(ConsumerDisposition::Ack), Err(IdempotencyError::StoreUnavailable), Ok(())),
        ConsumerDisposition::Retry
    );
    assert_eq!(
        Consumer::delivery_disposition(None, Consumer::reserve_inbound(Err(IdempotencyError::Conflict)), Ok(ConsumerDisposition::Ack), Ok(()), Ok(())),
        ConsumerDisposition::DeadLetter
    );
}

#[test]
fn governance_decision_needs_source_or_evidence() {
    assert_eq!(Consumer::governance_resolutions(" ", false), None);
    assert_eq!(
        Consumer::governance_resolutions(" ", true),
        Some(GovernanceResolutions { resolve_source: false, resolve_evidence: true })
    );
    assert_eq!(
        Consumer::governance_resolutions("src", false),
        Some(GovernanceResolutions { resolve_source: true, resolve_evidence: false })
    );
}

#[test]
fn evidence_state_decides_reference_change() {
    assert_eq!(Consumer::evidence_reference_change(EvidenceVerifiedState::Verified), EvidenceReferenceChange::Resolve);
    assert_eq!(Consumer::evidence_reference_change(EvidenceVerifiedState::Rejected), EvidenceReferenceChange::MarkStale);
    assert_eq!(Consumer::evidence_reference_change(EvidenceVerifiedState::Unverified), EvidenceReferenceChange::Keep);
}

#[test]
fn conversation_resolves_on_matching_digest() {
    assert!(Consumer::conversation_resolves("sha:1", "sha:1"));
    assert!(!Consumer::conversation_resolves("sha:1", "sha:2"));
}

#[test]
fn reference_events_are_acknowledged_with_a_marker() {
    for event in [
        ReferenceEvent::ConversationWorkContextChanged,
        ReferenceEvent::ProcessTimingChanged,
        ReferenceEvent::GovernanceDecisionChanged,
        ReferenceEvent::ArtifactEvidenceChanged,
    ] {
        assert_eq!(Consumer::reference_event_disposition(event), ConsumerDisposition::AckWithMarker);
    }
}
