use work_application::consumer::{ConsumerDisposition, EvidenceReferenceChange};
use work_application::inbound::{
    artifact_evidence_changed_steps, conversation_work_context_changed_steps,
    governance_decision_changed_steps, identity_member_changed_steps, runtime_promote_requested_steps,
    start_inbound, step_failures, step_inbound, InboundAction, InboundEvent, InboundPhase, InboundStep,
};

#[test]
fn member_change_resolves_before_writing() {
    let steps = identity_member_changed_steps();
    assert_eq!(steps[0], (InboundStep::ResolveReference, ConsumerDisposition::DeadLetter));
    assert_eq!(steps[2], (InboundStep::SaveReferenceState, ConsumerDisposition::Retry));
    assert_eq!(steps.len(), 6);
}

#[test]
fn content_failures_dead_letter_and_write_failures_retry() {
    let failures = step_failures(&runtime_promote_requested_steps());
    assert_eq!(
        failures,
        vec![
            ConsumerDisposition::DeadLetter,
            ConsumerDisposition::DeadLetter,
            ConsumerDisposition::Retry,
            ConsumerDisposition::Retry,
        ]
    );
}

#[test]
fn branches_of_reference_events() {
    assert_eq!(conversation_work_context_changed_steps(false).len(), 1);
    assert_eq!(conversation_work_context_changed_steps(true)[0].0, InboundStep::ResolveReference);
    assert!(governance_decision_changed_steps(false, false).is_empty());
    assert_eq!(governance_decision_changed_steps(true, true).len(), 2);
    assert_eq!(artifact_evidence_changed_steps(EvidenceReferenceChange::MarkStale)[0].0, InboundStep::MarkReferenceStale);
    assert_eq!(artifact_evidence_changed_steps(EvidenceReferenceChange::Keep).len(), 1);
}

#[test]
fn failed_step_ends_event_with_its_disposition() {
    let failures = step_failures(&identity_member_changed_steps());
    let (phase, action) = start_inbound(&failures);
    assert_eq!(action, InboundAction::Run(0));
    let (phase, _) = step_inbound(&failures, phase, InboundEvent::StepSucceeded);
    let (phase, _) = step_inbound(&failures, phase, InboundEvent::StepSucceeded);
    let (phase, action) = step_inbound(&failures, phase, InboundEvent::StepFailed);
    assert_eq!(action, InboundAction::Rollback);
    let (phase, _) = step_inbound(&failures, phase, InboundEvent::RolledBack);
    assert_eq!(phase, InboundPhase::Ended(ConsumerDisposition::Retry));
    let empty = step_failures(&governance_decision_changed_steps(false, false));
    assert_eq!(start_inbound(&empty), (InboundPhase::Processed, InboundAction::Complete));
}
