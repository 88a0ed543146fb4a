//! The steps an inbound event runs once it is reserved, and the disposition each failed
//! step ends the event with; every failed step rolls the transaction back first.

use vstd::prelude::*;

use crate::consumer::{ConsumerDisposition, EvidenceReferenceChange};

verus! {

/// One awaited call (or domain check) of an inbound event.
#[derive(Clone, Copy, Debug, PartialEq, Eq, Structural)]
pub enum InboundStep {
    ResolveReference,
    BuildMemberSnapshot,
    SaveReferenceState,
    SaveMemberSnapshot,
    ListAffectedMembers,
    ListAffectedViews,
    BuildMethodSnapshot,
    SaveMethodSnapshot,
    SaveResolvedSource,
    SaveResolvedEvidence,
    MarkReferenceStale,
    BuildPendingIntake,
    SavePendingIntake,
    SaveUnresolvedReference,
    MarkStale,
}

/// Where a reserved inbound event stands.
#[derive(Clone, Copy, Debug, PartialEq, Eq, Structural)]
pub enum InboundPhase {
    /// Waiting for the reply of the step with this index.
    Step(usize),
    /// A step failed: waiting for the rollback, then the event ends with this disposition.
    AwaitRollback(ConsumerDisposition),
    /// Every step succeeded: the event can be completed.
    Processed,
    /// The event ended with this disposition.
    Ended(ConsumerDisposition),
}

/// The next call for a reserved inbound event.
#[derive(Clone, Copy, Debug, PartialEq, Eq, Structural)]
pub enum InboundAction {
    Run(usize),
    Rollback,
    Complete,
    Stop,
}

/// What the last call returned.
#[derive(Clone, Copy, Debug, PartialEq, Eq, Structural)]
pub enum InboundEvent {
    StepSucceeded,
    StepFailed,
    RolledBack,
}

/// One transition of a reserved event whose steps fail with `failures`.
pub open spec fn inbound_next(failures: Seq<ConsumerDisposition>, phase: InboundPhase, event: InboundEvent) -> (InboundPhase, InboundAction) {
    match (phase, event) {
        (InboundPhase::Step(i), InboundEvent::StepSucceeded) => if i + 1 < failures.len() {
            (InboundPhase::Step((i + 1) as usize), InboundAction::Run((i + 1) as usize))
        } else {
            (InboundPhase::Processed, InboundAction::Complete)
        },
        (InboundPhase::Step(i), InboundEvent::StepFailed) => if i < failures.len() {
            (InboundPhase::AwaitRollback(failures[i as int]), InboundAction::Rollback)
        } else {
            (InboundPhase::Ended(ConsumerDisposition::Retry), InboundAction::Stop)
        },
        (InboundPhase::AwaitRollback(disposition), InboundEvent::RolledBack) => (InboundPhase::Ended(disposition), InboundAction::Stop),
        (phase, _) => (phase, InboundAction::Stop),
    }
}

/// The start of a reserved event with `steps` steps.
pub open spec fn inbound_start(steps: nat) -> (InboundPhase, InboundAction) {
    if steps == 0 {
        (InboundPhase::Processed, InboundAction::Complete)
    } else {
        (InboundPhase::Step(0), InboundAction::Run(0))
    }
}

/// The dispositions of failed steps, in order.
pub open spec fn failures_of(steps: Seq<(InboundStep, ConsumerDisposition)>) -> Seq<ConsumerDisposition> {
    steps.map_values(|s: (InboundStep, ConsumerDisposition)| s.1)
}

/// The dispositions of failed steps, in order.
pub fn step_failures(steps: &Vec<(InboundStep, ConsumerDisposition)>) -> (r: Vec<ConsumerDisposition>)
    ensures
        r@ == failures_of(steps@),
{
    let mut failures: Vec<ConsumerDisposition> = Vec::new();
    let mut i: usize = 0;
    while i < steps.len()
        invariant
            i <= steps@.len(),
            failures@ == failures_of(steps@.take(i as int)),
        decreases steps.len() - i,
    {
        failures.push(steps[i].1);
        proof {
            assert(steps@.take(i + 1) =~= steps@.take(i as int).push(steps@[i as int]));
            assert(failures@ =~= failures_of(steps@.take(i + 1)));
        }
        i = i + 1;
    }
    proof {
        assert(steps@.take(steps@.len() as int) =~= steps@);
    }
    failures
}

/// Starts a reserved event.
pub fn start_inbound(failures: &Vec<ConsumerDisposition>) -> (r: (InboundPhase, InboundAction))
    ensures
        r == inbound_start(failures@.len()),
{
    if failures.len() == 0 {
        (InboundPhase::Processed, InboundAction::Complete)
    } else {
        (InboundPhase::Step(0), InboundAction::Run(0))
    }
}

/// Advances a reserved event by what the last call returned.
pub fn step_inbound(failures: &Vec<ConsumerDisposition>, phase: InboundPhase, event: InboundEvent) -> (r: (InboundPhase, InboundAction))
    ensures
        r == inbound_next(failures@, phase, event),
{
    match (phase, event) {
        (InboundPhase::Step(i), InboundEvent::StepSucceeded) => {
            if i < failures.len() && i + 1 < failures.len() {
                (InboundPhase::Step(i + 1), InboundAction::Run(i + 1))
            } else {
                (InboundPhase::Processed, InboundAction::Complete)
            }
        },
        (InboundPhase::Step(i), InboundEvent::StepFailed) => {
            if i < failures.len() {
                (InboundPhase::AwaitRollback(failures[i]), InboundAction::Rollback)
            } else {
                (InboundPhase::Ended(ConsumerDisposition::Retry), InboundAction::Stop)
            }
        },
        (InboundPhase::AwaitRollback(disposition), InboundEvent::RolledBack) => (InboundPhase::Ended(disposition), InboundAction::Stop),
        (phase, _) => (phase, InboundAction::Stop),
    }
}

/// A failed step ends the event with that step's disposition once it is rolled back, and
/// never lets it be completed.
pub proof fn lemma_failed_step_ends_with_its_disposition(failures: Seq<ConsumerDisposition>, i: usize)
    requires
        i < failures.len(),
    ensures
        inbound_next(failures, InboundPhase::Step(i), InboundEvent::StepFailed)
            == (InboundPhase::AwaitRollback(failures[i as int]), InboundAction::Rollback),
        inbound_next(failures, InboundPhase::AwaitRollback(failures[i as int]), InboundEvent::RolledBack)
            == (InboundPhase::Ended(failures[i as int]), InboundAction::Stop),
        forall|event: InboundEvent| #[trigger] inbound_next(failures, InboundPhase::Ended(failures[i as int]), event).0
            == InboundPhase::Ended(failures[i as int]),
{
}

/// The phase reached after `k` successful steps.
pub open spec fn after_successes(failures: Seq<ConsumerDisposition>, phase: InboundPhase, k: nat) -> InboundPhase
    decreases k,
{
    if k == 0 {
        phase
    } else {
        after_successes(failures, inbound_next(failures, phase, InboundEvent::StepSucceeded).0, (k - 1) as nat)
    }
}

/// When every step succeeds, a reserved event is processed and ready to be completed:
/// from any step, the remaining successes reach `Processed`.
pub proof fn lemma_successful_steps_process_event(failures: Seq<ConsumerDisposition>, i: usize)
    requires
        i < failures.len(),
        failures.len() <= usize::MAX,
    ensures
        after_successes(failures, InboundPhase::Step(i), (failures.len() - i) as nat) == InboundPhase::Processed,
    decreases failures.len() - i,
{
    if i + 1 < failures.len() {
        lemma_successful_steps_process_event(failures, (i + 1) as usize);
        assert(inbound_next(failures, InboundPhase::Step(i), InboundEvent::StepSucceeded).0 == InboundPhase::Step((i + 1) as usize));
    } else {
        assert(inbound_next(failures, InboundPhase::Step(i), InboundEvent::StepSucceeded).0 == InboundPhase::Processed);
        assert(after_successes(failures, InboundPhase::Processed, 0) == InboundPhase::Processed);
    }
}

/// A write that fails is retried, a refused content is dead-lettered: every step of an
/// event fails with one of the two.
pub open spec fn failure_dispositions_valid(steps: Seq<(InboundStep, ConsumerDisposition)>) -> bool {
    forall|k: int| 0 <= k < steps.len() ==> (#[trigger] steps[k]).1 == ConsumerDisposition::Retry || steps[k].1 == ConsumerDisposition::DeadLetter
}

/// A member change: resolve the member reference, cache the capability snapshot, then read the responsibilities and views it affects.
pub open spec fn identity_member_changed_plan() -> Seq<(InboundStep, ConsumerDisposition)> {
    seq![(InboundStep::ResolveReference, ConsumerDisposition::DeadLetter), (InboundStep::BuildMemberSnapshot, ConsumerDisposition::DeadLetter), (InboundStep::SaveReferenceState, ConsumerDisposition::Retry), (InboundStep::SaveMemberSnapshot, ConsumerDisposition::Retry), (InboundStep::ListAffectedMembers, ConsumerDisposition::Retry), (InboundStep::ListAffectedViews, ConsumerDisposition::Retry)]
}

/// The steps of identity member changed.
pub fn identity_member_changed_steps() -> (r: Vec<(InboundStep, ConsumerDisposition)>)
    ensures
        r@ == identity_member_changed_plan(),
        failure_dispositions_valid(r@),
{
    let mut steps: Vec<(InboundStep, ConsumerDisposition)> = Vec::new();
    steps.push((InboundStep::ResolveReference, ConsumerDisposition::DeadLetter));
    steps.push((InboundStep::BuildMemberSnapshot, ConsumerDisposition::DeadLetter));
    steps.push((InboundStep::SaveReferenceState, ConsumerDisposition::Retry));
    steps.push((InboundStep::SaveMemberSnapshot, ConsumerDisposition::Retry));
    steps.push((InboundStep::ListAffectedMembers, ConsumerDisposition::Retry));
    steps.push((InboundStep::ListAffectedViews, ConsumerDisposition::Retry));
    proof {
        assert(steps@ =~= seq![(InboundStep::ResolveReference, ConsumerDisposition::DeadLetter), (InboundStep::BuildMemberSnapshot, ConsumerDisposition::DeadLetter), (InboundStep::SaveReferenceState, ConsumerDisposition::Retry), (InboundStep::SaveMemberSnapshot, ConsumerDisposition::Retry), (InboundStep::ListAffectedMembers, ConsumerDisposition::Retry), (InboundStep::ListAffectedViews, ConsumerDisposition::Retry)]);
    }
    steps
}

/// A method definition change: cache the definition snapshot, resolve its reference, then read the views it affects.
pub open spec fn method_definition_changed_plan() -> Seq<(InboundStep, ConsumerDisposition)> {
    seq![(InboundStep::BuildMethodSnapshot, ConsumerDisposition::DeadLetter), (InboundStep::ResolveReference, ConsumerDisposition::DeadLetter), (InboundStep::SaveMethodSnapshot, ConsumerDisposition::Retry), (InboundStep::SaveReferenceState, ConsumerDisposition::Retry), (InboundStep::ListAffectedViews, ConsumerDisposition::Retry)]
}

/// The steps of method definition changed.
pub fn method_definition_changed_steps() -> (r: Vec<(InboundStep, ConsumerDisposition)>)
    ensures
        r@ == method_definition_changed_plan(),
        failure_dispositions_valid(r@),
{
    let mut steps: Vec<(InboundStep, ConsumerDisposition)> = Vec::new();
    steps.push((InboundStep::BuildMethodSnapshot, ConsumerDisposition::DeadLetter));
    steps.push((InboundStep::ResolveReference, ConsumerDisposition::DeadLetter));
    steps.push((InboundStep::SaveMethodSnapshot, ConsumerDisposition::Retry));
    steps.push((InboundStep::SaveReferenceState, ConsumerDisposition::Retry));
    steps.push((InboundStep::ListAffectedViews, ConsumerDisposition::Retry));
    proof {
        assert(steps@ =~= seq![(InboundStep::BuildMethodSnapshot, ConsumerDisposition::DeadLetter), (InboundStep::ResolveReference, ConsumerDisposition::DeadLetter), (InboundStep::SaveMethodSnapshot, ConsumerDisposition::Retry), (InboundStep::SaveReferenceState, ConsumerDisposition::Retry), (InboundStep::ListAffectedViews, ConsumerDisposition::Retry)]);
    }
    steps
}

/// A conversation context change: the source reference is resolved only when its digest matches, and saved either way.
pub open spec fn conversation_work_context_changed_plan(digest_matches: bool) -> Seq<(InboundStep, ConsumerDisposition)> {
    if digest_matches {
        seq![(InboundStep::ResolveReference, ConsumerDisposition::DeadLetter), (InboundStep::SaveReferenceState, ConsumerDisposition::Retry)]
    } else {
        seq![(InboundStep::SaveReferenceState, ConsumerDisposition::Retry)]
    }
}

/// The steps of conversation work context changed.
pub fn conversation_work_context_changed_steps(digest_matches: bool) -> (r: Vec<(InboundStep, ConsumerDisposition)>)
    ensures
        r@ == conversation_work_context_changed_plan(digest_matches),
        failure_dispositions_valid(r@),
{
    if digest_matches {
        let mut steps: Vec<(InboundStep, ConsumerDisposition)> = Vec::new();
        steps.push((InboundStep::ResolveReference, ConsumerDisposition::DeadLetter));
        steps.push((InboundStep::SaveReferenceState, ConsumerDisposition::Retry));
        proof {
            assert(steps@ =~= seq![(InboundStep::ResolveReference, ConsumerDisposition::DeadLetter), (InboundStep::SaveReferenceState, ConsumerDisposition::Retry)]);
        }
        steps
    } else {
        let mut steps: Vec<(InboundStep, ConsumerDisposition)> = Vec::new();
        steps.push((InboundStep::SaveReferenceState, ConsumerDisposition::Retry));
        proof {
            assert(steps@ =~= seq![(InboundStep::SaveReferenceState, ConsumerDisposition::Retry)]);
        }
        steps
    }
}

/// A process timing change: resolve and save the timebox reference.
pub open spec fn process_timing_changed_plan() -> Seq<(InboundStep, ConsumerDisposition)> {
    seq![(InboundStep::ResolveReference, ConsumerDisposition::DeadLetter), (InboundStep::SaveReferenceState, ConsumerDisposition::Retry)]
}

/// The steps of process timing changed.
pub fn process_timing_changed_steps() -> (r: Vec<(InboundStep, ConsumerDisposition)>)
    ensures
        r@ == process_timing_changed_plan(),
        failure_dispositions_valid(r@),
{
    let mut steps: Vec<(InboundStep, ConsumerDisposition)> = Vec::new();
    steps.push((InboundStep::ResolveReference, ConsumerDisposition::DeadLetter));
    steps.push((InboundStep::SaveReferenceState, ConsumerDisposition::Retry));
    proof {
        assert(steps@ =~= seq![(InboundStep::ResolveReference, ConsumerDisposition::DeadLetter), (InboundStep::SaveReferenceState, ConsumerDisposition::Retry)]);
    }
    steps
}

/// A governance decision: save each reference it names as resolved.
pub open spec fn governance_decision_changed_plan(resolve_source: bool, resolve_evidence: bool) -> Seq<(InboundStep, ConsumerDisposition)> {
    if resolve_source {
        if resolve_evidence {
            seq![(InboundStep::SaveResolvedSource, ConsumerDisposition::Retry), (InboundStep::SaveResolvedEvidence, ConsumerDisposition::Retry)]
        } else {
            seq![(InboundStep::SaveResolvedSource, ConsumerDisposition::Retry)]
        }
    } else {
        if resolve_evidence {
            seq![(InboundStep::SaveResolvedEvidence, ConsumerDisposition::Retry)]
        } else {
            Seq::<(InboundStep, ConsumerDisposition)>::empty()
        }
    }
}

/// The steps of governance decision changed.
pub fn governance_decision_changed_steps(resolve_source: bool, resolve_evidence: bool) -> (r: Vec<(InboundStep, ConsumerDisposition)>)
    ensures
        r@ == governance_decision_changed_plan(resolve_source, resolve_evidence),
        failure_dispositions_valid(r@),
{
    if resolve_source {
        if resolve_evidence {
            let mut steps: Vec<(InboundStep, ConsumerDisposition)> = Vec::new();
            steps.push((InboundStep::SaveResolvedSource, ConsumerDisposition::Retry));
            steps.push((InboundStep::SaveResolvedEvidence, ConsumerDisposition::Retry));
            proof {
                assert(steps@ =~= seq![(InboundStep::SaveResolvedSource, ConsumerDisposition::Retry), (InboundStep::SaveResolvedEvidence, ConsumerDisposition::Retry)]);
            }
            steps
        } else {
            let mut steps: Vec<(InboundStep, ConsumerDisposition)> = Vec::new();
            steps.push((InboundStep::SaveResolvedSource, ConsumerDisposition::Retry));
            proof {
                assert(steps@ =~= seq![(InboundStep::SaveResolvedSource, ConsumerDisposition::Retry)]);
            }
            steps
        }
    } else {
        if resolve_evidence {
            let mut steps: Vec<(InboundStep, ConsumerDisposition)> = Vec::new();
            steps.push((InboundStep::SaveResolvedEvidence, ConsumerDisposition::Retry));
            proof {
                assert(steps@ =~= seq![(InboundStep::SaveResolvedEvidence, ConsumerDisposition::Retry)]);
            }
            steps
        } else {
            let mut steps: Vec<(InboundStep, ConsumerDisposition)> = Vec::new();
            proof {
                assert(steps@ =~= Seq::<(InboundStep, ConsumerDisposition)>::empty());
            }
            steps
        }
    }
}

/// An evidence change: verified evidence resolves the reference, rejected evidence marks it stale, unverified evidence leaves it; the reference is saved either way.
pub open spec fn artifact_evidence_changed_plan(change: EvidenceReferenceChange) -> Seq<(InboundStep, ConsumerDisposition)> {
    match change {
        EvidenceReferenceChange::Resolve => seq![(InboundStep::ResolveReference, ConsumerDisposition::DeadLetter), (InboundStep::SaveReferenceState, ConsumerDisposition::Retry)],
        EvidenceReferenceChange::MarkStale => seq![(InboundStep::MarkReferenceStale, ConsumerDisposition::DeadLetter), (InboundStep::SaveReferenceState, ConsumerDisposition::Retry)],
        EvidenceReferenceChange::Keep => seq![(InboundStep::SaveReferenceState, ConsumerDisposition::Retry)],
    }
}

/// The steps of artifact evidence changed.
pub fn artifact_evidence_changed_steps(change: EvidenceReferenceChange) -> (r: Vec<(InboundStep, ConsumerDisposition)>)
    ensures
        r@ == artifact_evidence_changed_plan(change),
        failure_dispositions_valid(r@),
{
    match change {
        EvidenceReferenceChange::Resolve => {
            let mut steps: Vec<(InboundStep, ConsumerDisposition)> = Vec::new();
            steps.push((InboundStep::ResolveReference, ConsumerDisposition::DeadLetter));
            steps.push((InboundStep::SaveReferenceState, ConsumerDisposition::Retry));
            proof {
                assert(steps@ =~= seq![(InboundStep::ResolveReference, ConsumerDisposition::DeadLetter), (InboundStep::SaveReferenceState, ConsumerDisposition::Retry)]);
            }
            steps
        },
        EvidenceReferenceChange::MarkStale => {
            let mut steps: Vec<(InboundStep, ConsumerDisposition)> = Vec::new();
            steps.push((InboundStep::MarkReferenceStale, ConsumerDisposition::DeadLetter));
            steps.push((InboundStep::SaveReferenceState, ConsumerDisposition::Retry));
            proof {
                assert(steps@ =~= seq![(InboundStep::MarkReferenceStale, ConsumerDisposition::DeadLetter), (InboundStep::SaveReferenceState, ConsumerDisposition::Retry)]);
            }
            steps
        },
        EvidenceReferenceChange::Keep => {
            let mut steps: Vec<(InboundStep, ConsumerDisposition)> = Vec::new();
            steps.push((InboundStep::SaveReferenceState, ConsumerDisposition::Retry));
            proof {
                assert(steps@ =~= seq![(InboundStep::SaveReferenceState, ConsumerDisposition::Retry)]);
            }
            steps
        },
    }
}

/// A runtime promote request whose source resolved without an external body: build the pending intake, resolve and save the source reference, save the intake.
pub open spec fn runtime_promote_requested_plan() -> Seq<(InboundStep, ConsumerDisposition)> {
    seq![(InboundStep::BuildPendingIntake, ConsumerDisposition::DeadLetter), (InboundStep::ResolveReference, ConsumerDisposition::DeadLetter), (InboundStep::SaveReferenceState, ConsumerDisposition::Retry), (InboundStep::SavePendingIntake, ConsumerDisposition::Retry)]
}

/// The steps of runtime promote requested.
pub fn runtime_promote_requested_steps() -> (r: Vec<(InboundStep, ConsumerDisposition)>)
    ensures
        r@ == runtime_promote_requested_plan(),
        failure_dispositions_valid(r@),
{
    let mut steps: Vec<(InboundStep, ConsumerDisposition)> = Vec::new();
    steps.push((InboundStep::BuildPendingIntake, ConsumerDisposition::DeadLetter));
    steps.push((InboundStep::ResolveReference, ConsumerDisposition::DeadLetter));
    steps.push((InboundStep::SaveReferenceState, ConsumerDisposition::Retry));
    steps.push((InboundStep::SavePendingIntake, ConsumerDisposition::Retry));
    proof {
        assert(steps@ =~= seq![(InboundStep::BuildPendingIntake, ConsumerDisposition::DeadLetter), (InboundStep::ResolveReference, ConsumerDisposition::DeadLetter), (InboundStep::SaveReferenceState, ConsumerDisposition::Retry), (InboundStep::SavePendingIntake, ConsumerDisposition::Retry)]);
    }
    steps
}

/// A runtime promote request whose source is unknown or refused: save the source reference as unresolved.
pub open spec fn unresolved_promote_source_plan() -> Seq<(InboundStep, ConsumerDisposition)> {
    seq![(InboundStep::SaveUnresolvedReference, ConsumerDisposition::Retry)]
}

/// The steps of unresolved promote source.
pub fn unresolved_promote_source_steps() -> (r: Vec<(InboundStep, ConsumerDisposition)>)
    ensures
        r@ == unresolved_promote_source_plan(),
        failure_dispositions_valid(r@),
{
    let mut steps: Vec<(InboundStep, ConsumerDisposition)> = Vec::new();
    steps.push((InboundStep::SaveUnresolvedReference, ConsumerDisposition::Retry));
    proof {
        assert(steps@ =~= seq![(InboundStep::SaveUnresolvedReference, ConsumerDisposition::Retry)]);
    }
    steps
}

/// Marking the affected views stale, once an event decided it changed them.
pub open spec fn affected_views_stale_plan() -> Seq<(InboundStep, ConsumerDisposition)> {
    seq![(InboundStep::MarkStale, ConsumerDisposition::Retry)]
}

/// The steps of affected views stale.
pub fn affected_views_stale_steps() -> (r: Vec<(InboundStep, ConsumerDisposition)>)
    ensures
        r@ == affected_views_stale_plan(),
        failure_dispositions_valid(r@),
{
    let mut steps: Vec<(InboundStep, ConsumerDisposition)> = Vec::new();
    steps.push((InboundStep::MarkStale, ConsumerDisposition::Retry));
    proof {
        assert(steps@ =~= seq![(InboundStep::MarkStale, ConsumerDisposition::Retry)]);
    }
    steps
}

} // verus!
