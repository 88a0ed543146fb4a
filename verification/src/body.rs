//! The body of a protected write: its steps run in order inside the reserved
//! transaction, each an awaited call whose reply is already classified; the first step
//! that fails ends the body, after a rollback where that step asks for one.

use vstd::prelude::*;

use crate::errors::ApplicationError;
use crate::ports::{after_rollback, UnitOfWorkError};

verus! {

/// What a failed step does with the open transaction.
#[derive(Clone, Copy, Debug, PartialEq, Eq, Structural)]
pub enum OnFailure {
    /// Roll the transaction back, then report the failure.
    RollBack,
    /// Report the failure at once, leaving the transaction to be dropped.
    Return,
}

/// Where a body stands.
#[derive(Clone, Copy, Debug, PartialEq, Eq, Structural)]
pub enum BodyPhase {
    /// Waiting for the reply of the step with this index.
    Step(usize),
    /// A step failed with this error; waiting for the rollback.
    AwaitRollback(ApplicationError),
    /// Every step succeeded: the result can be finished.
    Applied,
    /// The body ends with this error.
    Failed(ApplicationError),
}

/// The next call a body makes.
#[derive(Clone, Copy, Debug, PartialEq, Eq, Structural)]
pub enum BodyAction {
    /// Run the step with this index.
    Run(usize),
    Rollback,
    /// Save the result, complete the reservation and commit.
    Finish,
    Stop,
}

/// What the last call returned.
#[derive(Clone, Copy, Debug)]
pub enum BodyEvent {
    /// The step succeeded.
    StepSucceeded,
    /// The step failed with this (classified) error.
    StepFailed(ApplicationError),
    RolledBack(Result<(), UnitOfWorkError>),
}

/// The start of a body of `steps` steps.
pub open spec fn body_start(steps: nat) -> (BodyPhase, BodyAction) {
    if steps == 0 {
        (BodyPhase::Applied, BodyAction::Finish)
    } else {
        (BodyPhase::Step(0), BodyAction::Run(0))
    }
}

/// One transition of a body whose steps fail as `policies` say.
pub open spec fn body_next(policies: Seq<OnFailure>, phase: BodyPhase, event: BodyEvent) -> (BodyPhase, BodyAction) {
    match (phase, event) {
        (BodyPhase::Step(i), BodyEvent::StepSucceeded) => if i + 1 < policies.len() {
            (BodyPhase::Step((i + 1) as usize), BodyAction::Run((i + 1) as usize))
        } else {
            (BodyPhase::Applied, BodyAction::Finish)
        },
        (BodyPhase::Step(i), BodyEvent::StepFailed(error)) => if i < policies.len() && policies[i as int] == OnFailure::RollBack {
            (BodyPhase::AwaitRollback(error), BodyAction::Rollback)
        } else {
            (BodyPhase::Failed(error), BodyAction::Stop)
        },
        (BodyPhase::AwaitRollback(error), BodyEvent::RolledBack(rollback)) => (BodyPhase::Failed(after_rollback(error, rollback)), BodyAction::Stop),
        (phase, _) => (phase, BodyAction::Stop),
    }
}

/// The phase a body reaches from `phase` after the given replies, in order.
pub open spec fn body_run(policies: Seq<OnFailure>, phase: BodyPhase, events: Seq<BodyEvent>) -> BodyPhase
    decreases events.len(),
{
    if events.len() == 0 {
        phase
    } else {
        body_run(policies, body_next(policies, phase, events[0]).0, events.drop_first())
    }
}

/// Starts a body of the given steps.
pub fn start_body(policies: &Vec<OnFailure>) -> (r: (BodyPhase, BodyAction))
    ensures
        r == body_start(policies@.len()),
{
    if policies.len() == 0 {
        (BodyPhase::Applied, BodyAction::Finish)
    } else {
        (BodyPhase::Step(0), BodyAction::Run(0))
    }
}

/// Advances a body by what the last call returned.
pub fn step_body(policies: &Vec<OnFailure>, phase: BodyPhase, event: BodyEvent) -> (r: (BodyPhase, BodyAction))
    ensures
        r == body_next(policies@, phase, event),
{
    match (phase, event) {
        (BodyPhase::Step(i), BodyEvent::StepSucceeded) => {
            if i < policies.len() && i + 1 < policies.len() {
                (BodyPhase::Step(i + 1), BodyAction::Run(i + 1))
            } else {
                (BodyPhase::Applied, BodyAction::Finish)
            }
        },
        (BodyPhase::Step(i), BodyEvent::StepFailed(error)) => {
            if i < policies.len() && policies[i] == OnFailure::RollBack {
                (BodyPhase::AwaitRollback(error), BodyAction::Rollback)
            } else {
                (BodyPhase::Failed(error), BodyAction::Stop)
            }
        },
        (BodyPhase::AwaitRollback(error), BodyEvent::RolledBack(rollback)) => {
            (BodyPhase::Failed(crate::ports::rollback_and_err(error, rollback)), BodyAction::Stop)
        },
        (phase, _) => (phase, BodyAction::Stop),
    }
}

/// Whether the first `n` replies all report a successful step.
pub open spec fn steps_succeeded(events: Seq<BodyEvent>, n: nat) -> bool {
    n <= events.len() && forall|k: int| 0 <= k < n ==> #[trigger] events[k] == BodyEvent::StepSucceeded
}

/// A final phase stays where it is, whatever reply comes.
pub proof fn lemma_final_body_phase_is_stable(policies: Seq<OnFailure>, phase: BodyPhase, events: Seq<BodyEvent>)
    requires
        phase is Applied || phase is Failed,
    ensures
        body_run(policies, phase, events) == phase,
    decreases events.len(),
{
    if events.len() > 0 {
        lemma_final_body_phase_is_stable(policies, phase, events.drop_first());
    }
}

/// A body applies only when every one of its steps succeeded, in order: from step `i`,
/// replies to the steps reach `Applied` only when the replies of steps `i` to the last
/// are all successes.
pub proof fn lemma_applied_needs_every_step(policies: Seq<OnFailure>, i: usize, events: Seq<BodyEvent>)
    requires
        i < policies.len(),
        forall|k: int| 0 <= k < events.len() ==> #[trigger] events[k] !is RolledBack,
        body_run(policies, BodyPhase::Step(i), events) == BodyPhase::Applied,
    ensures
        steps_succeeded(events, (policies.len() - i) as nat),
    decreases events.len(),
{
    if events.len() == 0 {
        assert(false);
    } else {
        let next = body_next(policies, BodyPhase::Step(i), events[0]);
        let rest = events.drop_first();
        match events[0] {
            BodyEvent::StepSucceeded => {
                assert(events[0] == BodyEvent::StepSucceeded);
                if i + 1 < policies.len() {
                    assert forall|k: int| 0 <= k < rest.len() implies #[trigger] rest[k] !is RolledBack by {
                        assert(rest[k] == events[k + 1]);
                    }
                    lemma_applied_needs_every_step(policies, (i + 1) as usize, rest);
                    assert forall|k: int| 0 <= k < policies.len() - i implies #[trigger] events[k] == BodyEvent::StepSucceeded by {
                        if k > 0 {
                            assert(events[k] == rest[k - 1]);
                            assert(rest[k - 1] == BodyEvent::StepSucceeded);
                        }
                    }
                } else {
                    lemma_final_body_phase_is_stable(policies, BodyPhase::Applied, rest);
                }
            },
            BodyEvent::StepFailed(error) => {
                if policies[i as int] == OnFailure::RollBack {
                    lemma_rollback_ends_failed(policies, error, rest);
                } else {
                    lemma_final_body_phase_is_stable(policies, next.0, rest);
                }
            },
            BodyEvent::RolledBack(_) => {
                assert(events[0] !is RolledBack);
            },
        }
    }
}

proof fn lemma_rollback_ends_failed(policies: Seq<OnFailure>, error: ApplicationError, events: Seq<BodyEvent>)
    ensures
        body_run(policies, BodyPhase::AwaitRollback(error), events) is AwaitRollback
            || body_run(policies, BodyPhase::AwaitRollback(error), events) is Failed,
    decreases events.len(),
{
    if events.len() > 0 {
        match events[0] {
            BodyEvent::RolledBack(rollback) => {
                lemma_final_body_phase_is_stable(policies, BodyPhase::Failed(after_rollback(error, rollback)), events.drop_first());
            },
            _ => {
                lemma_rollback_ends_failed(policies, error, events.drop_first());
            },
        }
    }
}

/// A failed step surfaces its own error: at once when it returns at once, after a
/// successful rollback when it rolls back.
pub proof fn lemma_failed_step_surfaces_its_error(policies: Seq<OnFailure>, i: usize, error: ApplicationError)
    requires
        i < policies.len(),
    ensures
        policies[i as int] == OnFailure::Return ==> body_run(policies, BodyPhase::Step(i), seq![BodyEvent::StepFailed(error)]) == BodyPhase::Failed(error),
        policies[i as int] == OnFailure::RollBack ==> body_run(
            policies,
            BodyPhase::Step(i),
            seq![BodyEvent::StepFailed(error), BodyEvent::RolledBack(Ok(()))],
        ) == BodyPhase::Failed(error),
        policies[i as int] == OnFailure::RollBack ==> body_run(
            policies,
            BodyPhase::Step(i),
            seq![BodyEvent::StepFailed(error), BodyEvent::RolledBack(Err(UnitOfWorkError::RollbackFailed))],
        ) == BodyPhase::Failed(ApplicationError::TemporarilyUnavailable),
{
    reveal_with_fuel(body_run, 3);
    let one = seq![BodyEvent::StepFailed(error)];
    assert(one.drop_first() =~= Seq::<BodyEvent>::empty());
    let ok = seq![BodyEvent::StepFailed(error), BodyEvent::RolledBack(Ok(()))];
    assert(ok.drop_first() =~= seq![BodyEvent::RolledBack(Ok(()))]);
    assert(ok.drop_first().drop_first() =~= Seq::<BodyEvent>::empty());
    let failed = seq![BodyEvent::StepFailed(error), BodyEvent::RolledBack(Err(UnitOfWorkError::RollbackFailed))];
    assert(failed.drop_first() =~= seq![BodyEvent::RolledBack(Err(UnitOfWorkError::RollbackFailed))]);
    assert(failed.drop_first().drop_first() =~= Seq::<BodyEvent>::empty());
}

} // verus!
