use work_application::body::{start_body, step_body, BodyAction, BodyEvent, BodyPhase, OnFailure};
use work_application::dependency::DependencyTarget;
use work_application::errors::ApplicationError;
use work_application::iteration::IterationLifecycleTarget;
use work_application::member::ResponsibilityTarget;
use work_application::ports::UnitOfWorkError;
use work_application::steps::{
    create_project_steps, review_promotion_steps, step_policies, update_dependency_state_steps,
    update_iteration_lifecycle_steps, update_member_responsibility_steps,
    update_project_lifecycle_steps, update_work_lifecycle_steps, WriteStep,
};

fn names(steps: &[(WriteStep, OnFailure)]) -> Vec<WriteStep> {
    steps.iter().map(|s| s.0).collect()
}

#[test]
fn accepted_review_creates_and_announces_work() {
    let accepted = review_promotion_steps(true);
    let rejected = review_promotion_steps(false);
    assert!(names(&accepted).contains(&WriteStep::CreateWorkItem));
    assert!(names(&accepted).contains(&WriteStep::EnqueueCreatedWorkOutbox));
    assert!(!names(&rejected).contains(&WriteStep::CreateWorkItem));
    assert!(!names(&rejected).contains(&WriteStep::MarkStale));
    assert_eq!(names(&rejected)[..3], [WriteStep::LoadPromoteResult, WriteStep::CheckReviewPlan, WriteStep::RejectPromoteResult]);
    assert_eq!(accepted.last(), Some(&(WriteStep::NextResultId, OnFailure::Return)));
    assert!(accepted[..accepted.len() - 1].iter().all(|s| s.1 == OnFailure::RollBack));
}

#[test]
fn project_writes_never_roll_back() {
    assert!(create_project_steps().iter().all(|s| s.1 == OnFailure::Return));
    let archive = update_project_lifecycle_steps(true);
    assert!(names(&archive).contains(&WriteStep::ArchiveBacklog));
    assert!(!names(&update_project_lifecycle_steps(false)).contains(&WriteStep::ArchiveBacklog));
}

#[test]
fn branch_steps_follow_the_target() {
    let release = update_member_responsibility_steps(ResponsibilityTarget::Released);
    assert_eq!(names(&release)[1], WriteStep::CheckReleaseReason);
    let satisfy = update_dependency_state_steps(DependencyTarget::Satisfied);
    assert!(satisfy.contains(&(WriteStep::CheckEvidenceVerified, OnFailure::RollBack)));
    assert!(satisfy.contains(&(WriteStep::ResolveEvidence, OnFailure::Return)));
    let close = update_iteration_lifecycle_steps(IterationLifecycleTarget::Closed);
    assert!(names(&close).contains(&WriteStep::CloseCommitment));
    let child_done = update_work_lifecycle_steps(true, true);
    assert_eq!(names(&child_done)[1..4], [WriteStep::ReadParent, WriteStep::CheckParentIsRoot, WriteStep::LoadParentBacklog]);
    assert!(child_done.contains(&(WriteStep::ReadParent, OnFailure::Return)));
}

#[test]
fn body_applies_after_every_step_and_rolls_back_on_failure() {
    let policies = step_policies(&vec![(WriteStep::LoadProject, OnFailure::RollBack), (WriteStep::NextResultId, OnFailure::Return)]);
    let (phase, action) = start_body(&policies);
    assert_eq!(action, BodyAction::Run(0));
    let (phase2, action) = step_body(&policies, phase, BodyEvent::StepSucceeded);
    assert_eq!(action, BodyAction::Run(1));
    let (done, action) = step_body(&policies, phase2, BodyEvent::StepSucceeded);
    assert_eq!((done, action), (BodyPhase::Applied, BodyAction::Finish));
    let (failing, action) = step_body(&policies, phase, BodyEvent::StepFailed(ApplicationError::NotFound));
    assert_eq!(action, BodyAction::Rollback);
    let (failed, _) = step_body(&policies, failing, BodyEvent::RolledBack(Ok(())));
    assert_eq!(failed, BodyPhase::Failed(ApplicationError::NotFound));
    let (failed, _) = step_body(&policies, failing, BodyEvent::RolledBack(Err(UnitOfWorkError::RollbackFailed)));
    assert_eq!(failed, BodyPhase::Failed(ApplicationError::TemporarilyUnavailable));
    let (at_once, action) = step_body(&policies, phase2, BodyEvent::StepFailed(ApplicationError::TemporarilyUnavailable));
    assert_eq!((at_once, action), (BodyPhase::Failed(ApplicationError::TemporarilyUnavailable), BodyAction::Stop));
}
