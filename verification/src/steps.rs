//! The steps of every protected write, in the order the write runs them, and what each
//! failed step does with the open transaction. The body of a write runs these steps
//! under [`crate::body`]; each step's reply is classified by the service's own decisions.

use vstd::prelude::*;

use crate::body::OnFailure;
use crate::dependency::DependencyTarget;
use crate::iteration::IterationLifecycleTarget;
use crate::member::ResponsibilityTarget;

verus! {

/// One awaited call (or check) of a protected write.
#[derive(Clone, Copy, Debug, PartialEq, Eq, Structural)]
pub enum WriteStep {
    ResolveSource,
    CheckNoExternalBody,
    FindLatestForSource,
    CheckPromotePolicy,
    NextPromoteResultId,
    EvaluatePromoteResult,
    CreatePromoteResult,
    TraceAndAudit,
    EnqueueOutbox,
    NextResultId,
    LoadPromoteResult,
    CheckReviewPlan,
    LoadAssignee,
    LoadBacklog,
    NextWorkItemId,
    FormalizeWork,
    CreateWorkItem,
    AddToBacklog,
    AcceptPromoteResult,
    SavePromoteResult,
    RecordPromoteDecision,
    AppendPromoteDecision,
    TraceAndAuditCreatedWork,
    EnqueueCreatedWorkOutbox,
    MarkStale,
    RejectPromoteResult,
    NextProjectId,
    NextBacklogId,
    CreateProject,
    OpenBacklog,
    SaveNewProject,
    SaveNewBacklog,
    LoadProject,
    TransitionProject,
    SaveProject,
    LoadBacklogWithVersion,
    ArchiveBacklog,
    SaveBacklog,
    TraceAndAuditBacklog,
    EnqueueBacklogOutbox,
    ChangeBacklogAvailability,
    CheckNoExistingMember,
    LoadOrResolveSnapshot,
    NextProjectMemberId,
    AssignMember,
    ActivateMember,
    CreateMember,
    LoadMember,
    ActivateOrResumeMember,
    SaveMember,
    PauseMember,
    CheckReleaseReason,
    ReleaseMember,
    CheckFormalWork,
    CheckBacklogAccepts,
    LoadParent,
    CheckParent,
    LoadParentBacklog,
    NextChildWorkItemId,
    CreateChild,
    CreateChildWorkItem,
    LoadWork,
    ReadParent,
    CheckParentIsRoot,
    CheckEvidenceGiven,
    ResolveEvidence,
    CheckCompletionEvidence,
    TransitionWork,
    SaveWork,
    LoadWorkBacklog,
    EnsureUpstreamWork,
    EnsureDownstreamWork,
    LoadDownstreamScope,
    LoadGraph,
    CheckGraphProject,
    CheckCanLink,
    NextDependencyId,
    LinkDependency,
    ActivateDependency,
    CreateDependency,
    NextChangeId,
    BuildChangeRecord,
    AppendChange,
    LoadDependency,
    CheckDependencyPlan,
    CheckTransitionAllowed,
    SaveDependency,
    CheckEvidenceVerified,
    SatisfyDependency,
    WaiveDependency,
    CancelDependency,
    EnsureBlockedWork,
    LoadBlockedScope,
    NextBlockerId,
    OpenBlocker,
    CreateBlocker,
    LoadBlocker,
    ResolveBlocker,
    SaveBlocker,
    CheckProjectActive,
    ResolveTimebox,
    CheckTimeboxBinding,
    NextIterationId,
    OpenIteration,
    CreateIteration,
    LoadIteration,
    LoadCommitCandidates,
    CheckCommitmentAllowed,
    NextCommitmentId,
    BuildCommitment,
    CommitIteration,
    SaveIteration,
    SaveCommitment,
    MarkCandidatesCommitted,
    LoadAffectedAssignees,
    CheckChangeSet,
    LoadCommitment,
    ValidateAddedWork,
    ApplyCommitmentChange,
    CheckReasonShape,
    StartIteration,
    CloseIteration,
    CloseCommitment,
    CancelIteration,
}

/// The failure policies of a list of steps, in order.
pub open spec fn policies_of(steps: Seq<(WriteStep, OnFailure)>) -> Seq<OnFailure> {
    steps.map_values(|s: (WriteStep, OnFailure)| s.1)
}

/// The failure policies of a list of steps, in order.
pub fn step_policies(steps: &Vec<(WriteStep, OnFailure)>) -> (r: Vec<OnFailure>)
    ensures
        r@ == policies_of(steps@),
{
    let mut policies: Vec<OnFailure> = Vec::new();
    let mut i: usize = 0;
    while i < steps.len()
        invariant
            i <= steps@.len(),
            policies@ == policies_of(steps@.take(i as int)),
        decreases steps.len() - i,
    {
        let ghost before = policies@;
        policies.push(steps[i].1);
        proof {
            assert(steps@.take(i + 1) =~= steps@.take(i as int).push(steps@[i as int]));
            assert(policies@ =~= policies_of(steps@.take(i + 1)));
        }
        i = i + 1;
    }
    proof {
        assert(steps@.take(steps@.len() as int) =~= steps@);
    }
    policies
}

/// Recording a promote request: resolve and check the source, refuse a second pending request and a policy refusal, then record the result.
pub open spec fn request_promotion_plan() -> Seq<(WriteStep, OnFailure)> {
    seq![(WriteStep::ResolveSource, OnFailure::RollBack), (WriteStep::CheckNoExternalBody, OnFailure::RollBack), (WriteStep::FindLatestForSource, OnFailure::RollBack), (WriteStep::CheckPromotePolicy, OnFailure::RollBack), (WriteStep::NextPromoteResultId, OnFailure::RollBack), (WriteStep::EvaluatePromoteResult, OnFailure::RollBack), (WriteStep::CreatePromoteResult, OnFailure::RollBack), (WriteStep::TraceAndAudit, OnFailure::RollBack), (WriteStep::EnqueueOutbox, OnFailure::RollBack), (WriteStep::NextResultId, OnFailure::Return)]
}

/// The steps of request promotion.
pub fn request_promotion_steps() -> (r: Vec<(WriteStep, OnFailure)>)
    ensures
        r@ == request_promotion_plan(),
{
    let mut steps: Vec<(WriteStep, OnFailure)> = Vec::new();
    steps.push((WriteStep::ResolveSource, OnFailure::RollBack));
    steps.push((WriteStep::CheckNoExternalBody, OnFailure::RollBack));
    steps.push((WriteStep::FindLatestForSource, OnFailure::RollBack));
    steps.push((WriteStep::CheckPromotePolicy, OnFailure::RollBack));
    steps.push((WriteStep::NextPromoteResultId, OnFailure::RollBack));
    steps.push((WriteStep::EvaluatePromoteResult, OnFailure::RollBack));
    steps.push((WriteStep::CreatePromoteResult, OnFailure::RollBack));
    steps.push((WriteStep::TraceAndAudit, OnFailure::RollBack));
    steps.push((WriteStep::EnqueueOutbox, OnFailure::RollBack));
    steps.push((WriteStep::NextResultId, OnFailure::Return));
    proof {
        assert(steps@ =~= seq![(WriteStep::ResolveSource, OnFailure::RollBack), (WriteStep::CheckNoExternalBody, OnFailure::RollBack), (WriteStep::FindLatestForSource, OnFailure::RollBack), (WriteStep::CheckPromotePolicy, OnFailure::RollBack), (WriteStep::NextPromoteResultId, OnFailure::RollBack), (WriteStep::EvaluatePromoteResult, OnFailure::RollBack), (WriteStep::CreatePromoteResult, OnFailure::RollBack), (WriteStep::TraceAndAudit, OnFailure::RollBack), (WriteStep::EnqueueOutbox, OnFailure::RollBack), (WriteStep::NextResultId, OnFailure::Return)]);
    }
    steps
}

/// Reviewing a pending promote result: accepting creates formal work from the intent and announces it too; rejecting only records the decision.
pub open spec fn review_promotion_plan(accept: bool) -> Seq<(WriteStep, OnFailure)> {
    if accept {
        seq![(WriteStep::LoadPromoteResult, OnFailure::RollBack), (WriteStep::CheckReviewPlan, OnFailure::RollBack), (WriteStep::ResolveSource, OnFailure::RollBack), (WriteStep::CheckNoExternalBody, OnFailure::RollBack), (WriteStep::LoadAssignee, OnFailure::RollBack), (WriteStep::LoadBacklog, OnFailure::RollBack), (WriteStep::NextWorkItemId, OnFailure::RollBack), (WriteStep::FormalizeWork, OnFailure::RollBack), (WriteStep::CreateWorkItem, OnFailure::RollBack), (WriteStep::AddToBacklog, OnFailure::RollBack), (WriteStep::AcceptPromoteResult, OnFailure::RollBack), (WriteStep::SavePromoteResult, OnFailure::RollBack), (WriteStep::RecordPromoteDecision, OnFailure::RollBack), (WriteStep::AppendPromoteDecision, OnFailure::RollBack), (WriteStep::TraceAndAudit, OnFailure::RollBack), (WriteStep::EnqueueOutbox, OnFailure::RollBack), (WriteStep::TraceAndAuditCreatedWork, OnFailure::RollBack), (WriteStep::EnqueueCreatedWorkOutbox, OnFailure::RollBack), (WriteStep::MarkStale, OnFailure::RollBack), (WriteStep::NextResultId, OnFailure::Return)]
    } else {
        seq![(WriteStep::LoadPromoteResult, OnFailure::RollBack), (WriteStep::CheckReviewPlan, OnFailure::RollBack), (WriteStep::RejectPromoteResult, OnFailure::RollBack), (WriteStep::SavePromoteResult, OnFailure::RollBack), (WriteStep::RecordPromoteDecision, OnFailure::RollBack), (WriteStep::AppendPromoteDecision, OnFailure::RollBack), (WriteStep::TraceAndAudit, OnFailure::RollBack), (WriteStep::EnqueueOutbox, OnFailure::RollBack), (WriteStep::NextResultId, OnFailure::Return)]
    }
}

/// The steps of review promotion.
pub fn review_promotion_steps(accept: bool) -> (r: Vec<(WriteStep, OnFailure)>)
    ensures
        r@ == review_promotion_plan(accept),
{
    if accept {
        let mut steps: Vec<(WriteStep, OnFailure)> = Vec::new();
        steps.push((WriteStep::LoadPromoteResult, OnFailure::RollBack));
        steps.push((WriteStep::CheckReviewPlan, OnFailure::RollBack));
        steps.push((WriteStep::ResolveSource, OnFailure::RollBack));
        steps.push((WriteStep::CheckNoExternalBody, OnFailure::RollBack));
        steps.push((WriteStep::LoadAssignee, OnFailure::RollBack));
        steps.push((WriteStep::LoadBacklog, OnFailure::RollBack));
        steps.push((WriteStep::NextWorkItemId, OnFailure::RollBack));
        steps.push((WriteStep::FormalizeWork, OnFailure::RollBack));
        steps.push((WriteStep::CreateWorkItem, OnFailure::RollBack));
        steps.push((WriteStep::AddToBacklog, OnFailure::RollBack));
        steps.push((WriteStep::AcceptPromoteResult, OnFailure::RollBack));
        steps.push((WriteStep::SavePromoteResult, OnFailure::RollBack));
        steps.push((WriteStep::RecordPromoteDecision, OnFailure::RollBack));
        steps.push((WriteStep::AppendPromoteDecision, OnFailure::RollBack));
        steps.push((WriteStep::TraceAndAudit, OnFailure::RollBack));
        steps.push((WriteStep::EnqueueOutbox, OnFailure::RollBack));
        steps.push((WriteStep::TraceAndAuditCreatedWork, OnFailure::RollBack));
        steps.push((WriteStep::EnqueueCreatedWorkOutbox, OnFailure::RollBack));
        steps.push((WriteStep::MarkStale, OnFailure::RollBack));
        steps.push((WriteStep::NextResultId, OnFailure::Return));
        proof {
            assert(steps@ =~= seq![(WriteStep::LoadPromoteResult, OnFailure::RollBack), (WriteStep::CheckReviewPlan, OnFailure::RollBack), (WriteStep::ResolveSource, OnFailure::RollBack), (WriteStep::CheckNoExternalBody, OnFailure::RollBack), (WriteStep::LoadAssignee, OnFailure::RollBack), (WriteStep::LoadBacklog, OnFailure::RollBack), (WriteStep::NextWorkItemId, OnFailure::RollBack), (WriteStep::FormalizeWork, OnFailure::RollBack), (WriteStep::CreateWorkItem, OnFailure::RollBack), (WriteStep::AddToBacklog, OnFailure::RollBack), (WriteStep::AcceptPromoteResult, OnFailure::RollBack), (WriteStep::SavePromoteResult, OnFailure::RollBack), (WriteStep::RecordPromoteDecision, OnFailure::RollBack), (WriteStep::AppendPromoteDecision, OnFailure::RollBack), (WriteStep::TraceAndAudit, OnFailure::RollBack), (WriteStep::EnqueueOutbox, OnFailure::RollBack), (WriteStep::TraceAndAuditCreatedWork, OnFailure::RollBack), (WriteStep::EnqueueCreatedWorkOutbox, OnFailure::RollBack), (WriteStep::MarkStale, OnFailure::RollBack), (WriteStep::NextResultId, OnFailure::Return)]);
        }
        steps
    } else {
        let mut steps: Vec<(WriteStep, OnFailure)> = Vec::new();
        steps.push((WriteStep::LoadPromoteResult, OnFailure::RollBack));
        steps.push((WriteStep::CheckReviewPlan, OnFailure::RollBack));
        steps.push((WriteStep::RejectPromoteResult, OnFailure::RollBack));
        steps.push((WriteStep::SavePromoteResult, OnFailure::RollBack));
        steps.push((WriteStep::RecordPromoteDecision, OnFailure::RollBack));
        steps.push((WriteStep::AppendPromoteDecision, OnFailure::RollBack));
        steps.push((WriteStep::TraceAndAudit, OnFailure::RollBack));
        steps.push((WriteStep::EnqueueOutbox, OnFailure::RollBack));
        steps.push((WriteStep::NextResultId, OnFailure::Return));
        proof {
            assert(steps@ =~= seq![(WriteStep::LoadPromoteResult, OnFailure::RollBack), (WriteStep::CheckReviewPlan, OnFailure::RollBack), (WriteStep::RejectPromoteResult, OnFailure::RollBack), (WriteStep::SavePromoteResult, OnFailure::RollBack), (WriteStep::RecordPromoteDecision, OnFailure::RollBack), (WriteStep::AppendPromoteDecision, OnFailure::RollBack), (WriteStep::TraceAndAudit, OnFailure::RollBack), (WriteStep::EnqueueOutbox, OnFailure::RollBack), (WriteStep::NextResultId, OnFailure::Return)]);
        }
        steps
    }
}

/// Creating a project with its backlog; no failed step rolls back.
pub open spec fn create_project_plan() -> Seq<(WriteStep, OnFailure)> {
    seq![(WriteStep::NextProjectId, OnFailure::Return), (WriteStep::NextBacklogId, OnFailure::Return), (WriteStep::CreateProject, OnFailure::Return), (WriteStep::OpenBacklog, OnFailure::Return), (WriteStep::SaveNewProject, OnFailure::Return), (WriteStep::SaveNewBacklog, OnFailure::Return), (WriteStep::TraceAndAudit, OnFailure::Return), (WriteStep::EnqueueOutbox, OnFailure::Return), (WriteStep::MarkStale, OnFailure::Return), (WriteStep::NextResultId, OnFailure::Return)]
}

/// The steps of create project.
pub fn create_project_steps() -> (r: Vec<(WriteStep, OnFailure)>)
    ensures
        r@ == create_project_plan(),
{
    let mut steps: Vec<(WriteStep, OnFailure)> = Vec::new();
    steps.push((WriteStep::NextProjectId, OnFailure::Return));
    steps.push((WriteStep::NextBacklogId, OnFailure::Return));
    steps.push((WriteStep::CreateProject, OnFailure::Return));
    steps.push((WriteStep::OpenBacklog, OnFailure::Return));
    steps.push((WriteStep::SaveNewProject, OnFailure::Return));
    steps.push((WriteStep::SaveNewBacklog, OnFailure::Return));
    steps.push((WriteStep::TraceAndAudit, OnFailure::Return));
    steps.push((WriteStep::EnqueueOutbox, OnFailure::Return));
    steps.push((WriteStep::MarkStale, OnFailure::Return));
    steps.push((WriteStep::NextResultId, OnFailure::Return));
    proof {
        assert(steps@ =~= seq![(WriteStep::NextProjectId, OnFailure::Return), (WriteStep::NextBacklogId, OnFailure::Return), (WriteStep::CreateProject, OnFailure::Return), (WriteStep::OpenBacklog, OnFailure::Return), (WriteStep::SaveNewProject, OnFailure::Return), (WriteStep::SaveNewBacklog, OnFailure::Return), (WriteStep::TraceAndAudit, OnFailure::Return), (WriteStep::EnqueueOutbox, OnFailure::Return), (WriteStep::MarkStale, OnFailure::Return), (WriteStep::NextResultId, OnFailure::Return)]);
    }
    steps
}

/// Changing a project lifecycle; archiving archives the backlog too. No failed step rolls back.
pub open spec fn update_project_lifecycle_plan(archive: bool) -> Seq<(WriteStep, OnFailure)> {
    if archive {
        seq![(WriteStep::LoadProject, OnFailure::Return), (WriteStep::TransitionProject, OnFailure::Return), (WriteStep::SaveProject, OnFailure::Return), (WriteStep::TraceAndAudit, OnFailure::Return), (WriteStep::EnqueueOutbox, OnFailure::Return), (WriteStep::LoadBacklogWithVersion, OnFailure::Return), (WriteStep::ArchiveBacklog, OnFailure::Return), (WriteStep::SaveBacklog, OnFailure::Return), (WriteStep::TraceAndAuditBacklog, OnFailure::Return), (WriteStep::EnqueueBacklogOutbox, OnFailure::Return), (WriteStep::MarkStale, OnFailure::Return), (WriteStep::NextResultId, OnFailure::Return)]
    } else {
        seq![(WriteStep::LoadProject, OnFailure::Return), (WriteStep::TransitionProject, OnFailure::Return), (WriteStep::SaveProject, OnFailure::Return), (WriteStep::TraceAndAudit, OnFailure::Return), (WriteStep::EnqueueOutbox, OnFailure::Return), (WriteStep::MarkStale, OnFailure::Return), (WriteStep::NextResultId, OnFailure::Return)]
    }
}

/// The steps of update project lifecycle.
pub fn update_project_lifecycle_steps(archive: bool) -> (r: Vec<(WriteStep, OnFailure)>)
    ensures
        r@ == update_project_lifecycle_plan(archive),
{
    if archive {
        let mut steps: Vec<(WriteStep, OnFailure)> = Vec::new();
        steps.push((WriteStep::LoadProject, OnFailure::Return));
        steps.push((WriteStep::TransitionProject, OnFailure::Return));
        steps.push((WriteStep::SaveProject, OnFailure::Return));
        steps.push((WriteStep::TraceAndAudit, OnFailure::Return));
        steps.push((WriteStep::EnqueueOutbox, OnFailure::Return));
        steps.push((WriteStep::LoadBacklogWithVersion, OnFailure::Return));
        steps.push((WriteStep::ArchiveBacklog, OnFailure::Return));
        steps.push((WriteStep::SaveBacklog, OnFailure::Return));
        steps.push((WriteStep::TraceAndAuditBacklog, OnFailure::Return));
        steps.push((WriteStep::EnqueueBacklogOutbox, OnFailure::Return));
        steps.push((WriteStep::MarkStale, OnFailure::Return));
        steps.push((WriteStep::NextResultId, OnFailure::Return));
        proof {
            assert(steps@ =~= seq![(WriteStep::LoadProject, OnFailure::Return), (WriteStep::TransitionProject, OnFailure::Return), (WriteStep::SaveProject, OnFailure::Return), (WriteStep::TraceAndAudit, OnFailure::Return), (WriteStep::EnqueueOutbox, OnFailure::Return), (WriteStep::LoadBacklogWithVersion, OnFailure::Return), (WriteStep::ArchiveBacklog, OnFailure::Return), (WriteStep::SaveBacklog, OnFailure::Return), (WriteStep::TraceAndAuditBacklog, OnFailure::Return), (WriteStep::EnqueueBacklogOutbox, OnFailure::Return), (WriteStep::MarkStale, OnFailure::Return), (WriteStep::NextResultId, OnFailure::Return)]);
        }
        steps
    } else {
        let mut steps: Vec<(WriteStep, OnFailure)> = Vec::new();
        steps.push((WriteStep::LoadProject, OnFailure::Return));
        steps.push((WriteStep::TransitionProject, OnFailure::Return));
        steps.push((WriteStep::SaveProject, OnFailure::Return));
        steps.push((WriteStep::TraceAndAudit, OnFailure::Return));
        steps.push((WriteStep::EnqueueOutbox, OnFailure::Return));
        steps.push((WriteStep::MarkStale, OnFailure::Return));
        steps.push((WriteStep::NextResultId, OnFailure::Return));
        proof {
            assert(steps@ =~= seq![(WriteStep::LoadProject, OnFailure::Return), (WriteStep::TransitionProject, OnFailure::Return), (WriteStep::SaveProject, OnFailure::Return), (WriteStep::TraceAndAudit, OnFailure::Return), (WriteStep::EnqueueOutbox, OnFailure::Return), (WriteStep::MarkStale, OnFailure::Return), (WriteStep::NextResultId, OnFailure::Return)]);
        }
        steps
    }
}

/// Locking or reopening a backlog; no failed step rolls back.
pub open spec fn update_backlog_availability_plan() -> Seq<(WriteStep, OnFailure)> {
    seq![(WriteStep::LoadBacklog, OnFailure::Return), (WriteStep::ChangeBacklogAvailability, OnFailure::Return), (WriteStep::SaveBacklog, OnFailure::Return), (WriteStep::TraceAndAudit, OnFailure::Return), (WriteStep::EnqueueOutbox, OnFailure::Return), (WriteStep::MarkStale, OnFailure::Return), (WriteStep::NextResultId, OnFailure::Return)]
}

/// The steps of update backlog availability.
pub fn update_backlog_availability_steps() -> (r: Vec<(WriteStep, OnFailure)>)
    ensures
        r@ == update_backlog_availability_plan(),
{
    let mut steps: Vec<(WriteStep, OnFailure)> = Vec::new();
    steps.push((WriteStep::LoadBacklog, OnFailure::Return));
    steps.push((WriteStep::ChangeBacklogAvailability, OnFailure::Return));
    steps.push((WriteStep::SaveBacklog, OnFailure::Return));
    steps.push((WriteStep::TraceAndAudit, OnFailure::Return));
    steps.push((WriteStep::EnqueueOutbox, OnFailure::Return));
    steps.push((WriteStep::MarkStale, OnFailure::Return));
    steps.push((WriteStep::NextResultId, OnFailure::Return));
    proof {
        assert(steps@ =~= seq![(WriteStep::LoadBacklog, OnFailure::Return), (WriteStep::ChangeBacklogAvailability, OnFailure::Return), (WriteStep::SaveBacklog, OnFailure::Return), (WriteStep::TraceAndAudit, OnFailure::Return), (WriteStep::EnqueueOutbox, OnFailure::Return), (WriteStep::MarkStale, OnFailure::Return), (WriteStep::NextResultId, OnFailure::Return)]);
    }
    steps
}

/// Assigning an identity to a project; every failed step rolls back.
pub open spec fn assign_project_member_plan() -> Seq<(WriteStep, OnFailure)> {
    seq![(WriteStep::LoadProject, OnFailure::RollBack), (WriteStep::CheckNoExistingMember, OnFailure::RollBack), (WriteStep::LoadOrResolveSnapshot, OnFailure::RollBack), (WriteStep::NextProjectMemberId, OnFailure::RollBack), (WriteStep::AssignMember, OnFailure::RollBack), (WriteStep::ActivateMember, OnFailure::RollBack), (WriteStep::CreateMember, OnFailure::RollBack), (WriteStep::TraceAndAudit, OnFailure::RollBack), (WriteStep::EnqueueOutbox, OnFailure::RollBack), (WriteStep::MarkStale, OnFailure::RollBack), (WriteStep::NextResultId, OnFailure::RollBack)]
}

/// The steps of assign project member.
pub fn assign_project_member_steps() -> (r: Vec<(WriteStep, OnFailure)>)
    ensures
        r@ == assign_project_member_plan(),
{
    let mut steps: Vec<(WriteStep, OnFailure)> = Vec::new();
    steps.push((WriteStep::LoadProject, OnFailure::RollBack));
    steps.push((WriteStep::CheckNoExistingMember, OnFailure::RollBack));
    steps.push((WriteStep::LoadOrResolveSnapshot, OnFailure::RollBack));
    steps.push((WriteStep::NextProjectMemberId, OnFailure::RollBack));
    steps.push((WriteStep::AssignMember, OnFailure::RollBack));
    steps.push((WriteStep::ActivateMember, OnFailure::RollBack));
    steps.push((WriteStep::CreateMember, OnFailure::RollBack));
    steps.push((WriteStep::TraceAndAudit, OnFailure::RollBack));
    steps.push((WriteStep::EnqueueOutbox, OnFailure::RollBack));
    steps.push((WriteStep::MarkStale, OnFailure::RollBack));
    steps.push((WriteStep::NextResultId, OnFailure::RollBack));
    proof {
        assert(steps@ =~= seq![(WriteStep::LoadProject, OnFailure::RollBack), (WriteStep::CheckNoExistingMember, OnFailure::RollBack), (WriteStep::LoadOrResolveSnapshot, OnFailure::RollBack), (WriteStep::NextProjectMemberId, OnFailure::RollBack), (WriteStep::AssignMember, OnFailure::RollBack), (WriteStep::ActivateMember, OnFailure::RollBack), (WriteStep::CreateMember, OnFailure::RollBack), (WriteStep::TraceAndAudit, OnFailure::RollBack), (WriteStep::EnqueueOutbox, OnFailure::RollBack), (WriteStep::MarkStale, OnFailure::RollBack), (WriteStep::NextResultId, OnFailure::RollBack)]);
    }
    steps
}

/// Moving a member responsibility; every failed step rolls back.
pub open spec fn update_member_responsibility_plan(target: ResponsibilityTarget) -> Seq<(WriteStep, OnFailure)> {
    match target {
        ResponsibilityTarget::Active => seq![(WriteStep::LoadMember, OnFailure::RollBack), (WriteStep::LoadOrResolveSnapshot, OnFailure::RollBack), (WriteStep::ActivateOrResumeMember, OnFailure::RollBack), (WriteStep::SaveMember, OnFailure::RollBack), (WriteStep::TraceAndAudit, OnFailure::RollBack), (WriteStep::EnqueueOutbox, OnFailure::RollBack), (WriteStep::MarkStale, OnFailure::RollBack), (WriteStep::NextResultId, OnFailure::RollBack)],
        ResponsibilityTarget::Paused => seq![(WriteStep::LoadMember, OnFailure::RollBack), (WriteStep::PauseMember, OnFailure::RollBack), (WriteStep::SaveMember, OnFailure::RollBack), (WriteStep::TraceAndAudit, OnFailure::RollBack), (WriteStep::EnqueueOutbox, OnFailure::RollBack), (WriteStep::MarkStale, OnFailure::RollBack), (WriteStep::NextResultId, OnFailure::RollBack)],
        ResponsibilityTarget::Released => seq![(WriteStep::LoadMember, OnFailure::RollBack), (WriteStep::CheckReleaseReason, OnFailure::RollBack), (WriteStep::ReleaseMember, OnFailure::RollBack), (WriteStep::SaveMember, OnFailure::RollBack), (WriteStep::TraceAndAudit, OnFailure::RollBack), (WriteStep::EnqueueOutbox, OnFailure::RollBack), (WriteStep::MarkStale, OnFailure::RollBack), (WriteStep::NextResultId, OnFailure::RollBack)],
    }
}

/// The steps of update member responsibility.
pub fn update_member_responsibility_steps(target: ResponsibilityTarget) -> (r: Vec<(WriteStep, OnFailure)>)
    ensures
        r@ == update_member_responsibility_plan(target),
{
    match target {
        ResponsibilityTarget::Active => {
            let mut steps: Vec<(WriteStep, OnFailure)> = Vec::new();
            steps.push((WriteStep::LoadMember, OnFailure::RollBack));
            steps.push((WriteStep::LoadOrResolveSnapshot, OnFailure::RollBack));
            steps.push((WriteStep::ActivateOrResumeMember, OnFailure::RollBack));
            steps.push((WriteStep::SaveMember, OnFailure::RollBack));
            steps.push((WriteStep::TraceAndAudit, OnFailure::RollBack));
            steps.push((WriteStep::EnqueueOutbox, OnFailure::RollBack));
            steps.push((WriteStep::MarkStale, OnFailure::RollBack));
            steps.push((WriteStep::NextResultId, OnFailure::RollBack));
            proof {
                assert(steps@ =~= seq![(WriteStep::LoadMember, OnFailure::RollBack), (WriteStep::LoadOrResolveSnapshot, OnFailure::RollBack), (WriteStep::ActivateOrResumeMember, OnFailure::RollBack), (WriteStep::SaveMember, OnFailure::RollBack), (WriteStep::TraceAndAudit, OnFailure::RollBack), (WriteStep::EnqueueOutbox, OnFailure::RollBack), (WriteStep::MarkStale, OnFailure::RollBack), (WriteStep::NextResultId, OnFailure::RollBack)]);
            }
            steps
        },
        ResponsibilityTarget::Paused => {
            let mut steps: Vec<(WriteStep, OnFailure)> = Vec::new();
            steps.push((WriteStep::LoadMember, OnFailure::RollBack));
            steps.push((WriteStep::PauseMember, OnFailure::RollBack));
            steps.push((WriteStep::SaveMember, OnFailure::RollBack));
            steps.push((WriteStep::TraceAndAudit, OnFailure::RollBack));
            steps.push((WriteStep::EnqueueOutbox, OnFailure::RollBack));
            steps.push((WriteStep::MarkStale, OnFailure::RollBack));
            steps.push((WriteStep::NextResultId, OnFailure::RollBack));
            proof {
                assert(steps@ =~= seq![(WriteStep::LoadMember, OnFailure::RollBack), (WriteStep::PauseMember, OnFailure::RollBack), (WriteStep::SaveMember, OnFailure::RollBack), (WriteStep::TraceAndAudit, OnFailure::RollBack), (WriteStep::EnqueueOutbox, OnFailure::RollBack), (WriteStep::MarkStale, OnFailure::RollBack), (WriteStep::NextResultId, OnFailure::RollBack)]);
            }
            steps
        },
        ResponsibilityTarget::Released => {
            let mut steps: Vec<(WriteStep, OnFailure)> = Vec::new();
            steps.push((WriteStep::LoadMember, OnFailure::RollBack));
            steps.push((WriteStep::CheckReleaseReason, OnFailure::RollBack));
            steps.push((WriteStep::ReleaseMember, OnFailure::RollBack));
            steps.push((WriteStep::SaveMember, OnFailure::RollBack));
            steps.push((WriteStep::TraceAndAudit, OnFailure::RollBack));
            steps.push((WriteStep::EnqueueOutbox, OnFailure::RollBack));
            steps.push((WriteStep::MarkStale, OnFailure::RollBack));
            steps.push((WriteStep::NextResultId, OnFailure::RollBack));
            proof {
                assert(steps@ =~= seq![(WriteStep::LoadMember, OnFailure::RollBack), (WriteStep::CheckReleaseReason, OnFailure::RollBack), (WriteStep::ReleaseMember, OnFailure::RollBack), (WriteStep::SaveMember, OnFailure::RollBack), (WriteStep::TraceAndAudit, OnFailure::RollBack), (WriteStep::EnqueueOutbox, OnFailure::RollBack), (WriteStep::MarkStale, OnFailure::RollBack), (WriteStep::NextResultId, OnFailure::RollBack)]);
            }
            steps
        },
    }
}

/// Creating root formal work; every failed step but the last rolls back.
pub open spec fn create_work_item_plan() -> Seq<(WriteStep, OnFailure)> {
    seq![(WriteStep::LoadProject, OnFailure::RollBack), (WriteStep::LoadBacklog, OnFailure::RollBack), (WriteStep::LoadAssignee, OnFailure::RollBack), (WriteStep::ResolveSource, OnFailure::RollBack), (WriteStep::CheckNoExternalBody, OnFailure::RollBack), (WriteStep::CheckFormalWork, OnFailure::RollBack), (WriteStep::CheckBacklogAccepts, OnFailure::RollBack), (WriteStep::NextWorkItemId, OnFailure::RollBack), (WriteStep::FormalizeWork, OnFailure::RollBack), (WriteStep::CreateWorkItem, OnFailure::RollBack), (WriteStep::AddToBacklog, OnFailure::RollBack), (WriteStep::TraceAndAudit, OnFailure::RollBack), (WriteStep::EnqueueOutbox, OnFailure::RollBack), (WriteStep::MarkStale, OnFailure::RollBack), (WriteStep::NextResultId, OnFailure::Return)]
}

/// The steps of create work item.
pub fn create_work_item_steps() -> (r: Vec<(WriteStep, OnFailure)>)
    ensures
        r@ == create_work_item_plan(),
{
    let mut steps: Vec<(WriteStep, OnFailure)> = Vec::new();
    steps.push((WriteStep::LoadProject, OnFailure::RollBack));
    steps.push((WriteStep::LoadBacklog, OnFailure::RollBack));
    steps.push((WriteStep::LoadAssignee, OnFailure::RollBack));
    steps.push((WriteStep::ResolveSource, OnFailure::RollBack));
    steps.push((WriteStep::CheckNoExternalBody, OnFailure::RollBack));
    steps.push((WriteStep::CheckFormalWork, OnFailure::RollBack));
    steps.push((WriteStep::CheckBacklogAccepts, OnFailure::RollBack));
    steps.push((WriteStep::NextWorkItemId, OnFailure::RollBack));
    steps.push((WriteStep::FormalizeWork, OnFailure::RollBack));
    steps.push((WriteStep::CreateWorkItem, OnFailure::RollBack));
    steps.push((WriteStep::AddToBacklog, OnFailure::RollBack));
    steps.push((WriteStep::TraceAndAudit, OnFailure::RollBack));
    steps.push((WriteStep::EnqueueOutbox, OnFailure::RollBack));
    steps.push((WriteStep::MarkStale, OnFailure::RollBack));
    steps.push((WriteStep::NextResultId, OnFailure::Return));
    proof {
        assert(steps@ =~= seq![(WriteStep::LoadProject, OnFailure::RollBack), (WriteStep::LoadBacklog, OnFailure::RollBack), (WriteStep::LoadAssignee, OnFailure::RollBack), (WriteStep::ResolveSource, OnFailure::RollBack), (WriteStep::CheckNoExternalBody, OnFailure::RollBack), (WriteStep::CheckFormalWork, OnFailure::RollBack), (WriteStep::CheckBacklogAccepts, OnFailure::RollBack), (WriteStep::NextWorkItemId, OnFailure::RollBack), (WriteStep::FormalizeWork, OnFailure::RollBack), (WriteStep::CreateWorkItem, OnFailure::RollBack), (WriteStep::AddToBacklog, OnFailure::RollBack), (WriteStep::TraceAndAudit, OnFailure::RollBack), (WriteStep::EnqueueOutbox, OnFailure::RollBack), (WriteStep::MarkStale, OnFailure::RollBack), (WriteStep::NextResultId, OnFailure::Return)]);
    }
    steps
}

/// Creating child formal work under an open root item; every failed step but the last rolls back.
pub open spec fn create_child_work_item_plan() -> Seq<(WriteStep, OnFailure)> {
    seq![(WriteStep::LoadParent, OnFailure::RollBack), (WriteStep::CheckParent, OnFailure::RollBack), (WriteStep::LoadParentBacklog, OnFailure::RollBack), (WriteStep::ResolveSource, OnFailure::RollBack), (WriteStep::CheckNoExternalBody, OnFailure::RollBack), (WriteStep::CheckFormalWork, OnFailure::RollBack), (WriteStep::NextChildWorkItemId, OnFailure::RollBack), (WriteStep::CreateChild, OnFailure::RollBack), (WriteStep::CreateChildWorkItem, OnFailure::RollBack), (WriteStep::AddToBacklog, OnFailure::RollBack), (WriteStep::TraceAndAudit, OnFailure::RollBack), (WriteStep::EnqueueOutbox, OnFailure::RollBack), (WriteStep::MarkStale, OnFailure::RollBack), (WriteStep::NextResultId, OnFailure::Return)]
}

/// The steps of create child work item.
pub fn create_child_work_item_steps() -> (r: Vec<(WriteStep, OnFailure)>)
    ensures
        r@ == create_child_work_item_plan(),
{
    let mut steps: Vec<(WriteStep, OnFailure)> = Vec::new();
    steps.push((WriteStep::LoadParent, OnFailure::RollBack));
    steps.push((WriteStep::CheckParent, OnFailure::RollBack));
    steps.push((WriteStep::LoadParentBacklog, OnFailure::RollBack));
    steps.push((WriteStep::ResolveSource, OnFailure::RollBack));
    steps.push((WriteStep::CheckNoExternalBody, OnFailure::RollBack));
    steps.push((WriteStep::CheckFormalWork, OnFailure::RollBack));
    steps.push((WriteStep::NextChildWorkItemId, OnFailure::RollBack));
    steps.push((WriteStep::CreateChild, OnFailure::RollBack));
    steps.push((WriteStep::CreateChildWorkItem, OnFailure::RollBack));
    steps.push((WriteStep::AddToBacklog, OnFailure::RollBack));
    steps.push((WriteStep::TraceAndAudit, OnFailure::RollBack));
    steps.push((WriteStep::EnqueueOutbox, OnFailure::RollBack));
    steps.push((WriteStep::MarkStale, OnFailure::RollBack));
    steps.push((WriteStep::NextResultId, OnFailure::Return));
    proof {
        assert(steps@ =~= seq![(WriteStep::LoadParent, OnFailure::RollBack), (WriteStep::CheckParent, OnFailure::RollBack), (WriteStep::LoadParentBacklog, OnFailure::RollBack), (WriteStep::ResolveSource, OnFailure::RollBack), (WriteStep::CheckNoExternalBody, OnFailure::RollBack), (WriteStep::CheckFormalWork, OnFailure::RollBack), (WriteStep::NextChildWorkItemId, OnFailure::RollBack), (WriteStep::CreateChild, OnFailure::RollBack), (WriteStep::CreateChildWorkItem, OnFailure::RollBack), (WriteStep::AddToBacklog, OnFailure::RollBack), (WriteStep::TraceAndAudit, OnFailure::RollBack), (WriteStep::EnqueueOutbox, OnFailure::RollBack), (WriteStep::MarkStale, OnFailure::RollBack), (WriteStep::NextResultId, OnFailure::Return)]);
    }
    steps
}

/// Moving formal work through its lifecycle: a child reads its root item for the project and assignee; completing checks its evidence first.
pub open spec fn update_work_lifecycle_plan(child: bool, completion: bool) -> Seq<(WriteStep, OnFailure)> {
    if child {
        if completion {
            seq![(WriteStep::LoadWork, OnFailure::RollBack), (WriteStep::ReadParent, OnFailure::Return), (WriteStep::CheckParentIsRoot, OnFailure::RollBack), (WriteStep::LoadParentBacklog, OnFailure::RollBack), (WriteStep::CheckEvidenceGiven, OnFailure::RollBack), (WriteStep::ResolveEvidence, OnFailure::RollBack), (WriteStep::CheckCompletionEvidence, OnFailure::RollBack), (WriteStep::TransitionWork, OnFailure::RollBack), (WriteStep::SaveWork, OnFailure::RollBack), (WriteStep::TraceAndAudit, OnFailure::RollBack), (WriteStep::EnqueueOutbox, OnFailure::RollBack), (WriteStep::MarkStale, OnFailure::RollBack), (WriteStep::NextResultId, OnFailure::Return)]
        } else {
            seq![(WriteStep::LoadWork, OnFailure::RollBack), (WriteStep::ReadParent, OnFailure::Return), (WriteStep::CheckParentIsRoot, OnFailure::RollBack), (WriteStep::LoadParentBacklog, OnFailure::RollBack), (WriteStep::TransitionWork, OnFailure::RollBack), (WriteStep::SaveWork, OnFailure::RollBack), (WriteStep::TraceAndAudit, OnFailure::RollBack), (WriteStep::EnqueueOutbox, OnFailure::RollBack), (WriteStep::MarkStale, OnFailure::RollBack), (WriteStep::NextResultId, OnFailure::Return)]
        }
    } else {
        if completion {
            seq![(WriteStep::LoadWork, OnFailure::RollBack), (WriteStep::LoadWorkBacklog, OnFailure::RollBack), (WriteStep::CheckEvidenceGiven, OnFailure::RollBack), (WriteStep::ResolveEvidence, OnFailure::RollBack), (WriteStep::CheckCompletionEvidence, OnFailure::RollBack), (WriteStep::TransitionWork, OnFailure::RollBack), (WriteStep::SaveWork, OnFailure::RollBack), (WriteStep::TraceAndAudit, OnFailure::RollBack), (WriteStep::EnqueueOutbox, OnFailure::RollBack), (WriteStep::MarkStale, OnFailure::RollBack), (WriteStep::NextResultId, OnFailure::Return)]
        } else {
            seq![(WriteStep::LoadWork, OnFailure::RollBack), (WriteStep::LoadWorkBacklog, OnFailure::RollBack), (WriteStep::TransitionWork, OnFailure::RollBack), (WriteStep::SaveWork, OnFailure::RollBack), (WriteStep::TraceAndAudit, OnFailure::RollBack), (WriteStep::EnqueueOutbox, OnFailure::RollBack), (WriteStep::MarkStale, OnFailure::RollBack), (WriteStep::NextResultId, OnFailure::Return)]
        }
    }
}

/// The steps of update work lifecycle.
pub fn update_work_lifecycle_steps(child: bool, completion: bool) -> (r: Vec<(WriteStep, OnFailure)>)
    ensures
        r@ == update_work_lifecycle_plan(child, completion),
{
    if child {
        if completion {
            let mut steps: Vec<(WriteStep, OnFailure)> = Vec::new();
            steps.push((WriteStep::LoadWork, OnFailure::RollBack));
            steps.push((WriteStep::ReadParent, OnFailure::Return));
            steps.push((WriteStep::CheckParentIsRoot, OnFailure::RollBack));
            steps.push((WriteStep::LoadParentBacklog, OnFailure::RollBack));
            steps.push((WriteStep::CheckEvidenceGiven, OnFailure::RollBack));
            steps.push((WriteStep::ResolveEvidence, OnFailure::RollBack));
            steps.push((WriteStep::CheckCompletionEvidence, OnFailure::RollBack));
            steps.push((WriteStep::TransitionWork, OnFailure::RollBack));
            steps.push((WriteStep::SaveWork, OnFailure::RollBack));
            steps.push((WriteStep::TraceAndAudit, OnFailure::RollBack));
            steps.push((WriteStep::EnqueueOutbox, OnFailure::RollBack));
            steps.push((WriteStep::MarkStale, OnFailure::RollBack));
            steps.push((WriteStep::NextResultId, OnFailure::Return));
            proof {
                assert(steps@ =~= seq![(WriteStep::LoadWork, OnFailure::RollBack), (WriteStep::ReadParent, OnFailure::Return), (WriteStep::CheckParentIsRoot, OnFailure::RollBack), (WriteStep::LoadParentBacklog, OnFailure::RollBack), (WriteStep::CheckEvidenceGiven, OnFailure::RollBack), (WriteStep::ResolveEvidence, OnFailure::RollBack), (WriteStep::CheckCompletionEvidence, OnFailure::RollBack), (WriteStep::TransitionWork, OnFailure::RollBack), (WriteStep::SaveWork, OnFailure::RollBack), (WriteStep::TraceAndAudit, OnFailure::RollBack), (WriteStep::EnqueueOutbox, OnFailure::RollBack), (WriteStep::MarkStale, OnFailure::RollBack), (WriteStep::NextResultId, OnFailure::Return)]);
            }
            steps
        } else {
            let mut steps: Vec<(WriteStep, OnFailure)> = Vec::new();
            steps.push((WriteStep::LoadWork, OnFailure::RollBack));
            steps.push((WriteStep::ReadParent, OnFailure::Return));
            steps.push((WriteStep::CheckParentIsRoot, OnFailure::RollBack));
            steps.push((WriteStep::LoadParentBacklog, OnFailure::RollBack));
            steps.push((WriteStep::TransitionWork, OnFailure::RollBack));
            steps.push((WriteStep::SaveWork, OnFailure::RollBack));
            steps.push((WriteStep::TraceAndAudit, OnFailure::RollBack));
            steps.push((WriteStep::EnqueueOutbox, OnFailure::RollBack));
            steps.push((WriteStep::MarkStale, OnFailure::RollBack));
            steps.push((WriteStep::NextResultId, OnFailure::Return));
            proof {
                assert(steps@ =~= seq![(WriteStep::LoadWork, OnFailure::RollBack), (WriteStep::ReadParent, OnFailure::Return), (WriteStep::CheckParentIsRoot, OnFailure::RollBack), (WriteStep::LoadParentBacklog, OnFailure::RollBack), (WriteStep::TransitionWork, OnFailure::RollBack), (WriteStep::SaveWork, OnFailure::RollBack), (WriteStep::TraceAndAudit, OnFailure::RollBack), (WriteStep::EnqueueOutbox, OnFailure::RollBack), (WriteStep::MarkStale, OnFailure::RollBack), (WriteStep::NextResultId, OnFailure::Return)]);
            }
            steps
        }
    } else {
        if completion {
            let mut steps: Vec<(WriteStep, OnFailure)> = Vec::new();
            steps.push((WriteStep::LoadWork, OnFailure::RollBack));
            steps.push((WriteStep::LoadWorkBacklog, OnFailure::RollBack));
            steps.push((WriteStep::CheckEvidenceGiven, OnFailure::RollBack));
            steps.push((WriteStep::ResolveEvidence, OnFailure::RollBack));
            steps.push((WriteStep::CheckCompletionEvidence, OnFailure::RollBack));
            steps.push((WriteStep::TransitionWork, OnFailure::RollBack));
            steps.push((WriteStep::SaveWork, OnFailure::RollBack));
            steps.push((WriteStep::TraceAndAudit, OnFailure::RollBack));
            steps.push((WriteStep::EnqueueOutbox, OnFailure::RollBack));
            steps.push((WriteStep::MarkStale, OnFailure::RollBack));
            steps.push((WriteStep::NextResultId, OnFailure::Return));
            proof {
                assert(steps@ =~= seq![(WriteStep::LoadWork, OnFailure::RollBack), (WriteStep::LoadWorkBacklog, OnFailure::RollBack), (WriteStep::CheckEvidenceGiven, OnFailure::RollBack), (WriteStep::ResolveEvidence, OnFailure::RollBack), (WriteStep::CheckCompletionEvidence, OnFailure::RollBack), (WriteStep::TransitionWork, OnFailure::RollBack), (WriteStep::SaveWork, OnFailure::RollBack), (WriteStep::TraceAndAudit, OnFailure::RollBack), (WriteStep::EnqueueOutbox, OnFailure::RollBack), (WriteStep::MarkStale, OnFailure::RollBack), (WriteStep::NextResultId, OnFailure::Return)]);
            }
            steps
        } else {
            let mut steps: Vec<(WriteStep, OnFailure)> = Vec::new();
            steps.push((WriteStep::LoadWork, OnFailure::RollBack));
            steps.push((WriteStep::LoadWorkBacklog, OnFailure::RollBack));
            steps.push((WriteStep::TransitionWork, OnFailure::RollBack));
            steps.push((WriteStep::SaveWork, OnFailure::RollBack));
            steps.push((WriteStep::TraceAndAudit, OnFailure::RollBack));
            steps.push((WriteStep::EnqueueOutbox, OnFailure::RollBack));
            steps.push((WriteStep::MarkStale, OnFailure::RollBack));
            steps.push((WriteStep::NextResultId, OnFailure::Return));
            proof {
                assert(steps@ =~= seq![(WriteStep::LoadWork, OnFailure::RollBack), (WriteStep::LoadWorkBacklog, OnFailure::RollBack), (WriteStep::TransitionWork, OnFailure::RollBack), (WriteStep::SaveWork, OnFailure::RollBack), (WriteStep::TraceAndAudit, OnFailure::RollBack), (WriteStep::EnqueueOutbox, OnFailure::RollBack), (WriteStep::MarkStale, OnFailure::RollBack), (WriteStep::NextResultId, OnFailure::Return)]);
            }
            steps
        }
    }
}

/// Linking two formal work records; only existence and graph checks roll back.
pub open spec fn link_dependency_plan() -> Seq<(WriteStep, OnFailure)> {
    seq![(WriteStep::EnsureUpstreamWork, OnFailure::RollBack), (WriteStep::EnsureDownstreamWork, OnFailure::RollBack), (WriteStep::LoadDownstreamScope, OnFailure::Return), (WriteStep::LoadGraph, OnFailure::Return), (WriteStep::CheckGraphProject, OnFailure::RollBack), (WriteStep::CheckCanLink, OnFailure::RollBack), (WriteStep::NextDependencyId, OnFailure::Return), (WriteStep::LinkDependency, OnFailure::Return), (WriteStep::ActivateDependency, OnFailure::Return), (WriteStep::CreateDependency, OnFailure::Return), (WriteStep::NextChangeId, OnFailure::Return), (WriteStep::BuildChangeRecord, OnFailure::Return), (WriteStep::AppendChange, OnFailure::Return), (WriteStep::TraceAndAudit, OnFailure::Return), (WriteStep::EnqueueOutbox, OnFailure::Return), (WriteStep::MarkStale, OnFailure::Return), (WriteStep::NextResultId, OnFailure::Return)]
}

/// The steps of link dependency.
pub fn link_dependency_steps() -> (r: Vec<(WriteStep, OnFailure)>)
    ensures
        r@ == link_dependency_plan(),
{
    let mut steps: Vec<(WriteStep, OnFailure)> = Vec::new();
    steps.push((WriteStep::EnsureUpstreamWork, OnFailure::RollBack));
    steps.push((WriteStep::EnsureDownstreamWork, OnFailure::RollBack));
    steps.push((WriteStep::LoadDownstreamScope, OnFailure::Return));
    steps.push((WriteStep::LoadGraph, OnFailure::Return));
    steps.push((WriteStep::CheckGraphProject, OnFailure::RollBack));
    steps.push((WriteStep::CheckCanLink, OnFailure::RollBack));
    steps.push((WriteStep::NextDependencyId, OnFailure::Return));
    steps.push((WriteStep::LinkDependency, OnFailure::Return));
    steps.push((WriteStep::ActivateDependency, OnFailure::Return));
    steps.push((WriteStep::CreateDependency, OnFailure::Return));
    steps.push((WriteStep::NextChangeId, OnFailure::Return));
    steps.push((WriteStep::BuildChangeRecord, OnFailure::Return));
    steps.push((WriteStep::AppendChange, OnFailure::Return));
    steps.push((WriteStep::TraceAndAudit, OnFailure::Return));
    steps.push((WriteStep::EnqueueOutbox, OnFailure::Return));
    steps.push((WriteStep::MarkStale, OnFailure::Return));
    steps.push((WriteStep::NextResultId, OnFailure::Return));
    proof {
        assert(steps@ =~= seq![(WriteStep::EnsureUpstreamWork, OnFailure::RollBack), (WriteStep::EnsureDownstreamWork, OnFailure::RollBack), (WriteStep::LoadDownstreamScope, OnFailure::Return), (WriteStep::LoadGraph, OnFailure::Return), (WriteStep::CheckGraphProject, OnFailure::RollBack), (WriteStep::CheckCanLink, OnFailure::RollBack), (WriteStep::NextDependencyId, OnFailure::Return), (WriteStep::LinkDependency, OnFailure::Return), (WriteStep::ActivateDependency, OnFailure::Return), (WriteStep::CreateDependency, OnFailure::Return), (WriteStep::NextChangeId, OnFailure::Return), (WriteStep::BuildChangeRecord, OnFailure::Return), (WriteStep::AppendChange, OnFailure::Return), (WriteStep::TraceAndAudit, OnFailure::Return), (WriteStep::EnqueueOutbox, OnFailure::Return), (WriteStep::MarkStale, OnFailure::Return), (WriteStep::NextResultId, OnFailure::Return)]);
    }
    steps
}

/// Moving a dependency between states; only the plan, existence, graph and evidence checks roll back.
pub open spec fn update_dependency_state_plan(target: DependencyTarget) -> Seq<(WriteStep, OnFailure)> {
    match target {
        DependencyTarget::Active => seq![(WriteStep::LoadDependency, OnFailure::Return), (WriteStep::LoadDownstreamScope, OnFailure::Return), (WriteStep::CheckDependencyPlan, OnFailure::RollBack), (WriteStep::EnsureUpstreamWork, OnFailure::RollBack), (WriteStep::EnsureDownstreamWork, OnFailure::RollBack), (WriteStep::LoadGraph, OnFailure::Return), (WriteStep::CheckGraphProject, OnFailure::RollBack), (WriteStep::CheckTransitionAllowed, OnFailure::RollBack), (WriteStep::ActivateDependency, OnFailure::Return), (WriteStep::SaveDependency, OnFailure::Return), (WriteStep::NextChangeId, OnFailure::Return), (WriteStep::BuildChangeRecord, OnFailure::Return), (WriteStep::AppendChange, OnFailure::Return), (WriteStep::TraceAndAudit, OnFailure::Return), (WriteStep::EnqueueOutbox, OnFailure::Return), (WriteStep::MarkStale, OnFailure::Return), (WriteStep::NextResultId, OnFailure::Return)],
        DependencyTarget::Satisfied => seq![(WriteStep::LoadDependency, OnFailure::Return), (WriteStep::LoadDownstreamScope, OnFailure::Return), (WriteStep::CheckDependencyPlan, OnFailure::RollBack), (WriteStep::ResolveEvidence, OnFailure::Return), (WriteStep::CheckEvidenceVerified, OnFailure::RollBack), (WriteStep::CheckCompletionEvidence, OnFailure::Return), (WriteStep::SatisfyDependency, OnFailure::Return), (WriteStep::SaveDependency, OnFailure::Return), (WriteStep::NextChangeId, OnFailure::Return), (WriteStep::BuildChangeRecord, OnFailure::Return), (WriteStep::AppendChange, OnFailure::Return), (WriteStep::TraceAndAudit, OnFailure::Return), (WriteStep::EnqueueOutbox, OnFailure::Return), (WriteStep::MarkStale, OnFailure::Return), (WriteStep::NextResultId, OnFailure::Return)],
        DependencyTarget::Waived => seq![(WriteStep::LoadDependency, OnFailure::Return), (WriteStep::LoadDownstreamScope, OnFailure::Return), (WriteStep::CheckDependencyPlan, OnFailure::RollBack), (WriteStep::WaiveDependency, OnFailure::Return), (WriteStep::SaveDependency, OnFailure::Return), (WriteStep::NextChangeId, OnFailure::Return), (WriteStep::BuildChangeRecord, OnFailure::Return), (WriteStep::AppendChange, OnFailure::Return), (WriteStep::TraceAndAudit, OnFailure::Return), (WriteStep::EnqueueOutbox, OnFailure::Return), (WriteStep::MarkStale, OnFailure::Return), (WriteStep::NextResultId, OnFailure::Return)],
        DependencyTarget::Cancelled => seq![(WriteStep::LoadDependency, OnFailure::Return), (WriteStep::LoadDownstreamScope, OnFailure::Return), (WriteStep::CheckDependencyPlan, OnFailure::RollBack), (WriteStep::CancelDependency, OnFailure::Return), (WriteStep::SaveDependency, OnFailure::Return), (WriteStep::NextChangeId, OnFailure::Return), (WriteStep::BuildChangeRecord, OnFailure::Return), (WriteStep::AppendChange, OnFailure::Return), (WriteStep::TraceAndAudit, OnFailure::Return), (WriteStep::EnqueueOutbox, OnFailure::Return), (WriteStep::MarkStale, OnFailure::Return), (WriteStep::NextResultId, OnFailure::Return)],
    }
}

/// The steps of update dependency state.
pub fn update_dependency_state_steps(target: DependencyTarget) -> (r: Vec<(WriteStep, OnFailure)>)
    ensures
        r@ == update_dependency_state_plan(target),
{
    match target {
        DependencyTarget::Active => {
            let mut steps: Vec<(WriteStep, OnFailure)> = Vec::new();
            steps.push((WriteStep::LoadDependency, OnFailure::Return));
            steps.push((WriteStep::LoadDownstreamScope, OnFailure::Return));
            steps.push((WriteStep::CheckDependencyPlan, OnFailure::RollBack));
            steps.push((WriteStep::EnsureUpstreamWork, OnFailure::RollBack));
            steps.push((WriteStep::EnsureDownstreamWork, OnFailure::RollBack));
            steps.push((WriteStep::LoadGraph, OnFailure::Return));
            steps.push((WriteStep::CheckGraphProject, OnFailure::RollBack));
            steps.push((WriteStep::CheckTransitionAllowed, OnFailure::RollBack));
            steps.push((WriteStep::ActivateDependency, OnFailure::Return));
            steps.push((WriteStep::SaveDependency, OnFailure::Return));
            steps.push((WriteStep::NextChangeId, OnFailure::Return));
            steps.push((WriteStep::BuildChangeRecord, OnFailure::Return));
            steps.push((WriteStep::AppendChange, OnFailure::Return));
            steps.push((WriteStep::TraceAndAudit, OnFailure::Return));
            steps.push((WriteStep::EnqueueOutbox, OnFailure::Return));
            steps.push((WriteStep::MarkStale, OnFailure::Return));
            steps.push((WriteStep::NextResultId, OnFailure::Return));
            proof {
                assert(steps@ =~= seq![(WriteStep::LoadDependency, OnFailure::Return), (WriteStep::LoadDownstreamScope, OnFailure::Return), (WriteStep::CheckDependencyPlan, OnFailure::RollBack), (WriteStep::EnsureUpstreamWork, OnFailure::RollBack), (WriteStep::EnsureDownstreamWork, OnFailure::RollBack), (WriteStep::LoadGraph, OnFailure::Return), (WriteStep::CheckGraphProject, OnFailure::RollBack), (WriteStep::CheckTransitionAllowed, OnFailure::RollBack), (WriteStep::ActivateDependency, OnFailure::Return), (WriteStep::SaveDependency, OnFailure::Return), (WriteStep::NextChangeId, OnFailure::Return), (WriteStep::BuildChangeRecord, OnFailure::Return), (WriteStep::AppendChange, OnFailure::Return), (WriteStep::TraceAndAudit, OnFailure::Return), (WriteStep::EnqueueOutbox, OnFailure::Return), (WriteStep::MarkStale, OnFailure::Return), (WriteStep::NextResultId, OnFailure::Return)]);
            }
            steps
        },
        DependencyTarget::Satisfied => {
            let mut steps: Vec<(WriteStep, OnFailure)> = Vec::new();
            steps.push((WriteStep::LoadDependency, OnFailure::Return));
            steps.push((WriteStep::LoadDownstreamScope, OnFailure::Return));
            steps.push((WriteStep::CheckDependencyPlan, OnFailure::RollBack));
            steps.push((WriteStep::ResolveEvidence, OnFailure::Return));
            steps.push((WriteStep::CheckEvidenceVerified, OnFailure::RollBack));
            steps.push((WriteStep::CheckCompletionEvidence, OnFailure::Return));
            steps.push((WriteStep::SatisfyDependency, OnFailure::Return));
            steps.push((WriteStep::SaveDependency, OnFailure::Return));
            steps.push((WriteStep::NextChangeId, OnFailure::Return));
            steps.push((WriteStep::BuildChangeRecord, OnFailure::Return));
            steps.push((WriteStep::AppendChange, OnFailure::Return));
            steps.push((WriteStep::TraceAndAudit, OnFailure::Return));
            steps.push((WriteStep::EnqueueOutbox, OnFailure::Return));
            steps.push((WriteStep::MarkStale, OnFailure::Return));
            steps.push((WriteStep::NextResultId, OnFailure::Return));
            proof {
                assert(steps@ =~= seq![(WriteStep::LoadDependency, OnFailure::Return), (WriteStep::LoadDownstreamScope, OnFailure::Return), (WriteStep::CheckDependencyPlan, OnFailure::RollBack), (WriteStep::ResolveEvidence, OnFailure::Return), (WriteStep::CheckEvidenceVerified, OnFailure::RollBack), (WriteStep::CheckCompletionEvidence, OnFailure::Return), (WriteStep::SatisfyDependency, OnFailure::Return), (WriteStep::SaveDependency, OnFailure::Return), (WriteStep::NextChangeId, OnFailure::Return), (WriteStep::BuildChangeRecord, OnFailure::Return), (WriteStep::AppendChange, OnFailure::Return), (WriteStep::TraceAndAudit, OnFailure::Return), (WriteStep::EnqueueOutbox, OnFailure::Return), (WriteStep::MarkStale, OnFailure::Return), (WriteStep::NextResultId, OnFailure::Return)]);
            }
            steps
        },
        DependencyTarget::Waived => {
            let mut steps: Vec<(WriteStep, OnFailure)> = Vec::new();
            steps.push((WriteStep::LoadDependency, OnFailure::Return));
            steps.push((WriteStep::LoadDownstreamScope, OnFailure::Return));
            steps.push((WriteStep::CheckDependencyPlan, OnFailure::RollBack));
            steps.push((WriteStep::WaiveDependency, OnFailure::Return));
            steps.push((WriteStep::SaveDependency, OnFailure::Return));
            steps.push((WriteStep::NextChangeId, OnFailure::Return));
            steps.push((WriteStep::BuildChangeRecord, OnFailure::Return));
            steps.push((WriteStep::AppendChange, OnFailure::Return));
            steps.push((WriteStep::TraceAndAudit, OnFailure::Return));
            steps.push((WriteStep::EnqueueOutbox, OnFailure::Return));
            steps.push((WriteStep::MarkStale, OnFailure::Return));
            steps.push((WriteStep::NextResultId, OnFailure::Return));
            proof {
                assert(steps@ =~= seq![(WriteStep::LoadDependency, OnFailure::Return), (WriteStep::LoadDownstreamScope, OnFailure::Return), (WriteStep::CheckDependencyPlan, OnFailure::RollBack), (WriteStep::WaiveDependency, OnFailure::Return), (WriteStep::SaveDependency, OnFailure::Return), (WriteStep::NextChangeId, OnFailure::Return), (WriteStep::BuildChangeRecord, OnFailure::Return), (WriteStep::AppendChange, OnFailure::Return), (WriteStep::TraceAndAudit, OnFailure::Return), (WriteStep::EnqueueOutbox, OnFailure::Return), (WriteStep::MarkStale, OnFailure::Return), (WriteStep::NextResultId, OnFailure::Return)]);
            }
            steps
        },
        DependencyTarget::Cancelled => {
            let mut steps: Vec<(WriteStep, OnFailure)> = Vec::new();
            steps.push((WriteStep::LoadDependency, OnFailure::Return));
            steps.push((WriteStep::LoadDownstreamScope, OnFailure::Return));
            steps.push((WriteStep::CheckDependencyPlan, OnFailure::RollBack));
            steps.push((WriteStep::CancelDependency, OnFailure::Return));
            steps.push((WriteStep::SaveDependency, OnFailure::Return));
            steps.push((WriteStep::NextChangeId, OnFailure::Return));
            steps.push((WriteStep::BuildChangeRecord, OnFailure::Return));
            steps.push((WriteStep::AppendChange, OnFailure::Return));
            steps.push((WriteStep::TraceAndAudit, OnFailure::Return));
            steps.push((WriteStep::EnqueueOutbox, OnFailure::Return));
            steps.push((WriteStep::MarkStale, OnFailure::Return));
            steps.push((WriteStep::NextResultId, OnFailure::Return));
            proof {
                assert(steps@ =~= seq![(WriteStep::LoadDependency, OnFailure::Return), (WriteStep::LoadDownstreamScope, OnFailure::Return), (WriteStep::CheckDependencyPlan, OnFailure::RollBack), (WriteStep::CancelDependency, OnFailure::Return), (WriteStep::SaveDependency, OnFailure::Return), (WriteStep::NextChangeId, OnFailure::Return), (WriteStep::BuildChangeRecord, OnFailure::Return), (WriteStep::AppendChange, OnFailure::Return), (WriteStep::TraceAndAudit, OnFailure::Return), (WriteStep::EnqueueOutbox, OnFailure::Return), (WriteStep::MarkStale, OnFailure::Return), (WriteStep::NextResultId, OnFailure::Return)]);
            }
            steps
        },
    }
}

/// Opening a blocker on formal work; only the existence check rolls back.
pub open spec fn open_blocker_plan() -> Seq<(WriteStep, OnFailure)> {
    seq![(WriteStep::EnsureBlockedWork, OnFailure::RollBack), (WriteStep::LoadBlockedScope, OnFailure::Return), (WriteStep::NextBlockerId, OnFailure::Return), (WriteStep::OpenBlocker, OnFailure::Return), (WriteStep::CreateBlocker, OnFailure::Return), (WriteStep::NextChangeId, OnFailure::Return), (WriteStep::BuildChangeRecord, OnFailure::Return), (WriteStep::AppendChange, OnFailure::Return), (WriteStep::TraceAndAudit, OnFailure::Return), (WriteStep::EnqueueOutbox, OnFailure::Return), (WriteStep::MarkStale, OnFailure::Return), (WriteStep::NextResultId, OnFailure::Return)]
}

/// The steps of open blocker.
pub fn open_blocker_steps() -> (r: Vec<(WriteStep, OnFailure)>)
    ensures
        r@ == open_blocker_plan(),
{
    let mut steps: Vec<(WriteStep, OnFailure)> = Vec::new();
    steps.push((WriteStep::EnsureBlockedWork, OnFailure::RollBack));
    steps.push((WriteStep::LoadBlockedScope, OnFailure::Return));
    steps.push((WriteStep::NextBlockerId, OnFailure::Return));
    steps.push((WriteStep::OpenBlocker, OnFailure::Return));
    steps.push((WriteStep::CreateBlocker, OnFailure::Return));
    steps.push((WriteStep::NextChangeId, OnFailure::Return));
    steps.push((WriteStep::BuildChangeRecord, OnFailure::Return));
    steps.push((WriteStep::AppendChange, OnFailure::Return));
    steps.push((WriteStep::TraceAndAudit, OnFailure::Return));
    steps.push((WriteStep::EnqueueOutbox, OnFailure::Return));
    steps.push((WriteStep::MarkStale, OnFailure::Return));
    steps.push((WriteStep::NextResultId, OnFailure::Return));
    proof {
        assert(steps@ =~= seq![(WriteStep::EnsureBlockedWork, OnFailure::RollBack), (WriteStep::LoadBlockedScope, OnFailure::Return), (WriteStep::NextBlockerId, OnFailure::Return), (WriteStep::OpenBlocker, OnFailure::Return), (WriteStep::CreateBlocker, OnFailure::Return), (WriteStep::NextChangeId, OnFailure::Return), (WriteStep::BuildChangeRecord, OnFailure::Return), (WriteStep::AppendChange, OnFailure::Return), (WriteStep::TraceAndAudit, OnFailure::Return), (WriteStep::EnqueueOutbox, OnFailure::Return), (WriteStep::MarkStale, OnFailure::Return), (WriteStep::NextResultId, OnFailure::Return)]);
    }
    steps
}

/// Resolving a blocker with evidence; only the evidence check rolls back.
pub open spec fn resolve_blocker_plan() -> Seq<(WriteStep, OnFailure)> {
    seq![(WriteStep::LoadBlocker, OnFailure::Return), (WriteStep::LoadBlockedScope, OnFailure::Return), (WriteStep::ResolveEvidence, OnFailure::Return), (WriteStep::CheckEvidenceVerified, OnFailure::RollBack), (WriteStep::CheckCompletionEvidence, OnFailure::Return), (WriteStep::ResolveBlocker, OnFailure::Return), (WriteStep::SaveBlocker, OnFailure::Return), (WriteStep::NextChangeId, OnFailure::Return), (WriteStep::BuildChangeRecord, OnFailure::Return), (WriteStep::AppendChange, OnFailure::Return), (WriteStep::TraceAndAudit, OnFailure::Return), (WriteStep::EnqueueOutbox, OnFailure::Return), (WriteStep::MarkStale, OnFailure::Return), (WriteStep::NextResultId, OnFailure::Return)]
}

/// The steps of resolve blocker.
pub fn resolve_blocker_steps() -> (r: Vec<(WriteStep, OnFailure)>)
    ensures
        r@ == resolve_blocker_plan(),
{
    let mut steps: Vec<(WriteStep, OnFailure)> = Vec::new();
    steps.push((WriteStep::LoadBlocker, OnFailure::Return));
    steps.push((WriteStep::LoadBlockedScope, OnFailure::Return));
    steps.push((WriteStep::ResolveEvidence, OnFailure::Return));
    steps.push((WriteStep::CheckEvidenceVerified, OnFailure::RollBack));
    steps.push((WriteStep::CheckCompletionEvidence, OnFailure::Return));
    steps.push((WriteStep::ResolveBlocker, OnFailure::Return));
    steps.push((WriteStep::SaveBlocker, OnFailure::Return));
    steps.push((WriteStep::NextChangeId, OnFailure::Return));
    steps.push((WriteStep::BuildChangeRecord, OnFailure::Return));
    steps.push((WriteStep::AppendChange, OnFailure::Return));
    steps.push((WriteStep::TraceAndAudit, OnFailure::Return));
    steps.push((WriteStep::EnqueueOutbox, OnFailure::Return));
    steps.push((WriteStep::MarkStale, OnFailure::Return));
    steps.push((WriteStep::NextResultId, OnFailure::Return));
    proof {
        assert(steps@ =~= seq![(WriteStep::LoadBlocker, OnFailure::Return), (WriteStep::LoadBlockedScope, OnFailure::Return), (WriteStep::ResolveEvidence, OnFailure::Return), (WriteStep::CheckEvidenceVerified, OnFailure::RollBack), (WriteStep::CheckCompletionEvidence, OnFailure::Return), (WriteStep::ResolveBlocker, OnFailure::Return), (WriteStep::SaveBlocker, OnFailure::Return), (WriteStep::NextChangeId, OnFailure::Return), (WriteStep::BuildChangeRecord, OnFailure::Return), (WriteStep::AppendChange, OnFailure::Return), (WriteStep::TraceAndAudit, OnFailure::Return), (WriteStep::EnqueueOutbox, OnFailure::Return), (WriteStep::MarkStale, OnFailure::Return), (WriteStep::NextResultId, OnFailure::Return)]);
    }
    steps
}

/// Opening an iteration on a process timebox; only the project state check rolls back.
pub open spec fn open_iteration_plan() -> Seq<(WriteStep, OnFailure)> {
    seq![(WriteStep::LoadProject, OnFailure::Return), (WriteStep::CheckProjectActive, OnFailure::RollBack), (WriteStep::ResolveTimebox, OnFailure::Return), (WriteStep::CheckTimeboxBinding, OnFailure::Return), (WriteStep::NextIterationId, OnFailure::Return), (WriteStep::OpenIteration, OnFailure::Return), (WriteStep::CreateIteration, OnFailure::Return), (WriteStep::TraceAndAudit, OnFailure::Return), (WriteStep::EnqueueOutbox, OnFailure::Return), (WriteStep::MarkStale, OnFailure::Return), (WriteStep::NextResultId, OnFailure::Return)]
}

/// The steps of open iteration.
pub fn open_iteration_steps() -> (r: Vec<(WriteStep, OnFailure)>)
    ensures
        r@ == open_iteration_plan(),
{
    let mut steps: Vec<(WriteStep, OnFailure)> = Vec::new();
    steps.push((WriteStep::LoadProject, OnFailure::Return));
    steps.push((WriteStep::CheckProjectActive, OnFailure::RollBack));
    steps.push((WriteStep::ResolveTimebox, OnFailure::Return));
    steps.push((WriteStep::CheckTimeboxBinding, OnFailure::Return));
    steps.push((WriteStep::NextIterationId, OnFailure::Return));
    steps.push((WriteStep::OpenIteration, OnFailure::Return));
    steps.push((WriteStep::CreateIteration, OnFailure::Return));
    steps.push((WriteStep::TraceAndAudit, OnFailure::Return));
    steps.push((WriteStep::EnqueueOutbox, OnFailure::Return));
    steps.push((WriteStep::MarkStale, OnFailure::Return));
    steps.push((WriteStep::NextResultId, OnFailure::Return));
    proof {
        assert(steps@ =~= seq![(WriteStep::LoadProject, OnFailure::Return), (WriteStep::CheckProjectActive, OnFailure::RollBack), (WriteStep::ResolveTimebox, OnFailure::Return), (WriteStep::CheckTimeboxBinding, OnFailure::Return), (WriteStep::NextIterationId, OnFailure::Return), (WriteStep::OpenIteration, OnFailure::Return), (WriteStep::CreateIteration, OnFailure::Return), (WriteStep::TraceAndAudit, OnFailure::Return), (WriteStep::EnqueueOutbox, OnFailure::Return), (WriteStep::MarkStale, OnFailure::Return), (WriteStep::NextResultId, OnFailure::Return)]);
    }
    steps
}

/// Committing candidate work to an iteration; no failed step rolls back.
pub open spec fn commit_iteration_scope_plan() -> Seq<(WriteStep, OnFailure)> {
    seq![(WriteStep::LoadIteration, OnFailure::Return), (WriteStep::LoadBacklog, OnFailure::Return), (WriteStep::LoadCommitCandidates, OnFailure::Return), (WriteStep::CheckCommitmentAllowed, OnFailure::Return), (WriteStep::NextCommitmentId, OnFailure::Return), (WriteStep::BuildCommitment, OnFailure::Return), (WriteStep::CommitIteration, OnFailure::Return), (WriteStep::SaveIteration, OnFailure::Return), (WriteStep::SaveCommitment, OnFailure::Return), (WriteStep::MarkCandidatesCommitted, OnFailure::Return), (WriteStep::NextChangeId, OnFailure::Return), (WriteStep::BuildChangeRecord, OnFailure::Return), (WriteStep::AppendChange, OnFailure::Return), (WriteStep::TraceAndAudit, OnFailure::Return), (WriteStep::EnqueueOutbox, OnFailure::Return), (WriteStep::LoadAffectedAssignees, OnFailure::Return), (WriteStep::MarkStale, OnFailure::Return), (WriteStep::NextResultId, OnFailure::Return)]
}

/// The steps of commit iteration scope.
pub fn commit_iteration_scope_steps() -> (r: Vec<(WriteStep, OnFailure)>)
    ensures
        r@ == commit_iteration_scope_plan(),
{
    let mut steps: Vec<(WriteStep, OnFailure)> = Vec::new();
    steps.push((WriteStep::LoadIteration, OnFailure::Return));
    steps.push((WriteStep::LoadBacklog, OnFailure::Return));
    steps.push((WriteStep::LoadCommitCandidates, OnFailure::Return));
    steps.push((WriteStep::CheckCommitmentAllowed, OnFailure::Return));
    steps.push((WriteStep::NextCommitmentId, OnFailure::Return));
    steps.push((WriteStep::BuildCommitment, OnFailure::Return));
    steps.push((WriteStep::CommitIteration, OnFailure::Return));
    steps.push((WriteStep::SaveIteration, OnFailure::Return));
    steps.push((WriteStep::SaveCommitment, OnFailure::Return));
    steps.push((WriteStep::MarkCandidatesCommitted, OnFailure::Return));
    steps.push((WriteStep::NextChangeId, OnFailure::Return));
    steps.push((WriteStep::BuildChangeRecord, OnFailure::Return));
    steps.push((WriteStep::AppendChange, OnFailure::Return));
    steps.push((WriteStep::TraceAndAudit, OnFailure::Return));
    steps.push((WriteStep::EnqueueOutbox, OnFailure::Return));
    steps.push((WriteStep::LoadAffectedAssignees, OnFailure::Return));
    steps.push((WriteStep::MarkStale, OnFailure::Return));
    steps.push((WriteStep::NextResultId, OnFailure::Return));
    proof {
        assert(steps@ =~= seq![(WriteStep::LoadIteration, OnFailure::Return), (WriteStep::LoadBacklog, OnFailure::Return), (WriteStep::LoadCommitCandidates, OnFailure::Return), (WriteStep::CheckCommitmentAllowed, OnFailure::Return), (WriteStep::NextCommitmentId, OnFailure::Return), (WriteStep::BuildCommitment, OnFailure::Return), (WriteStep::CommitIteration, OnFailure::Return), (WriteStep::SaveIteration, OnFailure::Return), (WriteStep::SaveCommitment, OnFailure::Return), (WriteStep::MarkCandidatesCommitted, OnFailure::Return), (WriteStep::NextChangeId, OnFailure::Return), (WriteStep::BuildChangeRecord, OnFailure::Return), (WriteStep::AppendChange, OnFailure::Return), (WriteStep::TraceAndAudit, OnFailure::Return), (WriteStep::EnqueueOutbox, OnFailure::Return), (WriteStep::LoadAffectedAssignees, OnFailure::Return), (WriteStep::MarkStale, OnFailure::Return), (WriteStep::NextResultId, OnFailure::Return)]);
    }
    steps
}

/// Changing an iteration commitment; only the empty change check rolls back.
pub open spec fn update_iteration_commitment_plan() -> Seq<(WriteStep, OnFailure)> {
    seq![(WriteStep::CheckChangeSet, OnFailure::RollBack), (WriteStep::LoadIteration, OnFailure::Return), (WriteStep::LoadBacklog, OnFailure::Return), (WriteStep::LoadCommitment, OnFailure::Return), (WriteStep::ValidateAddedWork, OnFailure::Return), (WriteStep::ApplyCommitmentChange, OnFailure::Return), (WriteStep::SaveCommitment, OnFailure::Return), (WriteStep::NextChangeId, OnFailure::Return), (WriteStep::BuildChangeRecord, OnFailure::Return), (WriteStep::AppendChange, OnFailure::Return), (WriteStep::TraceAndAudit, OnFailure::Return), (WriteStep::EnqueueOutbox, OnFailure::Return), (WriteStep::LoadAffectedAssignees, OnFailure::Return), (WriteStep::MarkStale, OnFailure::Return), (WriteStep::NextResultId, OnFailure::Return)]
}

/// The steps of update iteration commitment.
pub fn update_iteration_commitment_steps() -> (r: Vec<(WriteStep, OnFailure)>)
    ensures
        r@ == update_iteration_commitment_plan(),
{
    let mut steps: Vec<(WriteStep, OnFailure)> = Vec::new();
    steps.push((WriteStep::CheckChangeSet, OnFailure::RollBack));
    steps.push((WriteStep::LoadIteration, OnFailure::Return));
    steps.push((WriteStep::LoadBacklog, OnFailure::Return));
    steps.push((WriteStep::LoadCommitment, OnFailure::Return));
    steps.push((WriteStep::ValidateAddedWork, OnFailure::Return));
    steps.push((WriteStep::ApplyCommitmentChange, OnFailure::Return));
    steps.push((WriteStep::SaveCommitment, OnFailure::Return));
    steps.push((WriteStep::NextChangeId, OnFailure::Return));
    steps.push((WriteStep::BuildChangeRecord, OnFailure::Return));
    steps.push((WriteStep::AppendChange, OnFailure::Return));
    steps.push((WriteStep::TraceAndAudit, OnFailure::Return));
    steps.push((WriteStep::EnqueueOutbox, OnFailure::Return));
    steps.push((WriteStep::LoadAffectedAssignees, OnFailure::Return));
    steps.push((WriteStep::MarkStale, OnFailure::Return));
    steps.push((WriteStep::NextResultId, OnFailure::Return));
    proof {
        assert(steps@ =~= seq![(WriteStep::CheckChangeSet, OnFailure::RollBack), (WriteStep::LoadIteration, OnFailure::Return), (WriteStep::LoadBacklog, OnFailure::Return), (WriteStep::LoadCommitment, OnFailure::Return), (WriteStep::ValidateAddedWork, OnFailure::Return), (WriteStep::ApplyCommitmentChange, OnFailure::Return), (WriteStep::SaveCommitment, OnFailure::Return), (WriteStep::NextChangeId, OnFailure::Return), (WriteStep::BuildChangeRecord, OnFailure::Return), (WriteStep::AppendChange, OnFailure::Return), (WriteStep::TraceAndAudit, OnFailure::Return), (WriteStep::EnqueueOutbox, OnFailure::Return), (WriteStep::LoadAffectedAssignees, OnFailure::Return), (WriteStep::MarkStale, OnFailure::Return), (WriteStep::NextResultId, OnFailure::Return)]);
    }
    steps
}

/// Moving an iteration through its lifecycle; no failed step rolls back.
pub open spec fn update_iteration_lifecycle_plan(target: IterationLifecycleTarget) -> Seq<(WriteStep, OnFailure)> {
    match target {
        IterationLifecycleTarget::InProgress => seq![(WriteStep::LoadIteration, OnFailure::Return), (WriteStep::CheckReasonShape, OnFailure::Return), (WriteStep::LoadCommitment, OnFailure::Return), (WriteStep::StartIteration, OnFailure::Return), (WriteStep::SaveIteration, OnFailure::Return), (WriteStep::TraceAndAudit, OnFailure::Return), (WriteStep::EnqueueOutbox, OnFailure::Return), (WriteStep::LoadAffectedAssignees, OnFailure::Return), (WriteStep::MarkStale, OnFailure::Return), (WriteStep::NextResultId, OnFailure::Return)],
        IterationLifecycleTarget::Closed => seq![(WriteStep::LoadIteration, OnFailure::Return), (WriteStep::CheckReasonShape, OnFailure::Return), (WriteStep::LoadCommitment, OnFailure::Return), (WriteStep::CloseIteration, OnFailure::Return), (WriteStep::CloseCommitment, OnFailure::Return), (WriteStep::SaveCommitment, OnFailure::Return), (WriteStep::SaveIteration, OnFailure::Return), (WriteStep::TraceAndAudit, OnFailure::Return), (WriteStep::EnqueueOutbox, OnFailure::Return), (WriteStep::LoadAffectedAssignees, OnFailure::Return), (WriteStep::MarkStale, OnFailure::Return), (WriteStep::NextResultId, OnFailure::Return)],
        IterationLifecycleTarget::Cancelled => seq![(WriteStep::LoadIteration, OnFailure::Return), (WriteStep::CheckReasonShape, OnFailure::Return), (WriteStep::LoadCommitment, OnFailure::Return), (WriteStep::CancelIteration, OnFailure::Return), (WriteStep::SaveIteration, OnFailure::Return), (WriteStep::TraceAndAudit, OnFailure::Return), (WriteStep::EnqueueOutbox, OnFailure::Return), (WriteStep::LoadAffectedAssignees, OnFailure::Return), (WriteStep::MarkStale, OnFailure::Return), (WriteStep::NextResultId, OnFailure::Return)],
    }
}

/// The steps of update iteration lifecycle.
pub fn update_iteration_lifecycle_steps(target: IterationLifecycleTarget) -> (r: Vec<(WriteStep, OnFailure)>)
    ensures
        r@ == update_iteration_lifecycle_plan(target),
{
    match target {
        IterationLifecycleTarget::InProgress => {
            let mut steps: Vec<(WriteStep, OnFailure)> = Vec::new();
            steps.push((WriteStep::LoadIteration, OnFailure::Return));
            steps.push((WriteStep::CheckReasonShape, OnFailure::Return));
            steps.push((WriteStep::LoadCommitment, OnFailure::Return));
            steps.push((WriteStep::StartIteration, OnFailure::Return));
            steps.push((WriteStep::SaveIteration, OnFailure::Return));
            steps.push((WriteStep::TraceAndAudit, OnFailure::Return));
            steps.push((WriteStep::EnqueueOutbox, OnFailure::Return));
            steps.push((WriteStep::LoadAffectedAssignees, OnFailure::Return));
            steps.push((WriteStep::MarkStale, OnFailure::Return));
            steps.push((WriteStep::NextResultId, OnFailure::Return));
            proof {
                assert(steps@ =~= seq![(WriteStep::LoadIteration, OnFailure::Return), (WriteStep::CheckReasonShape, OnFailure::Return), (WriteStep::LoadCommitment, OnFailure::Return), (WriteStep::StartIteration, OnFailure::Return), (WriteStep::SaveIteration, OnFailure::Return), (WriteStep::TraceAndAudit, OnFailure::Return), (WriteStep::EnqueueOutbox, OnFailure::Return), (WriteStep::LoadAffectedAssignees, OnFailure::Return), (WriteStep::MarkStale, OnFailure::Return), (WriteStep::NextResultId, OnFailure::Return)]);
            }
            steps
        },
        IterationLifecycleTarget::Closed => {
            let mut steps: Vec<(WriteStep, OnFailure)> = Vec::new();
            steps.push((WriteStep::LoadIteration, OnFailure::Return));
            steps.push((WriteStep::CheckReasonShape, OnFailure::Return));
            steps.push((WriteStep::LoadCommitment, OnFailure::Return));
            steps.push((WriteStep::CloseIteration, OnFailure::Return));
            steps.push((WriteStep::CloseCommitment, OnFailure::Return));
            steps.push((WriteStep::SaveCommitment, OnFailure::Return));
            steps.push((WriteStep::SaveIteration, OnFailure::Return));
            steps.push((WriteStep::TraceAndAudit, OnFailure::Return));
            steps.push((WriteStep::EnqueueOutbox, OnFailure::Return));
            steps.push((WriteStep::LoadAffectedAssignees, OnFailure::Return));
            steps.push((WriteStep::MarkStale, OnFailure::Return));
            steps.push((WriteStep::NextResultId, OnFailure::Return));
            proof {
                assert(steps@ =~= seq![(WriteStep::LoadIteration, OnFailure::Return), (WriteStep::CheckReasonShape, OnFailure::Return), (WriteStep::LoadCommitment, OnFailure::Return), (WriteStep::CloseIteration, OnFailure::Return), (WriteStep::CloseCommitment, OnFailure::Return), (WriteStep::SaveCommitment, OnFailure::Return), (WriteStep::SaveIteration, OnFailure::Return), (WriteStep::TraceAndAudit, OnFailure::Return), (WriteStep::EnqueueOutbox, OnFailure::Return), (WriteStep::LoadAffectedAssignees, OnFailure::Return), (WriteStep::MarkStale, OnFailure::Return), (WriteStep::NextResultId, OnFailure::Return)]);
            }
            steps
        },
        IterationLifecycleTarget::Cancelled => {
            let mut steps: Vec<(WriteStep, OnFailure)> = Vec::new();
            steps.push((WriteStep::LoadIteration, OnFailure::Return));
            steps.push((WriteStep::CheckReasonShape, OnFailure::Return));
            steps.push((WriteStep::LoadCommitment, OnFailure::Return));
            steps.push((WriteStep::CancelIteration, OnFailure::Return));
            steps.push((WriteStep::SaveIteration, OnFailure::Return));
            steps.push((WriteStep::TraceAndAudit, OnFailure::Return));
            steps.push((WriteStep::EnqueueOutbox, OnFailure::Return));
            steps.push((WriteStep::LoadAffectedAssignees, OnFailure::Return));
            steps.push((WriteStep::MarkStale, OnFailure::Return));
            steps.push((WriteStep::NextResultId, OnFailure::Return));
            proof {
                assert(steps@ =~= seq![(WriteStep::LoadIteration, OnFailure::Return), (WriteStep::CheckReasonShape, OnFailure::Return), (WriteStep::LoadCommitment, OnFailure::Return), (WriteStep::CancelIteration, OnFailure::Return), (WriteStep::SaveIteration, OnFailure::Return), (WriteStep::TraceAndAudit, OnFailure::Return), (WriteStep::EnqueueOutbox, OnFailure::Return), (WriteStep::LoadAffectedAssignees, OnFailure::Return), (WriteStep::MarkStale, OnFailure::Return), (WriteStep::NextResultId, OnFailure::Return)]);
            }
            steps
        },
    }
}

} // verus!
