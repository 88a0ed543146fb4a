//! Stored command and job result surfaces, replayed when an idempotency key repeats.

use vstd::prelude::*;

use crate::contracts::{
    BacklogRef, BacklogState, BlockerState, CommitmentState, DependencyState, FormalWorkRef,
    IdempotencyResultView, IterationRef, IterationState, ProjectLifecycleState, ProjectMemberRef,
    ProjectMemberResponsibilityState, ProjectRef, PromoteResultState, WorkCommandReceipt,
    WorkItemState,
};
use crate::contracts::DerivedWorkViewRef;
use crate::ops::WorkReconciliationScopeRef;
use crate::outbox::WorkJobReport;
use crate::references::ExternalReferenceRef;

verus! {

/// The receipt of a replayed result: the stored receipt, marked as a duplicate.
pub open spec fn duplicate_of(receipt: WorkCommandReceipt) -> WorkCommandReceipt {
    WorkCommandReceipt { idempotency: IdempotencyResultView::Duplicate, ..receipt }
}

/// Result surface of Project command operations.
#[derive(Clone, Debug)]
pub struct ProjectCommandResult {
    pub project_ref: ProjectRef,
    pub lifecycle_state: ProjectLifecycleState,
    pub receipt: WorkCommandReceipt,
}

impl ProjectCommandResult {
    /// The same result, its receipt marked as replayed from storage.
    pub fn with_duplicate_receipt(self) -> (r: ProjectCommandResult)
        ensures
            r == (ProjectCommandResult { receipt: duplicate_of(self.receipt), ..self }),
    {
        let receipt = self.receipt.with_duplicate_idempotency();
        ProjectCommandResult { receipt, ..self }
    }
}

/// Result surface of Backlog command operations.
#[derive(Clone, Debug)]
pub struct BacklogCommandResult {
    pub backlog_ref: BacklogRef,
    pub backlog_state: BacklogState,
    pub receipt: WorkCommandReceipt,
}

impl BacklogCommandResult {
    /// The same result, its receipt marked as replayed from storage.
    pub fn with_duplicate_receipt(self) -> (r: BacklogCommandResult)
        ensures
            r == (BacklogCommandResult { receipt: duplicate_of(self.receipt), ..self }),
    {
        let receipt = self.receipt.with_duplicate_idempotency();
        BacklogCommandResult { receipt, ..self }
    }
}

/// Result surface of ProjectMember command operations.
#[derive(Clone, Debug)]
pub struct ProjectMemberCommandResult {
    pub project_member_ref: ProjectMemberRef,
    pub responsibility_state: ProjectMemberResponsibilityState,
    pub receipt: WorkCommandReceipt,
}

impl ProjectMemberCommandResult {
    /// The same result, its receipt marked as replayed from storage.
    pub fn with_duplicate_receipt(self) -> (r: ProjectMemberCommandResult)
        ensures
            r == (ProjectMemberCommandResult { receipt: duplicate_of(self.receipt), ..self }),
    {
        let receipt = self.receipt.with_duplicate_idempotency();
        ProjectMemberCommandResult { receipt, ..self }
    }
}

/// Result surface of WorkItem command operations.
#[derive(Clone, Debug)]
pub struct WorkItemCommandResult {
    pub work_ref: FormalWorkRef,
    pub work_state: WorkItemState,
    pub receipt: WorkCommandReceipt,
}

impl WorkItemCommandResult {
    /// The same result, its receipt marked as replayed from storage.
    pub fn with_duplicate_receipt(self) -> (r: WorkItemCommandResult)
        ensures
            r == (WorkItemCommandResult { receipt: duplicate_of(self.receipt), ..self }),
    {
        let receipt = self.receipt.with_duplicate_idempotency();
        WorkItemCommandResult { receipt, ..self }
    }
}

/// Result surface of Promote command operations.
#[derive(Clone, Debug)]
pub struct PromoteCommandResult {
    pub promote_result_ref: String,
    pub result_state: PromoteResultState,
    pub created_work_ref: Option<FormalWorkRef>,
    pub receipt: WorkCommandReceipt,
}

impl PromoteCommandResult {
    /// The same result, its receipt marked as replayed from storage.
    pub fn with_duplicate_receipt(self) -> (r: PromoteCommandResult)
        ensures
            r == (PromoteCommandResult { receipt: duplicate_of(self.receipt), ..self }),
    {
        let receipt = self.receipt.with_duplicate_idempotency();
        PromoteCommandResult { receipt, ..self }
    }
}

/// Result surface of dependency command operations.
#[derive(Clone, Debug)]
pub struct DependencyCommandResult {
    pub dependency_ref: String,
    pub dependency_state: DependencyState,
    pub receipt: WorkCommandReceipt,
}

impl DependencyCommandResult {
    /// The same result, its receipt marked as replayed from storage.
    pub fn with_duplicate_receipt(self) -> (r: DependencyCommandResult)
        ensures
            r == (DependencyCommandResult { receipt: duplicate_of(self.receipt), ..self }),
    {
        let receipt = self.receipt.with_duplicate_idempotency();
        DependencyCommandResult { receipt, ..self }
    }
}

/// Result surface of blocker command operations.
#[derive(Clone, Debug)]
pub struct BlockerCommandResult {
    pub blocker_ref: String,
    pub blocker_state: BlockerState,
    pub receipt: WorkCommandReceipt,
}

impl BlockerCommandResult {
    /// The same result, its receipt marked as replayed from storage.
    pub fn with_duplicate_receipt(self) -> (r: BlockerCommandResult)
        ensures
            r == (BlockerCommandResult { receipt: duplicate_of(self.receipt), ..self }),
    {
        let receipt = self.receipt.with_duplicate_idempotency();
        BlockerCommandResult { receipt, ..self }
    }
}

/// Result surface of iteration command operations.
#[derive(Clone, Debug)]
pub struct IterationCommandResult {
    pub iteration_ref: IterationRef,
    pub iteration_state: IterationState,
    pub commitment_state: Option<CommitmentState>,
    pub receipt: WorkCommandReceipt,
}

impl IterationCommandResult {
    /// The same result, its receipt marked as replayed from storage.
    pub fn with_duplicate_receipt(self) -> (r: IterationCommandResult)
        ensures
            r == (IterationCommandResult { receipt: duplicate_of(self.receipt), ..self }),
    {
        let receipt = self.receipt.with_duplicate_idempotency();
        IterationCommandResult { receipt, ..self }
    }
}

/// Application-local union of public command result surfaces.
#[derive(Clone, Debug)]
pub enum StoredCommandResult {
    Project(ProjectCommandResult),
    Backlog(BacklogCommandResult),
    ProjectMember(ProjectMemberCommandResult),
    WorkItem(WorkItemCommandResult),
    Promote(PromoteCommandResult),
    Dependency(DependencyCommandResult),
    Blocker(BlockerCommandResult),
    Iteration(IterationCommandResult),
}

impl StoredCommandResult {
    /// The stored project result, when the stored surface is one and belongs to `operation`.
    pub fn into_project_result(self, operation: &String) -> (r: Option<ProjectCommandResult>)
        ensures
            r == (if self is Project && self->Project_0.receipt.result_ref.operation@ == operation@ {
                Some(self->Project_0)
            } else {
                None
            }),
    {
        match self {
            StoredCommandResult::Project(result) => {
                if result.receipt.result_ref.operation == *operation {
                    Some(result)
                } else {
                    None
                }
            },
            _ => None,
        }
    }

    /// The stored backlog result, when the stored surface is one and belongs to `operation`.
    pub fn into_backlog_result(self, operation: &String) -> (r: Option<BacklogCommandResult>)
        ensures
            r == (if self is Backlog && self->Backlog_0.receipt.result_ref.operation@ == operation@ {
                Some(self->Backlog_0)
            } else {
                None
            }),
    {
        match self {
            StoredCommandResult::Backlog(result) => {
                if result.receipt.result_ref.operation == *operation {
                    Some(result)
                } else {
                    None
                }
            },
            _ => None,
        }
    }

    /// The stored member result, when the stored surface is one and belongs to `operation`.
    pub fn into_project_member_result(self, operation: &String) -> (r: Option<ProjectMemberCommandResult>)
        ensures
            r == (if self is ProjectMember && self->ProjectMember_0.receipt.result_ref.operation@ == operation@ {
                Some(self->ProjectMember_0)
            } else {
                None
            }),
    {
        match self {
            StoredCommandResult::ProjectMember(result) => {
                if result.receipt.result_ref.operation == *operation {
                    Some(result)
                } else {
                    None
                }
            },
            _ => None,
        }
    }

    /// The stored work-item result, when the stored surface is one and belongs to `operation`.
    pub fn into_work_item_result(self, operation: &String) -> (r: Option<WorkItemCommandResult>)
        ensures
            r == (if self is WorkItem && self->WorkItem_0.receipt.result_ref.operation@ == operation@ {
                Some(self->WorkItem_0)
            } else {
                None
            }),
    {
        match self {
            StoredCommandResult::WorkItem(result) => {
                if result.receipt.result_ref.operation == *operation {
                    Some(result)
                } else {
                    None
                }
            },
            _ => None,
        }
    }

    /// The stored promote result, when the stored surface is one and belongs to `operation`.
    pub fn into_promote_result(self, operation: &String) -> (r: Option<PromoteCommandResult>)
        ensures
            r == (if self is Promote && self->Promote_0.receipt.result_ref.operation@ == operation@ {
                Some(self->Promote_0)
            } else {
                None
            }),
    {
        match self {
            StoredCommandResult::Promote(result) => {
                if result.receipt.result_ref.operation == *operation {
                    Some(result)
                } else {
                    None
                }
            },
            _ => None,
        }
    }

    /// The stored dependency result, when the stored surface is one and belongs to `operation`.
    pub fn into_dependency_result(self, operation: &String) -> (r: Option<DependencyCommandResult>)
        ensures
            r == (if self is Dependency && self->Dependency_0.receipt.result_ref.operation@ == operation@ {
                Some(self->Dependency_0)
            } else {
                None
            }),
    {
        match self {
            StoredCommandResult::Dependency(result) => {
                if result.receipt.result_ref.operation == *operation {
                    Some(result)
                } else {
                    None
                }
            },
            _ => None,
        }
    }

    /// The stored blocker result, when the stored surface is one and belongs to `operation`.
    pub fn into_blocker_result(self, operation: &String) -> (r: Option<BlockerCommandResult>)
        ensures
            r == (if self is Blocker && self->Blocker_0.receipt.result_ref.operation@ == operation@ {
                Some(self->Blocker_0)
            } else {
                None
            }),
    {
        match self {
            StoredCommandResult::Blocker(result) => {
                if result.receipt.result_ref.operation == *operation {
                    Some(result)
                } else {
                    None
                }
            },
            _ => None,
        }
    }

    /// The stored iteration result, when the stored surface is one and belongs to `operation`.
    pub fn into_iteration_result(self, operation: &String) -> (r: Option<IterationCommandResult>)
        ensures
            r == (if self is Iteration && self->Iteration_0.receipt.result_ref.operation@ == operation@ {
                Some(self->Iteration_0)
            } else {
                None
            }),
    {
        match self {
            StoredCommandResult::Iteration(result) => {
                if result.receipt.result_ref.operation == *operation {
                    Some(result)
                } else {
                    None
                }
            },
            _ => None,
        }
    }

}

/// A read-only reconciliation report.
#[derive(Clone, Debug)]
pub struct ReconciliationReport {
    pub scope_ref: WorkReconciliationScopeRef,
    pub truth_cursor: String,
    pub projection_gaps: Vec<DerivedWorkViewRef>,
    pub outbox_gaps: Vec<String>,
    pub reference_gaps: Vec<ExternalReferenceRef>,
}

/// Application-local union of operations job result surfaces.
#[derive(Clone, Debug)]
pub enum StoredJobResult {
    /// Stored report for jobs returning the common Work job report.
    WorkJob(WorkJobReport),
    /// Stored report for reconciliation jobs.
    Reconciliation(ReconciliationReport),
}

impl StoredJobResult {
    /// The stored job report, when it is one and its receipt belongs to `operation`.
    pub fn into_work_job_report(self, operation: &String) -> (r: Option<WorkJobReport>)
        ensures
            r == (if self is WorkJob && self->WorkJob_0.receipt is Some
                && self->WorkJob_0.receipt.unwrap().result_ref.operation@ == operation@ {
                Some(self->WorkJob_0)
            } else {
                None
            }),
    {
        match self {
            StoredJobResult::WorkJob(report) => {
                let matches = match &report.receipt {
                    Some(receipt) => receipt.result_ref.operation == *operation,
                    None => false,
                };
                if matches {
                    Some(report)
                } else {
                    None
                }
            },
            _ => None,
        }
    }

    /// The stored reconciliation report, when it is one and the operation is the
    /// reconciliation job.
    pub fn into_reconciliation_report(self, operation: &String) -> (r: Option<ReconciliationReport>)
        ensures
            r == (if self is Reconciliation && operation@ == "run_work_reconciliation"@ {
                Some(self->Reconciliation_0)
            } else {
                None
            }),
    {
        match self {
            StoredJobResult::Reconciliation(report) => {
                let expected = String::from_str("run_work_reconciliation");
                if *operation == expected {
                    Some(report)
                } else {
                    None
                }
            },
            _ => None,
        }
    }
}

/// The replay of a stored command surface: the stored result when it is the expected one,
/// its receipt marked duplicate; a missing or foreign surface cannot be replayed; a failed
/// read is a repository failure.
pub open spec fn replayed<T>(stored: Result<Option<T>, crate::ports::RepositoryError>) -> Result<T, crate::errors::ApplicationError> {
    match stored {
        Ok(Some(t)) => Ok(t),
        Ok(None) => Err(crate::errors::ApplicationError::DuplicateResultMissing),
        Err(e) => Err(crate::ports::repository_failure(e)),
    }
}

} // verus!
