//! Plain-value model of the Work truth records that the services read back from their
//! repositories: only the fields that the application decisions look at.

use vstd::prelude::*;

use crate::contracts::{
    BacklogRef, BacklogState, FormalWorkKind, FormalWorkRef, ProjectLifecycleState,
    ProjectMemberRef, ProjectMemberResponsibilityState, ProjectRef, WorkItemState,
};

verus! {

/// A project as stored.
#[derive(Clone, Debug)]
pub struct ProjectRecord {
    pub project_ref: ProjectRef,
    pub lifecycle_state: ProjectLifecycleState,
}

/// A backlog as stored: the project it belongs to and its availability.
#[derive(Clone, Debug)]
pub struct BacklogRecord {
    pub backlog_ref: BacklogRef,
    pub project_id: String,
    pub backlog_state: BacklogState,
}

/// A project-local member responsibility as stored.
#[derive(Clone, Debug)]
pub struct ProjectMemberRecord {
    pub project_member_ref: ProjectMemberRef,
    /// The project the responsibility belongs to.
    pub project_id: String,
    /// The identity (global member) the responsibility is held by.
    pub member_id: String,
    pub responsibility_state: ProjectMemberResponsibilityState,
}

/// A root work item as stored.
#[derive(Clone, Debug)]
pub struct WorkItemRecord {
    pub work_item_id: String,
    pub backlog_id: String,
    pub assignee_ref: ProjectMemberRef,
    pub work_state: WorkItemState,
    /// The evidence the item was completed with, once it is.
    pub completion_ref: Option<String>,
}

/// A child work item as stored, with the root item it hangs from.
#[derive(Clone, Debug)]
pub struct ChildWorkItemRecord {
    pub child_work_item_id: String,
    pub parent_work_item_id: String,
    pub work_state: WorkItemState,
    /// The external source the child was split from.
    pub source_ref: String,
    /// The evidence the child was completed with, once it is.
    pub completion_ref: Option<String>,
}

/// Repository view of a root or child formal work record.
#[derive(Clone, Debug)]
pub enum FormalWorkRecord {
    WorkItem(WorkItemRecord),
    ChildWorkItem(ChildWorkItemRecord),
}

/// The reference of a stored formal work record.
pub open spec fn record_ref(record: FormalWorkRecord) -> (FormalWorkKind, Seq<char>) {
    match record {
        FormalWorkRecord::WorkItem(item) => (FormalWorkKind::WorkItem, item.work_item_id@),
        FormalWorkRecord::ChildWorkItem(child) => (FormalWorkKind::ChildWorkItem, child.child_work_item_id@),
    }
}

/// The work state of a stored formal work record.
pub open spec fn record_state(record: FormalWorkRecord) -> WorkItemState {
    match record {
        FormalWorkRecord::WorkItem(item) => item.work_state,
        FormalWorkRecord::ChildWorkItem(child) => child.work_state,
    }
}

impl FormalWorkRecord {
    /// Returns the formal work reference for this record.
    pub fn formal_work_ref(&self) -> (r: FormalWorkRef)
        ensures
            r@ == record_ref(*self),
    {
        match self {
            FormalWorkRecord::WorkItem(item) => FormalWorkRef { kind: FormalWorkKind::WorkItem, id: item.work_item_id.clone() },
            FormalWorkRecord::ChildWorkItem(child) => FormalWorkRef {
                kind: FormalWorkKind::ChildWorkItem,
                id: child.child_work_item_id.clone(),
            },
        }
    }

    /// Returns the root work item id when this record is a root work item.
    pub fn as_root_work_item_id(&self) -> (r: Option<String>)
        ensures
            self is WorkItem ==> r is Some && r->Some_0@ == self->WorkItem_0.work_item_id@,
            self is ChildWorkItem ==> r is None,
    {
        match self {
            FormalWorkRecord::WorkItem(item) => Some(item.work_item_id.clone()),
            FormalWorkRecord::ChildWorkItem(_) => None,
        }
    }

    /// Returns the current formal work state.
    pub fn work_state(&self) -> (r: WorkItemState)
        ensures
            r == record_state(*self),
    {
        match self {
            FormalWorkRecord::WorkItem(item) => item.work_state,
            FormalWorkRecord::ChildWorkItem(child) => child.work_state,
        }
    }
}

/// Scope of one formal work record: its project, backlog and optional assignee.
#[derive(Clone, Debug)]
pub struct FormalWorkScope {
    pub work_ref: FormalWorkRef,
    pub project_ref: ProjectRef,
    pub backlog_ref: BacklogRef,
    pub assignee_ref: Option<ProjectMemberRef>,
}

} // verus!
