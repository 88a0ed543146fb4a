//! The parts every operations job shares, and the per-item choices of the refresh,
//! trace handoff, rebuild and reconciliation jobs: what each reply counts as, and the
//! report the job stores and returns.

use vstd::prelude::*;

use crate::contracts::{ApplicationResultRef, IdempotencyResultView, WorkCommandReceipt};
use crate::errors::ApplicationError;
use crate::ops::{
    projection_gaps, refresh_failure_is_reported, stale_views, DerivedWorkViewState,
    WorkReconciliationScopeRef,
};
use crate::outbox::{WorkJobFailureRef, WorkJobReport};
use crate::ports::{repository_failure, RepositoryError};
use crate::references::{reference_sort_key, sort_key, ExternalReferenceRef};
use crate::results::{ReconciliationReport, StoredJobResult};

verus! {

/// The metadata every job input carries.
#[derive(Clone, Debug)]
pub struct WorkJobMetadata {
    pub job_run_id: String,
    pub idempotency_key: Option<String>,
}

/// What one reference's refresh leads to.
#[derive(Clone, Copy, Debug, PartialEq, Eq, Structural)]
pub enum RefreshStep {
    /// The reference was refreshed.
    Changed,
    /// The refresh failed in a way the job reports: mark the reference failed.
    MarkFailed,
    /// Any other failure aborts the job.
    Abort(ApplicationError),
}

/// Which resolver refreshes a reference, and whether a capability or method snapshot
/// is rewritten along with the reference state.
#[derive(Clone, Debug)]
pub enum SnapshotRoute {
    MemberSnapshot(String),
    MethodSnapshot(String),
    SourceState,
    EvidenceState,
    TimeboxState,
}

/// The receipt of a job run: applied, with no trace, no outbox records, version zero.
pub open spec fn is_job_receipt(receipt: Option<WorkCommandReceipt>, result_ref: ApplicationResultRef) -> bool {
    &&& receipt is Some
    &&& receipt->Some_0.result_ref == result_ref
    &&& receipt->Some_0.trace_id is None
    &&& receipt->Some_0.outbox_refs@.len() == 0
    &&& receipt->Some_0.version == 0
    &&& receipt->Some_0.idempotency == IdempotencyResultView::Applied
}

/// The failure references of the references whose refresh failed.
pub open spec fn external_failures(refs: Seq<ExternalReferenceRef>) -> Seq<Seq<char>> {
    refs.map_values(|r: ExternalReferenceRef| sort_key(r))
}

/// The key a failure reference names.
pub open spec fn failure_key(failure: WorkJobFailureRef) -> Seq<char> {
    match failure {
        WorkJobFailureRef::ExternalReference(key) => key@,
        _ => Seq::empty(),
    }
}

/// The job's identity: its metadata must carry an idempotency key.
pub fn job_idempotency_key(metadata: &WorkJobMetadata) -> (r: Result<String, ApplicationError>)
    ensures
        metadata.idempotency_key is Some ==> r == Ok::<String, ApplicationError>(metadata.idempotency_key->Some_0),
        metadata.idempotency_key is None ==> r == Err::<String, ApplicationError>(ApplicationError::InvalidRequest),
{
    match &metadata.idempotency_key {
        Some(key) => Ok(key.clone()),
        None => Err(ApplicationError::InvalidRequest),
    }
}

/// The report of a job run.
pub fn job_report(
    job_run_id: String,
    result_ref: ApplicationResultRef,
    scanned_count: u64,
    changed_count: u64,
    failed_refs: Vec<WorkJobFailureRef>,
) -> (r: WorkJobReport)
    ensures
        r.job_run_id == job_run_id,
        is_job_receipt(r.receipt, result_ref),
        r.scanned_count == scanned_count,
        r.changed_count == changed_count,
        r.failed_refs == failed_refs,
{
    WorkJobReport {
        job_run_id,
        receipt: Some(WorkCommandReceipt::applied(result_ref, None, Vec::new(), 0)),
        scanned_count,
        changed_count,
        failed_refs,
    }
}

/// Replays the stored report of a duplicate job run, marked as a replay.
pub fn load_duplicate_work_job_report(
    operation: &String,
    stored: Result<Option<StoredJobResult>, RepositoryError>,
) -> (r: Result<WorkJobReport, ApplicationError>)
    ensures
        match stored {
            Err(error) => r == Err::<WorkJobReport, ApplicationError>(repository_failure(error)),
            Ok(Some(StoredJobResult::WorkJob(report))) => if report.receipt is Some
                && report.receipt->Some_0.result_ref.operation@ == operation@ {
                &&& r is Ok
                &&& r->Ok_0.job_run_id == report.job_run_id
                &&& r->Ok_0.scanned_count == report.scanned_count
                &&& r->Ok_0.changed_count == report.changed_count
                &&& r->Ok_0.failed_refs == report.failed_refs
                &&& r->Ok_0.receipt == Some(WorkCommandReceipt {
                    idempotency: IdempotencyResultView::Duplicate,
                    ..report.receipt->Some_0
                })
            } else {
                r == Err::<WorkJobReport, ApplicationError>(ApplicationError::DuplicateResultMissing)
            },
            Ok(_) => r == Err::<WorkJobReport, ApplicationError>(ApplicationError::DuplicateResultMissing),
        },
{
    let stored = match stored {
        Ok(stored) => stored,
        Err(error) => return Err(crate::ops::map_repository_error(error)),
    };
    let report = match stored {
        Some(stored) => stored.into_work_job_report(operation),
        None => None,
    };
    match report {
        Some(report) => Ok(report.with_duplicate_receipt()),
        None => Err(ApplicationError::DuplicateResultMissing),
    }
}

/// Replays the stored report of a duplicate reconciliation run, as it was stored.
pub fn load_duplicate_reconciliation_report(
    operation: &String,
    stored: Result<Option<StoredJobResult>, RepositoryError>,
) -> (r: Result<ReconciliationReport, ApplicationError>)
    ensures
        match stored {
            Err(error) => r == Err::<ReconciliationReport, ApplicationError>(repository_failure(error)),
            Ok(Some(StoredJobResult::Reconciliation(report))) => if operation@ == "run_work_reconciliation"@ {
                r == Ok::<ReconciliationReport, ApplicationError>(report)
            } else {
                r == Err::<ReconciliationReport, ApplicationError>(ApplicationError::DuplicateResultMissing)
            },
            Ok(_) => r == Err::<ReconciliationReport, ApplicationError>(ApplicationError::DuplicateResultMissing),
        },
{
    let stored = match stored {
        Ok(stored) => stored,
        Err(error) => return Err(crate::ops::map_repository_error(error)),
    };
    let report = match stored {
        Some(stored) => stored.into_reconciliation_report(operation),
        None => None,
    };
    match report {
        Some(report) => Ok(report),
        None => Err(ApplicationError::DuplicateResultMissing),
    }
}

/// What one reference's refresh leads to.
pub fn refresh_step(saved: Result<(), ApplicationError>) -> (r: RefreshStep)
    ensures
        saved is Ok ==> r == RefreshStep::Changed,
        saved is Err && refresh_failure_is_reported(saved->Err_0) ==> r == RefreshStep::MarkFailed,
        saved is Err && !refresh_failure_is_reported(saved->Err_0) ==> r == RefreshStep::Abort(saved->Err_0),
{
    match saved {
        Ok(()) => RefreshStep::Changed,
        Err(error) => {
            if crate::ops::refresh_failure_reported(error) {
                RefreshStep::MarkFailed
            } else {
                RefreshStep::Abort(error)
            }
        },
    }
}

/// The failure references of a refresh run, by sort key, in order.
pub fn refresh_failures(failed: &Vec<ExternalReferenceRef>) -> (r: Vec<WorkJobFailureRef>)
    ensures
        r@.map_values(|f: WorkJobFailureRef| failure_key(f)) == external_failures(failed@),
        forall|k: int| 0 <= k < r@.len() ==> #[trigger] r@[k] is ExternalReference,
{
    let mut refs: Vec<WorkJobFailureRef> = Vec::new();
    let mut i: usize = 0;
    while i < failed.len()
        invariant
            i <= failed@.len(),
            refs@.map_values(|f: WorkJobFailureRef| failure_key(f)) == external_failures(failed@.take(i as int)),
            forall|k: int| 0 <= k < refs@.len() ==> #[trigger] refs@[k] is ExternalReference,
        decreases failed.len() - i,
    {
        let ghost before = refs@;
        refs.push(WorkJobFailureRef::ExternalReference(reference_sort_key(&failed[i])));
        proof {
            assert(failed@.take(i + 1) =~= failed@.take(i as int).push(failed@[i as int]));
            assert(refs@.map_values(|f: WorkJobFailureRef| failure_key(f))
                =~= before.map_values(|f: WorkJobFailureRef| failure_key(f)).push(sort_key(failed@[i as int])));
            assert(external_failures(failed@.take(i + 1)) =~= external_failures(failed@.take(i as int)).push(sort_key(failed@[i as int])));
        }
        i = i + 1;
    }
    proof {
        assert(failed@.take(failed@.len() as int) =~= failed@);
    }
    refs
}

/// The report of a refresh run: every listed reference scanned, the refreshed ones
/// changed, the failed ones reported.
pub fn refresh_report(
    job_run_id: String,
    result_ref: ApplicationResultRef,
    scanned: usize,
    changed: &Vec<ExternalReferenceRef>,
    failed: &Vec<ExternalReferenceRef>,
) -> (r: WorkJobReport)
    requires
        scanned <= u64::MAX,
    ensures
        r.job_run_id == job_run_id,
        is_job_receipt(r.receipt, result_ref),
        r.scanned_count == scanned,
        r.changed_count == changed@.len(),
        r.failed_refs@.map_values(|f: WorkJobFailureRef| failure_key(f)) == external_failures(failed@),
{
    let failed_refs = refresh_failures(failed);
    job_report(job_run_id, result_ref, scanned as u64, changed.len() as u64, failed_refs)
}

/// Which resolver refreshes a reference.
pub fn snapshot_route(reference_ref: &ExternalReferenceRef) -> (r: SnapshotRoute)
    ensures
        match *reference_ref {
            ExternalReferenceRef::Member(m) => r matches SnapshotRoute::MemberSnapshot(id) && id == m,
            ExternalReferenceRef::MethodDefinition(d) => r matches SnapshotRoute::MethodSnapshot(id) && id == d,
            ExternalReferenceRef::SourceWork { .. } => r is SourceState,
            ExternalReferenceRef::Evidence { .. } => r is EvidenceState,
            ExternalReferenceRef::ProcessTimebox(_) => r is TimeboxState,
        },
{
    match reference_ref {
        ExternalReferenceRef::Member(member_ref) => SnapshotRoute::MemberSnapshot(member_ref.clone()),
        ExternalReferenceRef::MethodDefinition(definition_ref) => SnapshotRoute::MethodSnapshot(definition_ref.clone()),
        ExternalReferenceRef::SourceWork { .. } => SnapshotRoute::SourceState,
        ExternalReferenceRef::Evidence { .. } => SnapshotRoute::EvidenceState,
        ExternalReferenceRef::ProcessTimebox(_) => SnapshotRoute::TimeboxState,
    }
}

/// A snapshot or resolution state the domain refuses makes the refresh request invalid.
pub fn snapshot_accepted<T, E>(built: Result<T, E>) -> (r: Result<T, ApplicationError>)
    ensures
        built is Ok ==> r == Ok::<T, ApplicationError>(built->Ok_0),
        built is Err ==> r == Err::<T, ApplicationError>(ApplicationError::InvalidRequest),
{
    match built {
        Ok(value) => Ok(value),
        Err(_) => Err(ApplicationError::InvalidRequest),
    }
}

/// The version a stored state is overwritten at: the current one, or none for a new state.
pub fn reference_state_expected_version<T>(loaded: Result<Option<(T, u64)>, RepositoryError>) -> (r: Result<Option<u64>, ApplicationError>)
    ensures
        match loaded {
            Ok(Some(pair)) => r == Ok::<Option<u64>, ApplicationError>(Some(pair.1)),
            Ok(None) => r == Ok::<Option<u64>, ApplicationError>(None),
            Err(error) => r == Err::<Option<u64>, ApplicationError>(repository_failure(error)),
        },
{
    match loaded {
        Ok(Some((_, version))) => Ok(Some(version)),
        Ok(None) => Ok(None),
        Err(error) => Err(crate::ops::map_repository_error(error)),
    }
}

/// The failure reported for a trace record whose handoff was refused.
pub fn trace_handoff_failure(trace_id: String, subject_ref: String, target_ref: String) -> (r: WorkJobFailureRef)
    ensures
        r == (WorkJobFailureRef::TraceHandoff { trace_id, subject_ref, target_ref }),
{
    WorkJobFailureRef::TraceHandoff { trace_id, subject_ref, target_ref }
}

/// The report of a rebuild run: the rebuilt views count as changed; the rebuild scans
/// nothing it counts and fails nothing it reports.
pub fn rebuild_report(job_run_id: String, result_ref: ApplicationResultRef, rebuilt_views: usize) -> (r: WorkJobReport)
    requires
        rebuilt_views <= u64::MAX,
    ensures
        r.job_run_id == job_run_id,
        is_job_receipt(r.receipt, result_ref),
        r.scanned_count == 0,
        r.changed_count == rebuilt_views,
        r.failed_refs@.len() == 0,
{
    let scanned = match crate::ops::affected_count() {
        Ok(count) => count,
        Err(_) => 0,
    };
    job_report(job_run_id, result_ref, scanned, rebuilt_views as u64, Vec::new())
}

/// The report of a reconciliation run: the views that are not fresh, the pending
/// outbox records and the stale references, for the scope at the truth cursor.
pub fn reconciliation_report(
    scope_ref: WorkReconciliationScopeRef,
    truth_cursor: String,
    projection_states: &Vec<DerivedWorkViewState>,
    outbox_gaps: Vec<String>,
    reference_gaps: Vec<ExternalReferenceRef>,
) -> (r: ReconciliationReport)
    ensures
        r.scope_ref == scope_ref,
        r.truth_cursor == truth_cursor,
        r.projection_gaps@.map_values(|v: crate::contracts::DerivedWorkViewRef| v@) == stale_views(projection_states@),
        r.outbox_gaps == outbox_gaps,
        r.reference_gaps == reference_gaps,
{
    ReconciliationReport {
        scope_ref,
        truth_cursor,
        projection_gaps: projection_gaps(projection_states),
        outbox_gaps,
        reference_gaps,
    }
}

} // verus!
