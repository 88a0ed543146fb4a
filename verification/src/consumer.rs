//! Inbound event consumer decisions: which events are accepted, how a delivery is
//! deduplicated, and which disposition every reply of the stores leads to.

use vstd::prelude::*;

use crate::contracts::EvidenceVerifiedState;
use crate::idempotency::{IdempotencyConflict, IdempotencyReservation};
use crate::ports::{IdempotencyError, PageRequest, PortError, UnitOfWorkError};
use crate::inbound::{
    affected_views_stale_plan, affected_views_stale_steps, runtime_promote_requested_plan,
    runtime_promote_requested_steps, unresolved_promote_source_plan, unresolved_promote_source_steps,
    InboundStep,
};
use crate::text::{blank, is_blank, text_ends_with, text_equals, u64_to_decimal, decimal};

verus! {

/// How many affected views one event marks stale at most.
pub const AFFECTED_VIEWS_PAGE_LIMIT: u32 = 100;

/// Consumer result that tells the runtime transport how to treat an inbound event.
#[derive(Clone, Copy, Debug, PartialEq, Eq, Structural)]
pub enum ConsumerDisposition {
    /// The event changed Work and was acknowledged.
    Ack,
    /// The event was a duplicate and was acknowledged without effects.
    AckDuplicate,
    /// The event was recorded as a reference marker without changing any view.
    AckWithMarker,
    /// A transient failure: deliver the event again later.
    Retry,
    /// The event can never be processed.
    DeadLetter,
}

/// Where an inbound event comes from: the source system (by its code) and the id of
/// the external record it is about.
#[derive(Clone, Debug)]
pub struct InboundSourceRef {
    pub source_system: u8,
    pub external_id: String,
}

/// The envelope of an inbound event, with its payload.
#[derive(Clone, Debug)]
pub struct WorkInboundEventEnvelope<T> {
    pub source_event_id: String,
    pub source_ref: InboundSourceRef,
    pub event_version: String,
    pub occurred_at: String,
    pub payload: T,
}

/// How the reservation of an inbound event goes on.
#[derive(Clone, Debug)]
pub enum InboundReservationStep {
    /// The event is reserved: process it under this reservation.
    Proceed(IdempotencyReservation),
    /// The key collides with another digest: mark the conflict, roll back, dead-letter.
    MarkConflict(IdempotencyConflict),
    /// Roll back and end with this disposition.
    Stop(ConsumerDisposition),
}

/// What a resolved evidence event does to the evidence reference.
#[derive(Clone, Copy, Debug, PartialEq, Eq, Structural)]
pub enum EvidenceReferenceChange {
    /// Verified evidence resolves the reference.
    Resolve,
    /// Rejected evidence marks the reference stale.
    MarkStale,
    /// Unverified evidence leaves the reference unresolved.
    Keep,
}

/// Where a runtime promote request goes once its source was looked up.
#[derive(Clone, Copy, Debug, PartialEq, Eq, Structural)]
pub enum RuntimePromoteRoute {
    /// The source resolved without an external body: record the pending intake.
    RecordIntake,
    /// The source is unknown or refused: record it as an unresolved reference.
    RecordUnresolved,
    /// Roll back and end with this disposition.
    Stop(ConsumerDisposition),
}

/// The inbound events that only update external references.
#[derive(Clone, Copy, Debug, PartialEq, Eq, Structural)]
pub enum ReferenceEvent {
    ConversationWorkContextChanged,
    ProcessTimingChanged,
    GovernanceDecisionChanged,
    ArtifactEvidenceChanged,
}

/// The references a governance decision resolves.
#[derive(Clone, Copy, Debug, PartialEq, Eq, Structural)]
pub struct GovernanceResolutions {
    pub resolve_source: bool,
    pub resolve_evidence: bool,
}

/// Whether an event version can be processed: only version `v1` of a `.v1` topic.
pub open spec fn supported_event(version: Seq<char>, topic: Seq<char>) -> bool {
    version == "v1"@ && topic.len() >= 3 && topic.subrange(topic.len() - 3, topic.len() as int) == ".v1"@
}

/// The deduplication key of a delivery: topic, event id, source system and external id.
pub open spec fn dedup_key_text(topic: Seq<char>, event_id: Seq<char>, source_system: u8, external_id: Seq<char>) -> Seq<char> {
    topic + ":"@ + event_id + ":"@ + decimal(source_system as nat) + ":"@ + external_id
}

/// The truth cursor an event marks views stale at: topic, external id and event id.
pub open spec fn event_cursor_text(topic: Seq<char>, external_id: Seq<char>, event_id: Seq<char>) -> Seq<char> {
    topic + ":"@ + external_id + ":"@ + event_id
}

/// The step after the idempotency store answered a reservation.
pub open spec fn reservation_step(reply: Result<IdempotencyReservation, IdempotencyError>) -> InboundReservationStep {
    match reply {
        Ok(IdempotencyReservation::Reserved(record)) => InboundReservationStep::Proceed(IdempotencyReservation::Reserved(record)),
        Ok(IdempotencyReservation::Duplicate(_)) => InboundReservationStep::Stop(ConsumerDisposition::AckDuplicate),
        Ok(IdempotencyReservation::Conflict(conflict)) => InboundReservationStep::MarkConflict(conflict),
        Err(IdempotencyError::Conflict) => InboundReservationStep::Stop(ConsumerDisposition::DeadLetter),
        Err(_) => InboundReservationStep::Stop(ConsumerDisposition::Retry),
    }
}

/// The disposition of a processed event after its reservation was completed and its
/// transaction committed: either failure means the event must be delivered again.
pub open spec fn completion_disposition(complete: Result<(), IdempotencyError>, commit: Result<(), UnitOfWorkError>, disposition: ConsumerDisposition) -> ConsumerDisposition {
    if complete is Err || commit is Err {
        ConsumerDisposition::Retry
    } else {
        disposition
    }
}

/// The route of a runtime promote request after its source lookup.
pub open spec fn promote_route(resolved: Result<bool, PortError>) -> RuntimePromoteRoute {
    match resolved {
        Ok(external_body) => if external_body {
            RuntimePromoteRoute::Stop(ConsumerDisposition::DeadLetter)
        } else {
            RuntimePromoteRoute::RecordIntake
        },
        Err(PortError::NotFound) | Err(PortError::Rejected) => RuntimePromoteRoute::RecordUnresolved,
        Err(PortError::Unavailable) => RuntimePromoteRoute::Stop(ConsumerDisposition::Retry),
        Err(PortError::InvalidResponse) => RuntimePromoteRoute::Stop(ConsumerDisposition::DeadLetter),
    }
}

/// The answer to a runtime promote request whose route ran to its end.
pub open spec fn runtime_promote_answer(resolved: Result<bool, PortError>) -> ConsumerDisposition {
    match promote_route(resolved) {
        RuntimePromoteRoute::Stop(disposition) => disposition,
        _ => ConsumerDisposition::AckWithMarker,
    }
}

/// The answer to one delivery, from what each stage replied.
pub open spec fn delivery_outcome(
    screened: Option<ConsumerDisposition>,
    reservation: InboundReservationStep,
    processed: Result<ConsumerDisposition, ConsumerDisposition>,
    complete: Result<(), IdempotencyError>,
    commit: Result<(), UnitOfWorkError>,
) -> ConsumerDisposition {
    match screened {
        Some(disposition) => disposition,
        None => match reservation {
            InboundReservationStep::Stop(disposition) => disposition,
            InboundReservationStep::MarkConflict(_) => ConsumerDisposition::DeadLetter,
            InboundReservationStep::Proceed(_) => match processed {
                Err(disposition) => disposition,
                Ok(disposition) => completion_disposition(complete, commit, disposition),
            },
        },
    }
}

/// What screening before any write answers: a supported event with valid content goes
/// on to its reservation, any other is dead-lettered.
pub open spec fn screening(version_supported: bool, content_valid: bool) -> Option<ConsumerDisposition> {
    if version_supported && content_valid {
        None
    } else {
        Some(ConsumerDisposition::DeadLetter)
    }
}

/// Consumes inbound events from other bounded contexts through Work-owned ports.
pub struct WorkInboundConsumerService<PM, RS, PR, P, U, S, IDEM> {
    /// Project member repository port.
    pub member_repo: PM,
    /// Reference snapshot repository port.
    pub reference_repo: RS,
    /// Projection freshness repository port.
    pub projection_repo: PR,
    /// Promote repository port.
    pub promote_repo: P,
    /// Unit of work factory.
    pub unit_of_work: U,
    /// Source resolver port.
    pub source_resolver: S,
    /// Idempotency repository.
    pub idempotency: IDEM,
}

impl<PM, RS, PR, P, U, S, IDEM> WorkInboundConsumerService<PM, RS, PR, P, U, S, IDEM> {
    /// Whether the event version and topic can be processed.
    pub fn validate_event_version(event_version: &str, topic: &str) -> (r: bool)
        ensures
            r == supported_event(event_version@, topic@),
    {
        proof {
            reveal_strlit("v1");
            reveal_strlit(".v1");
        }
        text_equals(event_version, "v1") && text_ends_with(topic, ".v1")
    }

    /// Screens a `identity.member.changed.v1` delivery before any write: only version `v1` is
    /// processed, and a member change needs a member and at least one capability; anything else is dead-lettered.
    pub fn screen_identity_member_changed(event_version: &str, member_ref: &str, capability_refs: &Vec<String>) -> (r: Option<ConsumerDisposition>)
        ensures
            r == screening(event_version@ == "v1"@, !blank(member_ref@) && capability_refs@.len() > 0),
    {
        proof {
            reveal_strlit("identity.member.changed.v1");
            reveal_strlit(".v1");
            assert(("identity.member.changed.v1"@).subrange(23, 26) =~= ".v1"@);
        }
        let content_valid = Self::identity_event_valid(member_ref, capability_refs);
        Self::version_screen(event_version, "identity.member.changed.v1", content_valid)
    }

    /// Screens a `method.definition.changed.v1` delivery before any write: only version `v1` is
    /// processed, and a method change needs its definition; anything else is dead-lettered.
    pub fn screen_method_definition_changed(event_version: &str, definition_ref: &str) -> (r: Option<ConsumerDisposition>)
        ensures
            r == screening(event_version@ == "v1"@, !blank(definition_ref@)),
    {
        proof {
            reveal_strlit("method.definition.changed.v1");
            reveal_strlit(".v1");
            assert(("method.definition.changed.v1"@).subrange(25, 28) =~= ".v1"@);
        }
        let content_valid = !is_blank(definition_ref);
        Self::version_screen(event_version, "method.definition.changed.v1", content_valid)
    }

    /// Screens a `conversation.work_context.changed.v1` delivery before any write: only version `v1` is
    /// processed, and a conversation context needs its source; anything else is dead-lettered.
    pub fn screen_conversation_work_context_changed(event_version: &str, source_external_id: &str) -> (r: Option<ConsumerDisposition>)
        ensures
            r == screening(event_version@ == "v1"@, !blank(source_external_id@)),
    {
        proof {
            reveal_strlit("conversation.work_context.changed.v1");
            reveal_strlit(".v1");
            assert(("conversation.work_context.changed.v1"@).subrange(33, 36) =~= ".v1"@);
        }
        let content_valid = !is_blank(source_external_id);
        Self::version_screen(event_version, "conversation.work_context.changed.v1", content_valid)
    }

    /// Screens a `process.timing.changed.v1` delivery before any write: only version `v1` is
    /// processed, and a timing change needs its timebox; anything else is dead-lettered.
    pub fn screen_process_timing_changed(event_version: &str, timebox_ref: &str) -> (r: Option<ConsumerDisposition>)
        ensures
            r == screening(event_version@ == "v1"@, !blank(timebox_ref@)),
    {
        proof {
            reveal_strlit("process.timing.changed.v1");
            reveal_strlit(".v1");
            assert(("process.timing.changed.v1"@).subrange(22, 25) =~= ".v1"@);
        }
        let content_valid = !is_blank(timebox_ref);
        Self::version_screen(event_version, "process.timing.changed.v1", content_valid)
    }

    /// Screens a `governance.decision.changed.v1` delivery before any write: only version `v1` is
    /// processed, and a governance decision needs a source or evidence; anything else is dead-lettered.
    pub fn screen_governance_decision_changed(event_version: &str, source_external_id: &str, has_evidence: bool) -> (r: Option<ConsumerDisposition>)
        ensures
            r == screening(event_version@ == "v1"@, !(blank(source_external_id@) && !has_evidence)),
    {
        proof {
            reveal_strlit("governance.decision.changed.v1");
            reveal_strlit(".v1");
            assert(("governance.decision.changed.v1"@).subrange(27, 30) =~= ".v1"@);
        }
        let content_valid = !(is_blank(source_external_id) && !has_evidence);
        Self::version_screen(event_version, "governance.decision.changed.v1", content_valid)
    }

    /// Screens a `artifact.evidence.changed.v1` delivery before any write: only version `v1` is
    /// processed, and an evidence change needs its evidence; anything else is dead-lettered.
    pub fn screen_artifact_evidence_changed(event_version: &str, evidence_external_id: &str) -> (r: Option<ConsumerDisposition>)
        ensures
            r == screening(event_version@ == "v1"@, !blank(evidence_external_id@)),
    {
        proof {
            reveal_strlit("artifact.evidence.changed.v1");
            reveal_strlit(".v1");
            assert(("artifact.evidence.changed.v1"@).subrange(25, 28) =~= ".v1"@);
        }
        let content_valid = !is_blank(evidence_external_id);
        Self::version_screen(event_version, "artifact.evidence.changed.v1", content_valid)
    }

    /// Screens a `runtime.work_promote.requested.v1` delivery before any write: only version `v1` is
    /// processed, and a promote request needs its source; anything else is dead-lettered.
    pub fn screen_runtime_promote_requested(event_version: &str, source_external_id: &str) -> (r: Option<ConsumerDisposition>)
        ensures
            r == screening(event_version@ == "v1"@, !blank(source_external_id@)),
    {
        proof {
            reveal_strlit("runtime.work_promote.requested.v1");
            reveal_strlit(".v1");
            assert(("runtime.work_promote.requested.v1"@).subrange(30, 33) =~= ".v1"@);
        }
        let content_valid = !is_blank(source_external_id);
        Self::version_screen(event_version, "runtime.work_promote.requested.v1", content_valid)
    }

    /// Screening on a `.v1` topic.
    fn version_screen(event_version: &str, topic: &str, content_valid: bool) -> (r: Option<ConsumerDisposition>)
        requires
            topic@.len() >= 3,
            topic@.subrange(topic@.len() - 3, topic@.len() as int) == ".v1"@,
        ensures
            r == screening(event_version@ == "v1"@, content_valid),
    {
        proof {
            reveal_strlit("v1");
        }
        if Self::validate_event_version(event_version, topic) && content_valid {
            None
        } else {
            Some(ConsumerDisposition::DeadLetter)
        }
    }

    /// The page of affected views one event reads.
    pub fn affected_page() -> (r: PageRequest)
        ensures
            r.limit == AFFECTED_VIEWS_PAGE_LIMIT,
            r.page_token is None,
    {
        PageRequest { limit: AFFECTED_VIEWS_PAGE_LIMIT, page_token: None }
    }

    /// A member event needs a member and at least one capability.
    pub fn identity_event_valid(member_ref: &str, capability_refs: &Vec<String>) -> (r: bool)
        ensures
            r == (!blank(member_ref@) && capability_refs@.len() > 0),
    {
        !is_blank(member_ref) && capability_refs.len() > 0
    }

    /// A member change acknowledges as a change only when it touched both member
    /// responsibilities and derived views; otherwise it is kept as a marker.
    pub fn identity_disposition(affected_members: usize, affected_views: usize) -> (r: ConsumerDisposition)
        ensures
            r == (if affected_members > 0 && affected_views > 0 {
                ConsumerDisposition::Ack
            } else {
                ConsumerDisposition::AckWithMarker
            }),
    {
        if affected_members > 0 && affected_views > 0 {
            ConsumerDisposition::Ack
        } else {
            ConsumerDisposition::AckWithMarker
        }
    }

    /// A method change acknowledges as a change only when it touched derived views.
    pub fn method_disposition(affected_views: usize) -> (r: ConsumerDisposition)
        ensures
            r == (if affected_views > 0 { ConsumerDisposition::Ack } else { ConsumerDisposition::AckWithMarker }),
    {
        if affected_views == 0 {
            ConsumerDisposition::AckWithMarker
        } else {
            ConsumerDisposition::Ack
        }
    }

    /// A governance decision is dead-lettered only when it names neither a source nor
    /// evidence; it resolves each one it names.
    pub fn governance_resolutions(source_external_id: &str, has_evidence: bool) -> (r: Option<GovernanceResolutions>)
        ensures
            (blank(source_external_id@) && !has_evidence) ==> r is None,
            !(blank(source_external_id@) && !has_evidence) ==> r == Some(GovernanceResolutions {
                resolve_source: !blank(source_external_id@),
                resolve_evidence: has_evidence,
            }),
    {
        let source_blank = is_blank(source_external_id);
        if source_blank && !has_evidence {
            None
        } else {
            Some(GovernanceResolutions { resolve_source: !source_blank, resolve_evidence: has_evidence })
        }
    }

    /// What an evidence event does to its reference.
    pub fn evidence_reference_change(state: EvidenceVerifiedState) -> (r: EvidenceReferenceChange)
        ensures
            state == EvidenceVerifiedState::Verified ==> r == EvidenceReferenceChange::Resolve,
            state == EvidenceVerifiedState::Rejected ==> r == EvidenceReferenceChange::MarkStale,
            state == EvidenceVerifiedState::Unverified ==> r == EvidenceReferenceChange::Keep,
    {
        match state {
            EvidenceVerifiedState::Verified => EvidenceReferenceChange::Resolve,
            EvidenceVerifiedState::Rejected => EvidenceReferenceChange::MarkStale,
            EvidenceVerifiedState::Unverified => EvidenceReferenceChange::Keep,
        }
    }

    /// A conversation context resolves its source reference only when the digest it
    /// carries is the one the source reference names.
    pub fn conversation_resolves(reference_digest: &str, payload_digest: &str) -> (r: bool)
        ensures
            r == (reference_digest@ == payload_digest@),
    {
        text_equals(reference_digest, payload_digest)
    }

    /// Where a runtime promote request goes after its source lookup (`Ok` tells whether
    /// the source carries an external body): a clean source records the intake, an
    /// unknown or refused source is recorded as unresolved, an unavailable resolver is
    /// retried, and a source with an external body or an invalid reply is dead-lettered.
    pub fn runtime_promote_route(resolved: Result<bool, PortError>) -> (r: RuntimePromoteRoute)
        ensures
            r == promote_route(resolved),
    {
        match resolved {
            Ok(false) => RuntimePromoteRoute::RecordIntake,
            Ok(true) => RuntimePromoteRoute::Stop(ConsumerDisposition::DeadLetter),
            Err(PortError::NotFound) | Err(PortError::Rejected) => RuntimePromoteRoute::RecordUnresolved,
            Err(PortError::Unavailable) => RuntimePromoteRoute::Stop(ConsumerDisposition::Retry),
            Err(PortError::InvalidResponse) => RuntimePromoteRoute::Stop(ConsumerDisposition::DeadLetter),
        }
    }

    /// How a runtime promote request is answered once the steps of its route ran and the
    /// event was completed: both recording routes acknowledge with a marker, since no Work
    /// truth changes; a stopped route answers with its own disposition.
    pub fn runtime_promote_disposition(resolved: Result<bool, PortError>) -> (r: ConsumerDisposition)
        ensures
            r == runtime_promote_answer(resolved),
    {
        match Self::runtime_promote_route(resolved) {
            RuntimePromoteRoute::RecordIntake | RuntimePromoteRoute::RecordUnresolved => ConsumerDisposition::AckWithMarker,
            RuntimePromoteRoute::Stop(disposition) => disposition,
        }
    }

    /// The steps a runtime promote request runs on its route (none when it stops).
    pub fn runtime_promote_steps(route: RuntimePromoteRoute) -> (r: Vec<(InboundStep, ConsumerDisposition)>)
        ensures
            route == RuntimePromoteRoute::RecordIntake ==> r@ == runtime_promote_requested_plan(),
            route == RuntimePromoteRoute::RecordUnresolved ==> r@ == unresolved_promote_source_plan(),
            route is Stop ==> r@.len() == 0,
    {
        match route {
            RuntimePromoteRoute::RecordIntake => runtime_promote_requested_steps(),
            RuntimePromoteRoute::RecordUnresolved => unresolved_promote_source_steps(),
            RuntimePromoteRoute::Stop(_) => Vec::new(),
        }
    }

    /// The follow-up of a member change once its affected responsibilities and views were
    /// read: when it touched both, the views are marked stale and the event acknowledged
    /// as a change; otherwise nothing more is written and it is kept as a marker.
    pub fn identity_follow_up(affected_members: usize, affected_views: usize) -> (r: (Vec<(InboundStep, ConsumerDisposition)>, ConsumerDisposition))
        ensures
            r.1 == (if affected_members > 0 && affected_views > 0 {
                ConsumerDisposition::Ack
            } else {
                ConsumerDisposition::AckWithMarker
            }),
            r.1 == ConsumerDisposition::Ack <==> r.0@ == affected_views_stale_plan(),
            r.1 != ConsumerDisposition::Ack ==> r.0@.len() == 0,
    {
        let disposition = Self::identity_disposition(affected_members, affected_views);
        if affected_members > 0 && affected_views > 0 {
            (affected_views_stale_steps(), disposition)
        } else {
            let none: Vec<(InboundStep, ConsumerDisposition)> = Vec::new();
            proof {
                assert(none@.len() != affected_views_stale_plan().len());
            }
            (none, disposition)
        }
    }

    /// The follow-up of a method change once its affected views were read: views are
    /// marked stale and the event acknowledged as a change exactly when there are some.
    pub fn method_follow_up(affected_views: usize) -> (r: (Vec<(InboundStep, ConsumerDisposition)>, ConsumerDisposition))
        ensures
            r.1 == (if affected_views > 0 { ConsumerDisposition::Ack } else { ConsumerDisposition::AckWithMarker }),
            r.1 == ConsumerDisposition::Ack <==> r.0@ == affected_views_stale_plan(),
            r.1 != ConsumerDisposition::Ack ==> r.0@.len() == 0,
    {
        let disposition = Self::method_disposition(affected_views);
        if affected_views > 0 {
            (affected_views_stale_steps(), disposition)
        } else {
            let none: Vec<(InboundStep, ConsumerDisposition)> = Vec::new();
            proof {
                assert(none@.len() != affected_views_stale_plan().len());
            }
            (none, disposition)
        }
    }

    /// How a processed reference event is answered: it only records reference state and
    /// marks no view stale, so it is acknowledged with a marker.
    pub fn reference_event_disposition(event: ReferenceEvent) -> (r: ConsumerDisposition)
        ensures
            r == ConsumerDisposition::AckWithMarker,
    {
        match event {
            ReferenceEvent::ConversationWorkContextChanged
            | ReferenceEvent::ProcessTimingChanged
            | ReferenceEvent::GovernanceDecisionChanged
            | ReferenceEvent::ArtifactEvidenceChanged => ConsumerDisposition::AckWithMarker,
        }
    }

    /// The answer to one delivery, from what each stage replied: a screened-out event
    /// ends before any write; a reservation that does not proceed ends with its own
    /// disposition (a marked conflict is dead-lettered); a processing stop ends with its
    /// disposition; a processed event is answered once completed and committed.
    pub fn delivery_disposition(
        screened: Option<ConsumerDisposition>,
        reservation: InboundReservationStep,
        processed: Result<ConsumerDisposition, ConsumerDisposition>,
        complete: Result<(), IdempotencyError>,
        commit: Result<(), UnitOfWorkError>,
    ) -> (r: ConsumerDisposition)
        ensures
            r == delivery_outcome(screened, reservation, processed, complete, commit),
    {
        if let Some(disposition) = screened {
            return disposition;
        }
        match reservation {
            InboundReservationStep::Stop(disposition) => disposition,
            InboundReservationStep::MarkConflict(_) => ConsumerDisposition::DeadLetter,
            InboundReservationStep::Proceed(_) => match processed {
                Err(disposition) => disposition,
                Ok(disposition) => Self::complete_inbound(complete, commit, disposition),
            },
        }
    }

    /// A transaction that could not begin is retried.
    pub fn after_begin(begun: Result<(), UnitOfWorkError>) -> (r: Option<ConsumerDisposition>)
        ensures
            begun is Ok ==> r is None,
            begun is Err ==> r == Some(ConsumerDisposition::Retry),
    {
        match begun {
            Ok(()) => None,
            Err(_) => Some(ConsumerDisposition::Retry),
        }
    }

    /// An event whose digest cannot be computed can never be processed.
    pub fn after_digest<D, E>(digest: &Result<D, E>) -> (r: Option<ConsumerDisposition>)
        ensures
            digest is Ok ==> r is None,
            digest is Err ==> r == Some(ConsumerDisposition::DeadLetter),
    {
        match digest {
            Ok(_) => None,
            Err(_) => Some(ConsumerDisposition::DeadLetter),
        }
    }

    /// The step after the idempotency store answered: a duplicate is acknowledged
    /// without effects, a conflict is dead-lettered, a busy or failing store retried.
    pub fn reserve_inbound(reply: Result<IdempotencyReservation, IdempotencyError>) -> (r: InboundReservationStep)
        ensures
            r == reservation_step(reply),
    {
        match reply {
            Ok(IdempotencyReservation::Reserved(record)) => InboundReservationStep::Proceed(IdempotencyReservation::Reserved(record)),
            Ok(IdempotencyReservation::Duplicate(_)) => InboundReservationStep::Stop(ConsumerDisposition::AckDuplicate),
            Ok(IdempotencyReservation::Conflict(conflict)) => InboundReservationStep::MarkConflict(conflict),
            Err(IdempotencyError::Conflict) => InboundReservationStep::Stop(ConsumerDisposition::DeadLetter),
            Err(IdempotencyError::AlreadyReserved) | Err(IdempotencyError::StoreUnavailable) => {
                InboundReservationStep::Stop(ConsumerDisposition::Retry)
            },
        }
    }

    /// A store write that fails inside the transaction is retried.
    pub fn after_write<E>(written: &Result<(), E>) -> (r: Option<ConsumerDisposition>)
        ensures
            written is Ok ==> r is None,
            written is Err ==> r == Some(ConsumerDisposition::Retry),
    {
        match written {
            Ok(()) => None,
            Err(_) => Some(ConsumerDisposition::Retry),
        }
    }

    /// A domain refusal of the event's content can never be processed.
    pub fn after_domain<T, E>(checked: &Result<T, E>) -> (r: Option<ConsumerDisposition>)
        ensures
            checked is Ok ==> r is None,
            checked is Err ==> r == Some(ConsumerDisposition::DeadLetter),
    {
        match checked {
            Ok(_) => None,
            Err(_) => Some(ConsumerDisposition::DeadLetter),
        }
    }

    /// The disposition of a processed event once its reservation completed and its
    /// transaction committed.
    pub fn complete_inbound(
        complete: Result<(), IdempotencyError>,
        commit: Result<(), UnitOfWorkError>,
        disposition: ConsumerDisposition,
    ) -> (r: ConsumerDisposition)
        ensures
            r == completion_disposition(complete, commit, disposition),
    {
        if complete.is_err() {
            return ConsumerDisposition::Retry;
        }
        if commit.is_err() {
            return ConsumerDisposition::Retry;
        }
        disposition
    }

    /// A rolled-back event ends with the disposition chosen before the rollback,
    /// whatever the rollback replied.
    pub fn rollback_disposition(_rollback: Result<(), UnitOfWorkError>, disposition: ConsumerDisposition) -> (r: ConsumerDisposition)
        ensures
            r == disposition,
    {
        disposition
    }
}

/// The deduplication key of a delivery.
pub fn inbound_dedup_key<T>(envelope: &WorkInboundEventEnvelope<T>, topic: &str) -> (r: String)
    ensures
        r@ == dedup_key_text(topic@, envelope.source_event_id@, envelope.source_ref.source_system, envelope.source_ref.external_id@),
{
    let mut key = String::from_str(topic);
    key.append(":");
    key.append(envelope.source_event_id.as_str());
    key.append(":");
    key.append(u64_to_decimal(envelope.source_ref.source_system as u64).as_str());
    key.append(":");
    key.append(envelope.source_ref.external_id.as_str());
    key
}

/// The truth cursor an event marks views stale at.
pub fn truth_cursor_from_event<T>(topic: &str, envelope: &WorkInboundEventEnvelope<T>) -> (r: String)
    ensures
        r@ == event_cursor_text(topic@, envelope.source_ref.external_id@, envelope.source_event_id@),
{
    let mut cursor = String::from_str(topic);
    cursor.append(":");
    cursor.append(envelope.source_ref.external_id.as_str());
    cursor.append(":");
    cursor.append(envelope.source_event_id.as_str());
    cursor
}

/// The reference state to save after resolving it: a state the domain refuses to mark
/// resolved is reported as a version conflict of the store.
pub fn resolved_reference_state<T, E>(resolved: Result<T, E>) -> (r: Result<T, crate::ports::RepositoryError>)
    ensures
        resolved is Err ==> r == Err::<T, crate::ports::RepositoryError>(crate::ports::RepositoryError::VersionConflict),
        resolved is Ok ==> r == Ok::<T, crate::ports::RepositoryError>(resolved->Ok_0),
{
    match resolved {
        Err(_) => Err(crate::ports::RepositoryError::VersionConflict),
        Ok(state) => Ok(state),
    }
}

} // verus!
