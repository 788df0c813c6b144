//! The admission pipeline as a state machine over the collaborators' answers.
//!
//! A request moves through `New`, `ActorResolved`, `Identified`,
//! `PolicyChecked` and `Reserved` to `Planned`, or from any of them to
//! `Failed`. Each step consumes one answer: of the identity resolver, the zone
//! resolver, the policy engine, the quota service, the stability guard.
//! Transitions are irreversible and nothing outlives the request.
//!
//! Audit events are outputs of a transition, not answers it waits for: a sink
//! that fails to append loses that event and changes no decision. So the step
//! that takes the stability decision also completes the plan; no state lies
//! between the two. The `QuotaReserved` event is emitted here, by the step that
//! takes the reservation, and nowhere else: a store emits none.
use crate::amount::Amount;
use crate::energy::{rule_can_answer, TelemetryUnavailable};
use crate::identity::{ActorProfile, AuthError, ZoneResolution, ZoneUnavailable};
use crate::logging::{
    EcologicalLogEvent, EventRecord, LogEventType, MetadataContent, MetadataEntry, MetadataValue,
};
use crate::policy::{PolicyDecision, PolicyUnavailable};
use crate::quota::QuotaError;
use crate::types::{
    CapabilityTier, EcologicalJobSpec, JobExecutionPlan, ReservationId, StabilityDecision,
    UsageWindowId,
};
use vstd::prelude::*;

verus! {

/// Why a planning request was refused.
#[derive(Clone, Copy, Debug, PartialEq, Eq, Structural, Hash)]
pub enum PlanError {
    Unauthenticated,
    ZoneUnavailable,
    TierForbidden,
    TierExceeded,
    FlopsExceeded,
    EnergyExceeded,
    CarbonExceeded,
    QuotaStoreUnavailable,
    TelemetryUnavailable,
    Internal,
}

impl PlanError {
    /// The kind of a failed identity resolution: an unknown token is the
    /// caller's fault, an unavailable resolver is internal.
    pub open spec fn of_auth(e: AuthError) -> PlanError {
        match e {
            AuthError::Unauthenticated => PlanError::Unauthenticated,
            AuthError::Upstream => PlanError::Internal,
        }
    }

    /// The kind of a failed reservation.
    pub open spec fn of_quota(e: QuotaError) -> PlanError {
        match e {
            QuotaError::TierExceeded => PlanError::TierExceeded,
            QuotaError::FlopsExceeded => PlanError::FlopsExceeded,
            QuotaError::EnergyExceeded => PlanError::EnergyExceeded,
            QuotaError::CarbonExceeded => PlanError::CarbonExceeded,
            QuotaError::StoreUnavailable => PlanError::QuotaStoreUnavailable,
        }
    }

    /// The status a transport reports for this kind: 4xx for faults of the
    /// caller, 5xx for faults upstream.
    pub open spec fn status(self) -> u16 {
        match self {
            PlanError::Unauthenticated => 401,
            PlanError::TierForbidden => 403,
            PlanError::TierExceeded => 409,
            PlanError::FlopsExceeded => 409,
            PlanError::EnergyExceeded => 409,
            PlanError::CarbonExceeded => 409,
            PlanError::ZoneUnavailable => 503,
            PlanError::QuotaStoreUnavailable => 503,
            PlanError::TelemetryUnavailable => 503,
            PlanError::Internal => 500,
        }
    }

    /// The text that goes with this kind.
    pub open spec fn text(self) -> Seq<char> {
        match self {
            PlanError::Unauthenticated => "session token is unknown or has expired"@,
            PlanError::ZoneUnavailable => "zone resolution is unavailable"@,
            PlanError::TierForbidden => "requested tier not allowed by policy"@,
            PlanError::TierExceeded => "requested tier exceeds maximum allowed tier"@,
            PlanError::FlopsExceeded => "FLOPs allowance exceeded"@,
            PlanError::EnergyExceeded => "energy allowance exceeded"@,
            PlanError::CarbonExceeded => "carbon allowance exceeded"@,
            PlanError::QuotaStoreUnavailable => "quota store is unavailable"@,
            PlanError::TelemetryUnavailable => "segment telemetry is unavailable"@,
            PlanError::Internal => "internal error"@,
        }
    }

    /// Computes [`PlanError::of_auth`].
    pub fn from_auth(e: AuthError) -> (r: PlanError)
        ensures
            r == PlanError::of_auth(e),
    {
        match e {
            AuthError::Unauthenticated => PlanError::Unauthenticated,
            AuthError::Upstream => PlanError::Internal,
        }
    }

    /// Computes [`PlanError::of_quota`].
    pub fn from_quota(e: QuotaError) -> (r: PlanError)
        ensures
            r == PlanError::of_quota(e),
    {
        match e {
            QuotaError::TierExceeded => PlanError::TierExceeded,
            QuotaError::FlopsExceeded => PlanError::FlopsExceeded,
            QuotaError::EnergyExceeded => PlanError::EnergyExceeded,
            QuotaError::CarbonExceeded => PlanError::CarbonExceeded,
            QuotaError::StoreUnavailable => PlanError::QuotaStoreUnavailable,
        }
    }

    /// Computes [`PlanError::status`].
    pub fn status_code(&self) -> (r: u16)
        ensures
            r == self.status(),
            400 <= r < 600,
    {
        match self {
            PlanError::Unauthenticated => 401,
            PlanError::TierForbidden => 403,
            PlanError::TierExceeded => 409,
            PlanError::FlopsExceeded => 409,
            PlanError::EnergyExceeded => 409,
            PlanError::CarbonExceeded => 409,
            PlanError::ZoneUnavailable => 503,
            PlanError::QuotaStoreUnavailable => 503,
            PlanError::TelemetryUnavailable => 503,
            PlanError::Internal => 500,
        }
    }

    /// Computes [`PlanError::text`].
    pub fn message(&self) -> (r: String)
        ensures
            r@ == self.text(),
    {
        match self {
            PlanError::Unauthenticated => "session token is unknown or has expired".to_string(),
            PlanError::ZoneUnavailable => "zone resolution is unavailable".to_string(),
            PlanError::TierForbidden => "requested tier not allowed by policy".to_string(),
            PlanError::TierExceeded => "requested tier exceeds maximum allowed tier".to_string(),
            PlanError::FlopsExceeded => "FLOPs allowance exceeded".to_string(),
            PlanError::EnergyExceeded => "energy allowance exceeded".to_string(),
            PlanError::CarbonExceeded => "carbon allowance exceeded".to_string(),
            PlanError::QuotaStoreUnavailable => "quota store is unavailable".to_string(),
            PlanError::TelemetryUnavailable => "segment telemetry is unavailable".to_string(),
            PlanError::Internal => "internal error".to_string(),
        }
    }
}

/// What a caller submits, less the session token.
#[derive(Clone, Debug, PartialEq, Eq)]
pub struct PlanRequest {
    pub window_id: UsageWindowId,
    pub job: EcologicalJobSpec,
    pub expected_energy_kwh: Amount,
    pub expected_carbon_kg: Amount,
}

/// Where a request stands, with what has been learnt so far.
#[derive(Debug, PartialEq, Eq)]
pub enum PlanState {
    /// Nothing is known yet; the identity resolver is asked next.
    New { request: PlanRequest },
    /// The actor is known; the zone resolver is asked next.
    ActorResolved { request: PlanRequest, actor: ActorProfile },
    /// Actor and zone are known; the policy engine is asked next.
    Identified { request: PlanRequest, actor: ActorProfile, zone: ZoneResolution },
    /// Policy allows the requested tier; the quota service is asked next.
    PolicyChecked { request: PlanRequest, actor: ActorProfile, zone: ZoneResolution },
    /// The budget is reserved; the stability guard is asked next.
    Reserved {
        request: PlanRequest,
        actor: ActorProfile,
        zone: ZoneResolution,
        reservation_id: ReservationId,
    },
    /// The request was admitted with this plan.
    Planned { plan: JobExecutionPlan },
    /// The request was refused. `retained` is the reservation that stays in
    /// place where the failure came after it was made.
    Failed { error: PlanError, retained: Option<ReservationId> },
}

/// An answer of a collaborator.
#[derive(Debug, PartialEq, Eq)]
pub enum Reply {
    Actor(Result<ActorProfile, AuthError>),
    Zone(Result<ZoneResolution, ZoneUnavailable>),
    Policy(Result<PolicyDecision, PolicyUnavailable>),
    Reservation(Result<ReservationId, QuotaError>),
    Stability(Result<StabilityDecision, TelemetryUnavailable>),
}

/// The result of one step: the state that follows and the audit event to
/// append, if the step has one.
#[derive(Debug, PartialEq, Eq)]
pub struct Transition {
    pub next: PlanState,
    pub emit: Option<EcologicalLogEvent>,
}

/// The record of the `PolicyEvaluated` event: correlated with actor, segment
/// and window, without a reservation, and carrying the decision's risk score,
/// approval flag and notes.
pub open spec fn policy_record(
    request: PlanRequest,
    actor: ActorProfile,
    zone: ZoneResolution,
    decision: PolicyDecision,
) -> EventRecord {
    EventRecord {
        event_type: LogEventType::PolicyEvaluated,
        reservation_id: None,
        actor_id: Some(actor.actor_id@),
        segment_id: Some(zone.segment_id@),
        window_id: Some(request.window_id@),
        metadata: seq![
            ("risk_score"@, MetadataContent::Number(decision.risk_score)),
            (
                "requires_human_approval"@,
                MetadataContent::Flag(decision.requires_human_approval),
            ),
            ("notes"@, MetadataContent::Texts(decision.notes.deep_view())),
        ],
    }
}

/// The record of the `QuotaReserved` event: correlated with the reservation,
/// actor, segment and window, and carrying the three amounts that were
/// reserved and the tier they were reserved for.
pub open spec fn quota_record(
    request: PlanRequest,
    actor: ActorProfile,
    zone: ZoneResolution,
    reservation_id: ReservationId,
) -> EventRecord {
    EventRecord {
        event_type: LogEventType::QuotaReserved,
        reservation_id: Some(reservation_id),
        actor_id: Some(actor.actor_id@),
        segment_id: Some(zone.segment_id@),
        window_id: Some(request.window_id@),
        metadata: seq![
            ("expected_flops"@, MetadataContent::Number(request.job.expected_flops)),
            ("expected_energy_kwh"@, MetadataContent::Number(request.expected_energy_kwh)),
            ("expected_carbon_kg"@, MetadataContent::Number(request.expected_carbon_kg)),
            ("tier"@, MetadataContent::Tier(request.job.requested_tier)),
        ],
    }
}

/// The record of the `StabilityChecked` event: correlated with the
/// reservation, actor, segment and window, and carrying the decision.
pub open spec fn stability_record(
    request: PlanRequest,
    actor: ActorProfile,
    zone: ZoneResolution,
    reservation_id: ReservationId,
    decision: StabilityDecision,
) -> EventRecord {
    EventRecord {
        event_type: LogEventType::StabilityChecked,
        reservation_id: Some(reservation_id),
        actor_id: Some(actor.actor_id@),
        segment_id: Some(zone.segment_id@),
        window_id: Some(request.window_id@),
        metadata: seq![("stability_decision"@, MetadataContent::Decision(decision.deep_view()))],
    }
}

/// The plan for a reserved job under a stability decision: on the actor's
/// segment, at the tier the decision leaves. A throttle or a denial still
/// yields a plan; the plan conveys the decision and running the job is the
/// caller's affair.
pub open spec fn plan_for(
    request: PlanRequest,
    zone: ZoneResolution,
    reservation_id: ReservationId,
    decision: StabilityDecision,
) -> JobExecutionPlan {
    JobExecutionPlan {
        reservation_id,
        approved_segment: zone.segment_id,
        approved_tier: decision.tier_after(request.job.requested_tier),
        stability_decision: decision,
    }
}

impl PlanState {
    /// The state of a request that has just come in.
    pub fn start(request: PlanRequest) -> (r: PlanState)
        ensures
            r == (PlanState::New { request }),
    {
        PlanState::New { request }
    }

    /// Whether the request has come to its end.
    pub open spec fn terminal(&self) -> bool {
        self is Planned || self is Failed
    }

    /// How many answers the request still waits for at most.
    pub open spec fn steps_left(&self) -> nat {
        match *self {
            PlanState::New { .. } => 5,
            PlanState::ActorResolved { .. } => 4,
            PlanState::Identified { .. } => 3,
            PlanState::PolicyChecked { .. } => 2,
            PlanState::Reserved { .. } => 1,
            PlanState::Planned { .. } => 0,
            PlanState::Failed { .. } => 0,
        }
    }

    /// Whether `reply` is of the collaborator that this state waits for.
    pub open spec fn awaits(&self, reply: Reply) -> bool {
        match *self {
            PlanState::New { .. } => reply is Actor,
            PlanState::ActorResolved { .. } => reply is Zone,
            PlanState::Identified { .. } => reply is Policy,
            PlanState::PolicyChecked { .. } => reply is Reservation,
            PlanState::Reserved { .. } => reply is Stability,
            PlanState::Planned { .. } => false,
            PlanState::Failed { .. } => false,
        }
    }

    /// What the caller gets: the plan of a planned request, the error's kind
    /// of a failed one. A request on its way has no outcome yet and counts as
    /// an internal error.
    pub open spec fn outcome(self) -> Result<JobExecutionPlan, PlanError> {
        match self {
            PlanState::Planned { plan } => Ok(plan),
            PlanState::Failed { error, .. } => Err(error),
            _ => Err(PlanError::Internal),
        }
    }

    /// The reservation that this state holds, if one has been made.
    pub open spec fn reservation(&self) -> Option<ReservationId> {
        match *self {
            PlanState::Reserved { reservation_id, .. } => Some(reservation_id),
            PlanState::Planned { plan } => Some(plan.reservation_id),
            PlanState::Failed { retained, .. } => retained,
            _ => None,
        }
    }

    /// Whether the state belongs to a request for `tier`: a state on the way
    /// holds a job that asks for it, and a plan has the tier that its decision
    /// leaves of it.
    pub open spec fn asks_for(&self, tier: CapabilityTier) -> bool {
        match *self {
            PlanState::New { request } => request.job.requested_tier == tier,
            PlanState::ActorResolved { request, .. } => request.job.requested_tier == tier,
            PlanState::Identified { request, .. } => request.job.requested_tier == tier,
            PlanState::PolicyChecked { request, .. } => request.job.requested_tier == tier,
            PlanState::Reserved { request, .. } => request.job.requested_tier == tier,
            PlanState::Planned { plan } => plan.approved_tier == plan.stability_decision.tier_after(
                tier,
            ),
            PlanState::Failed { .. } => true,
        }
    }

    /// The state after `reply`.
    ///
    /// An answer that fails ends the request with the error's kind. A policy
    /// decision that does not allow the requested tier ends it with
    /// `TierForbidden`. A stability decision completes the plan whatever it
    /// says. An answer that the state does not wait for ends the request with
    /// `Internal`. A state at its end stays as it is.
    pub open spec fn next(self, reply: Reply) -> PlanState {
        match self {
            PlanState::New { request } => match reply {
                Reply::Actor(Ok(actor)) => PlanState::ActorResolved { request, actor },
                Reply::Actor(Err(e)) => PlanState::Failed {
                    error: PlanError::of_auth(e),
                    retained: None,
                },
                _ => PlanState::Failed { error: PlanError::Internal, retained: None },
            },
            PlanState::ActorResolved { request, actor } => match reply {
                Reply::Zone(Ok(zone)) => PlanState::Identified { request, actor, zone },
                Reply::Zone(Err(_)) => PlanState::Failed {
                    error: PlanError::ZoneUnavailable,
                    retained: None,
                },
                _ => PlanState::Failed { error: PlanError::Internal, retained: None },
            },
            PlanState::Identified { request, actor, zone } => match reply {
                Reply::Policy(Ok(decision)) => if decision.allowed_tiers@.contains(
                    request.job.requested_tier,
                ) {
                    PlanState::PolicyChecked { request, actor, zone }
                } else {
                    PlanState::Failed { error: PlanError::TierForbidden, retained: None }
                },
                _ => PlanState::Failed { error: PlanError::Internal, retained: None },
            },
            PlanState::PolicyChecked { request, actor, zone } => match reply {
                Reply::Reservation(Ok(reservation_id)) => PlanState::Reserved {
                    request,
                    actor,
                    zone,
                    reservation_id,
                },
                Reply::Reservation(Err(e)) => PlanState::Failed {
                    error: PlanError::of_quota(e),
                    retained: None,
                },
                _ => PlanState::Failed { error: PlanError::Internal, retained: None },
            },
            PlanState::Reserved { request, actor, zone, reservation_id } => match reply {
                Reply::Stability(Ok(decision)) => PlanState::Planned {
                    plan: plan_for(request, zone, reservation_id, decision),
                },
                Reply::Stability(Err(_)) => PlanState::Failed {
                    error: PlanError::TelemetryUnavailable,
                    retained: Some(reservation_id),
                },
                _ => PlanState::Failed {
                    error: PlanError::Internal,
                    retained: Some(reservation_id),
                },
            },
            PlanState::Planned { plan } => PlanState::Planned { plan },
            PlanState::Failed { error, retained } => PlanState::Failed { error, retained },
        }
    }

    /// The audit event of the step from this state on `reply`: a policy
    /// decision is recorded whether or not it allows the tier, a reservation
    /// that was made is recorded with what it reserves, a stability decision
    /// is recorded with the reservation, and no other step leaves an event.
    pub open spec fn emitted(self, reply: Reply) -> Option<EventRecord> {
        match (self, reply) {
            (PlanState::Identified { request, actor, zone }, Reply::Policy(Ok(decision))) => Some(
                policy_record(request, actor, zone, decision),
            ),
            (
                PlanState::PolicyChecked { request, actor, zone },
                Reply::Reservation(Ok(reservation_id)),
            ) => Some(quota_record(request, actor, zone, reservation_id)),
            (
                PlanState::Reserved { request, actor, zone, reservation_id },
                Reply::Stability(Ok(decision)),
            ) => Some(stability_record(request, actor, zone, reservation_id, decision)),
            _ => None,
        }
    }

    /// Tests [`PlanState::terminal`].
    pub fn is_terminal(&self) -> (r: bool)
        ensures
            r == self.terminal(),
    {
        match self {
            PlanState::Planned { .. } => true,
            PlanState::Failed { .. } => true,
            _ => false,
        }
    }

    /// Computes [`PlanState::outcome`].
    pub fn into_result(self) -> (r: Result<JobExecutionPlan, PlanError>)
        ensures
            r == self.outcome(),
    {
        match self {
            PlanState::Planned { plan } => Ok(plan),
            PlanState::Failed { error, .. } => Err(error),
            _ => Err(PlanError::Internal),
        }
    }

    /// Takes one step: computes [`PlanState::next`] and builds the event of
    /// [`PlanState::emitted`].
    pub fn advance(self, reply: Reply) -> (t: Transition)
        ensures
            t.next == self.next(reply),
            t.emit.deep_view() == self.emitted(reply),
    {
        match self {
            PlanState::New { request } => match reply {
                Reply::Actor(Ok(actor)) => Transition {
                    next: PlanState::ActorResolved { request, actor },
                    emit: None,
                },
                Reply::Actor(Err(e)) => failed(PlanError::from_auth(e), None),
                _ => failed(PlanError::Internal, None),
            },
            PlanState::ActorResolved { request, actor } => match reply {
                Reply::Zone(Ok(zone)) => Transition {
                    next: PlanState::Identified { request, actor, zone },
                    emit: None,
                },
                Reply::Zone(Err(_)) => failed(PlanError::ZoneUnavailable, None),
                _ => failed(PlanError::Internal, None),
            },
            PlanState::Identified { request, actor, zone } => match reply {
                Reply::Policy(Ok(decision)) => {
                    let allowed = decision.allows(&request.job.requested_tier);
                    let event = policy_event(&request, &actor, &zone, decision);
                    let next = if allowed {
                        PlanState::PolicyChecked { request, actor, zone }
                    } else {
                        PlanState::Failed { error: PlanError::TierForbidden, retained: None }
                    };
                    Transition { next, emit: Some(event) }
                },
                _ => failed(PlanError::Internal, None),
            },
            PlanState::PolicyChecked { request, actor, zone } => match reply {
                Reply::Reservation(Ok(reservation_id)) => {
                    let event = quota_event(&request, &actor, &zone, &reservation_id);
                    Transition {
                        next: PlanState::Reserved { request, actor, zone, reservation_id },
                        emit: Some(event),
                    }
                },
                Reply::Reservation(Err(e)) => failed(PlanError::from_quota(e), None),
                _ => failed(PlanError::Internal, None),
            },
            PlanState::Reserved { request, actor, zone, reservation_id } => match reply {
                Reply::Stability(Ok(decision)) => {
                    let event = stability_event(&request, &actor, &zone, &reservation_id, &decision);
                    let approved_tier = decision.approved_tier(request.job.requested_tier);
                    let plan = JobExecutionPlan {
                        reservation_id,
                        approved_segment: zone.segment_id,
                        approved_tier,
                        stability_decision: decision,
                    };
                    Transition { next: PlanState::Planned { plan }, emit: Some(event) }
                },
                Reply::Stability(Err(_)) => failed(
                    PlanError::TelemetryUnavailable,
                    Some(reservation_id),
                ),
                _ => failed(PlanError::Internal, Some(reservation_id)),
            },
            PlanState::Planned { plan } => Transition {
                next: PlanState::Planned { plan },
                emit: None,
            },
            PlanState::Failed { error, retained } => Transition {
                next: PlanState::Failed { error, retained },
                emit: None,
            },
        }
    }
}

fn failed(error: PlanError, retained: Option<ReservationId>) -> (t: Transition)
    ensures
        t.next == (PlanState::Failed { error, retained }),
        t.emit is None,
{
    Transition { next: PlanState::Failed { error, retained }, emit: None }
}

/// Builds the event of [`policy_record`].
pub fn policy_event(
    request: &PlanRequest,
    actor: &ActorProfile,
    zone: &ZoneResolution,
    decision: PolicyDecision,
) -> (event: EcologicalLogEvent)
    ensures
        event.deep_view() == policy_record(*request, *actor, *zone, decision),
{
    let ghost record = policy_record(*request, *actor, *zone, decision);
    let mut metadata: Vec<MetadataEntry> = Vec::new();
    metadata.push(
        MetadataEntry {
            key: "risk_score".to_string(),
            value: MetadataValue::Number(decision.risk_score),
        },
    );
    metadata.push(
        MetadataEntry {
            key: "requires_human_approval".to_string(),
            value: MetadataValue::Flag(decision.requires_human_approval),
        },
    );
    metadata.push(
        MetadataEntry { key: "notes".to_string(), value: MetadataValue::Texts(decision.notes) },
    );
    let event = EcologicalLogEvent {
        event_type: LogEventType::PolicyEvaluated,
        reservation_id: None,
        actor_id: Some(actor.actor_id.clone()),
        segment_id: Some(zone.segment_id.clone()),
        window_id: Some(request.window_id.clone()),
        metadata,
    };
    assert(event.metadata.deep_view() =~= record.metadata);
    event
}

/// Builds the event of [`quota_record`].
pub fn quota_event(
    request: &PlanRequest,
    actor: &ActorProfile,
    zone: &ZoneResolution,
    reservation_id: &ReservationId,
) -> (event: EcologicalLogEvent)
    ensures
        event.deep_view() == quota_record(*request, *actor, *zone, *reservation_id),
{
    let mut metadata: Vec<MetadataEntry> = Vec::new();
    metadata.push(
        MetadataEntry {
            key: "expected_flops".to_string(),
            value: MetadataValue::Number(request.job.expected_flops),
        },
    );
    metadata.push(
        MetadataEntry {
            key: "expected_energy_kwh".to_string(),
            value: MetadataValue::Number(request.expected_energy_kwh),
        },
    );
    metadata.push(
        MetadataEntry {
            key: "expected_carbon_kg".to_string(),
            value: MetadataValue::Number(request.expected_carbon_kg),
        },
    );
    metadata.push(
        MetadataEntry {
            key: "tier".to_string(),
            value: MetadataValue::Tier(request.job.requested_tier),
        },
    );
    let event = EcologicalLogEvent {
        event_type: LogEventType::QuotaReserved,
        reservation_id: Some(reservation_id.clone()),
        actor_id: Some(actor.actor_id.clone()),
        segment_id: Some(zone.segment_id.clone()),
        window_id: Some(request.window_id.clone()),
        metadata,
    };
    assert(event.metadata.deep_view() =~= quota_record(
        *request,
        *actor,
        *zone,
        *reservation_id,
    ).metadata);
    event
}

/// Builds the event of [`stability_record`].
pub fn stability_event(
    request: &PlanRequest,
    actor: &ActorProfile,
    zone: &ZoneResolution,
    reservation_id: &ReservationId,
    decision: &StabilityDecision,
) -> (event: EcologicalLogEvent)
    ensures
        event.deep_view() == stability_record(*request, *actor, *zone, *reservation_id, *decision),
{
    let mut metadata: Vec<MetadataEntry> = Vec::new();
    metadata.push(
        MetadataEntry {
            key: "stability_decision".to_string(),
            value: MetadataValue::Decision(decision.clone()),
        },
    );
    let event = EcologicalLogEvent {
        event_type: LogEventType::StabilityChecked,
        reservation_id: Some(reservation_id.clone()),
        actor_id: Some(actor.actor_id.clone()),
        segment_id: Some(zone.segment_id.clone()),
        window_id: Some(request.window_id.clone()),
        metadata,
    };
    assert(event.metadata.deep_view() =~= stability_record(
        *request,
        *actor,
        *zone,
        *reservation_id,
        *decision,
    ).metadata);
    event
}

/// Where a run has come to: the state of the request and the audit events
/// emitted on the way, oldest first.
pub ghost struct Trail {
    pub state: PlanState,
    pub events: Seq<EventRecord>,
}

/// The run of a fresh request on `replies`, taken one after another.
pub open spec fn run(request: PlanRequest, replies: Seq<Reply>) -> Trail
    decreases replies.len(),
{
    if replies.len() == 0 {
        Trail { state: PlanState::New { request }, events: Seq::empty() }
    } else {
        let before = run(request, replies.drop_last());
        Trail {
            state: before.state.next(replies.last()),
            events: match before.state.emitted(replies.last()) {
                Some(event) => before.events.push(event),
                None => before.events,
            },
        }
    }
}

/// Whether each of `replies` came from the collaborator that the run waited
/// for when it was given.
pub open spec fn asked_in_turn(request: PlanRequest, replies: Seq<Reply>) -> bool {
    forall|n: int|
        0 <= n < replies.len() ==> (#[trigger] run(request, replies.take(n))).state.awaits(
            replies[n],
        )
}

/// Whether each stability decision among `replies` is one that the rule of a
/// guard with this configuration gives for a job at `requested_tier`.
pub open spec fn decisions_follow_rule(
    replies: Seq<Reply>,
    max_thermal_pct: Amount,
    min_renewable_pct: Amount,
    throttle_delay: u64,
    requested_tier: CapabilityTier,
) -> bool {
    forall|i: int|
        0 <= i < replies.len() ==> (#[trigger] replies[i] matches Reply::Stability(
            Ok(decision),
        ) ==> rule_can_answer(
            max_thermal_pct,
            min_renewable_pct,
            throttle_delay,
            requested_tier,
            decision.deep_view(),
        ))
}

} // verus!
