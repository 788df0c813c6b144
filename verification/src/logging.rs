//! The audit trail: events, the append-only sink they go to, and the receipt
//! that closes a reservation.
use crate::amount::Amount;
use crate::types::{
    ActorId, CapabilityTier, ComputeEnergyAllowance, FairUseReceipt, JobExecutionPlan,
    ReservationId, SegmentId, StabilityDecision, StabilityVerdict, UsageSnapshot, UsageWindowId,
};
use vstd::prelude::*;

verus! {

/// The type tag of an audit event.
#[derive(Clone, Copy, Debug, PartialEq, Eq, Structural, Hash)]
pub enum LogEventType {
    JobRequested,
    QuotaReserved,
    JobStarted,
    JobCompleted,
    PolicyEvaluated,
    StabilityChecked,
}

/// One value of an event's metadata.
#[derive(Clone, Debug, PartialEq, Eq)]
pub enum MetadataValue {
    Flag(bool),
    Number(Amount),
    Text(String),
    Texts(Vec<String>),
    Tier(CapabilityTier),
    Decision(StabilityDecision),
}

/// A [`MetadataValue`] with its texts as sequences of characters.
pub ghost enum MetadataContent {
    Flag(bool),
    Number(Amount),
    Text(Seq<char>),
    Texts(Seq<Seq<char>>),
    Tier(CapabilityTier),
    Decision(StabilityVerdict),
}

impl DeepView for MetadataValue {
    type V = MetadataContent;

    open spec fn deep_view(&self) -> MetadataContent {
        match *self {
            MetadataValue::Flag(b) => MetadataContent::Flag(b),
            MetadataValue::Number(n) => MetadataContent::Number(n),
            MetadataValue::Text(t) => MetadataContent::Text(t@),
            MetadataValue::Texts(ts) => MetadataContent::Texts(ts.deep_view()),
            MetadataValue::Tier(t) => MetadataContent::Tier(t),
            MetadataValue::Decision(d) => MetadataContent::Decision(d.deep_view()),
        }
    }
}

/// One entry of an event's metadata: a key and its value.
#[derive(Clone, Debug, PartialEq, Eq)]
pub struct MetadataEntry {
    pub key: String,
    pub value: MetadataValue,
}

impl DeepView for MetadataEntry {
    type V = (Seq<char>, MetadataContent);

    open spec fn deep_view(&self) -> (Seq<char>, MetadataContent) {
        (self.key@, self.value.deep_view())
    }
}

/// An audit event: a type tag, the identifiers it correlates with, and
/// free-form metadata as a list of keyed values.
#[derive(Clone, Debug, PartialEq, Eq)]
pub struct EcologicalLogEvent {
    pub event_type: LogEventType,
    pub reservation_id: Option<ReservationId>,
    pub actor_id: Option<ActorId>,
    pub segment_id: Option<SegmentId>,
    pub window_id: Option<UsageWindowId>,
    pub metadata: Vec<MetadataEntry>,
}

/// An [`EcologicalLogEvent`] with its texts as sequences of characters.
pub ghost struct EventRecord {
    pub event_type: LogEventType,
    pub reservation_id: Option<ReservationId>,
    pub actor_id: Option<Seq<char>>,
    pub segment_id: Option<Seq<char>>,
    pub window_id: Option<Seq<char>>,
    pub metadata: Seq<(Seq<char>, MetadataContent)>,
}

impl DeepView for EcologicalLogEvent {
    type V = EventRecord;

    open spec fn deep_view(&self) -> EventRecord {
        EventRecord {
            event_type: self.event_type,
            reservation_id: self.reservation_id,
            actor_id: self.actor_id.deep_view(),
            segment_id: self.segment_id.deep_view(),
            window_id: self.window_id.deep_view(),
            metadata: self.metadata.deep_view(),
        }
    }
}

/// An event could not be appended.
#[derive(Clone, Copy, Debug, PartialEq, Eq, Structural)]
pub struct LogUnavailable;

/// Append-only sink of audit events, totally ordered per instance. An
/// implementation stores the event as it is handed over.
///
/// The relation says which answers the sink may give to which event. A sink
/// that states nothing leaves it as it is; whoever appends states its own
/// result over it.
pub trait ImmutableLogger: Send + Sync {
    /// Whether `answer` is one that this sink may give when `event` is handed
    /// to it.
    open spec fn may_append(
        &self,
        event: EcologicalLogEvent,
        answer: Result<(), LogUnavailable>,
    ) -> bool {
        true
    }

    fn append(&self, event: &EcologicalLogEvent) -> (answer: Result<(), LogUnavailable>)
        ensures
            self.may_append(*event, answer),
    ;
}

/// The record of the event that announces the start of a planned job: tagged
/// `JobStarted`, correlated with the plan's reservation, the actor and the
/// approved segment, and carrying the approved tier and the stability
/// decision.
pub open spec fn job_started_record(plan: JobExecutionPlan, actor: ActorId) -> EventRecord {
    EventRecord {
        event_type: LogEventType::JobStarted,
        reservation_id: Some(plan.reservation_id),
        actor_id: Some(actor@),
        segment_id: Some(plan.approved_segment@),
        window_id: None,
        metadata: seq![
            ("tier"@, MetadataContent::Tier(plan.approved_tier)),
            (
                "stability_decision"@,
                MetadataContent::Decision(plan.stability_decision.deep_view()),
            ),
        ],
    }
}

/// Builds the event of [`job_started_record`].
pub fn job_started_event(plan: &JobExecutionPlan, actor: &ActorId) -> (event: EcologicalLogEvent)
    ensures
        event.deep_view() == job_started_record(*plan, *actor),
{
    let mut metadata: Vec<MetadataEntry> = Vec::new();
    metadata.push(
        MetadataEntry { key: "tier".to_string(), value: MetadataValue::Tier(plan.approved_tier) },
    );
    metadata.push(
        MetadataEntry {
            key: "stability_decision".to_string(),
            value: MetadataValue::Decision(plan.stability_decision.clone()),
        },
    );
    let event = EcologicalLogEvent {
        event_type: LogEventType::JobStarted,
        reservation_id: Some(plan.reservation_id.clone()),
        actor_id: Some(actor.clone()),
        segment_id: Some(plan.approved_segment.clone()),
        window_id: None,
        metadata,
    };
    assert(event.metadata.deep_view() =~= job_started_record(*plan, *actor).metadata);
    event
}

/// Whether `answer` is one that `logger` may give to the `JobStarted` event of
/// a plan, see [`job_started_record`].
pub open spec fn plan_logged<L: ImmutableLogger>(
    logger: L,
    plan: JobExecutionPlan,
    actor: ActorId,
    answer: Result<(), LogUnavailable>,
) -> bool {
    exists|event: EcologicalLogEvent|
        event.deep_view() == job_started_record(plan, actor) && #[trigger] logger.may_append(
            event,
            answer,
        )
}

/// Appends the `JobStarted` event of a plan and hands back the sink's answer
/// to it.
pub fn log_execution_plan<L: ImmutableLogger>(
    logger: &L,
    plan: &JobExecutionPlan,
    actor: &ActorId,
) -> (r: Result<(), LogUnavailable>)
    ensures
        plan_logged(*logger, *plan, *actor, r),
{
    let event = job_started_event(plan, actor);
    logger.append(&event)
}

/// Puts a receipt together from a reservation, what was measured, and what is
/// left of the allowance after settlement. Every argument is taken over as it
/// is.
pub fn build_receipt(
    reservation_id: ReservationId,
    actor_id: ActorId,
    segment_id: SegmentId,
    window_id: UsageWindowId,
    flops_used: Amount,
    energy_kwh_used: Amount,
    carbon_kg_emitted: Amount,
    allowance_remaining_flops: Amount,
    allowance_remaining_energy_kwh: Amount,
    allowance_remaining_carbon_kg: Amount,
) -> (receipt: FairUseReceipt)
    ensures
        receipt.reservation_id == reservation_id,
        receipt.actor_id == actor_id,
        receipt.segment_id == segment_id,
        receipt.window_id == window_id,
        receipt.flops_used == flops_used,
        receipt.energy_kwh_used == energy_kwh_used,
        receipt.carbon_kg_emitted == carbon_kg_emitted,
        receipt.allowance_remaining_flops == allowance_remaining_flops,
        receipt.allowance_remaining_energy_kwh == allowance_remaining_energy_kwh,
        receipt.allowance_remaining_carbon_kg == allowance_remaining_carbon_kg,
        receipt.explanation@
            == "Ecological job executed within configured FLOPs, energy, and carbon budgets; aligned with ALN ethical and stability constraints."@,
{
    FairUseReceipt {
        reservation_id,
        actor_id,
        segment_id,
        flops_used,
        energy_kwh_used,
        carbon_kg_emitted,
        window_id,
        allowance_remaining_flops,
        allowance_remaining_energy_kwh,
        allowance_remaining_carbon_kg,
        explanation: "Ecological job executed within configured FLOPs, energy, and carbon budgets; aligned with ALN ethical and stability constraints.".to_string(),
    }
}

/// What is left of a budget of `max` once `actual` is consumed on top of
/// `used_before`; `None` where consumption overruns the budget.
pub open spec fn remaining_after(max: Amount, used_before: Amount, actual: Amount) -> Option<
    Amount,
> {
    if used_before.micros + actual.micros <= max.micros {
        Some(Amount { micros: (max.micros - used_before.micros - actual.micros) as u128 })
    } else {
        None
    }
}

/// Computes [`remaining_after`].
pub fn settle(max: Amount, used_before: Amount, actual: Amount) -> (r: Option<Amount>)
    ensures
        r == remaining_after(max, used_before, actual),
{
    match used_before.checked_add(&actual) {
        Some(used_after) => max.checked_sub(&used_after),
        None => None,
    }
}

/// Whether a receipt's remainders are what is left of `allowance` once the
/// receipt's consumption is added to `usage_before`, on each of the three
/// axes.
pub open spec fn receipt_settles(
    receipt: FairUseReceipt,
    allowance: ComputeEnergyAllowance,
    usage_before: UsageSnapshot,
) -> bool {
    &&& Some(receipt.allowance_remaining_flops) == remaining_after(
        allowance.max_flops,
        usage_before.flops_used,
        receipt.flops_used,
    )
    &&& Some(receipt.allowance_remaining_energy_kwh) == remaining_after(
        allowance.max_energy_kwh,
        usage_before.energy_kwh_used,
        receipt.energy_kwh_used,
    )
    &&& Some(receipt.allowance_remaining_carbon_kg) == remaining_after(
        allowance.max_carbon_kg,
        usage_before.carbon_kg_emitted,
        receipt.carbon_kg_emitted,
    )
}

/// Settles a reservation: the receipt for what a job consumed, with the
/// allowance's remainders computed from the usage before the job. `None` where
/// consumption overran the allowance on some axis.
pub fn settle_receipt(
    reservation_id: ReservationId,
    actor_id: ActorId,
    segment_id: SegmentId,
    allowance: &ComputeEnergyAllowance,
    usage_before: &UsageSnapshot,
    flops_used: Amount,
    energy_kwh_used: Amount,
    carbon_kg_emitted: Amount,
) -> (r: Option<FairUseReceipt>)
    ensures
        r is Some <==> remaining_after(allowance.max_flops, usage_before.flops_used, flops_used)
            is Some && remaining_after(
            allowance.max_energy_kwh,
            usage_before.energy_kwh_used,
            energy_kwh_used,
        ) is Some && remaining_after(
            allowance.max_carbon_kg,
            usage_before.carbon_kg_emitted,
            carbon_kg_emitted,
        ) is Some,
        r matches Some(receipt) ==> {
            &&& receipt.reservation_id == reservation_id
            &&& receipt.actor_id == actor_id
            &&& receipt.segment_id == segment_id
            &&& receipt.window_id == usage_before.window_id
            &&& receipt.flops_used == flops_used
            &&& receipt.energy_kwh_used == energy_kwh_used
            &&& receipt.carbon_kg_emitted == carbon_kg_emitted
            &&& receipt_settles(receipt, *allowance, *usage_before)
            &&& receipt.explanation@
                == "Ecological job executed within configured FLOPs, energy, and carbon budgets; aligned with ALN ethical and stability constraints."@
        },
{
    let left_flops = settle(allowance.max_flops, usage_before.flops_used, flops_used);
    let left_energy = settle(
        allowance.max_energy_kwh,
        usage_before.energy_kwh_used,
        energy_kwh_used,
    );
    let left_carbon = settle(
        allowance.max_carbon_kg,
        usage_before.carbon_kg_emitted,
        carbon_kg_emitted,
    );
    match (left_flops, left_energy, left_carbon) {
        (Some(flops), Some(energy), Some(carbon)) => Some(
            build_receipt(
                reservation_id,
                actor_id,
                segment_id,
                usage_before.window_id.clone(),
                flops_used,
                energy_kwh_used,
                carbon_kg_emitted,
                flops,
                energy,
                carbon,
            ),
        ),
        _ => None,
    }
}

/// The usage after a job, read back from a settled receipt, is the usage
/// before the job plus what the receipt says was consumed: on each axis the
/// allowance less the receipt's remainder equals that sum.
pub proof fn law_receipt_accounts_for_usage(
    receipt: FairUseReceipt,
    allowance: ComputeEnergyAllowance,
    usage_before: UsageSnapshot,
)
    requires
        receipt_settles(receipt, allowance, usage_before),
    ensures
        allowance.max_flops.micros - receipt.allowance_remaining_flops.micros
            == usage_before.flops_used.micros + receipt.flops_used.micros,
        allowance.max_energy_kwh.micros - receipt.allowance_remaining_energy_kwh.micros
            == usage_before.energy_kwh_used.micros + receipt.energy_kwh_used.micros,
        allowance.max_carbon_kg.micros - receipt.allowance_remaining_carbon_kg.micros
            == usage_before.carbon_kg_emitted.micros + receipt.carbon_kg_emitted.micros,
{
}

} // verus!
