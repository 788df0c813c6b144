//! Runs of the admission state machine on every sequence of answers, and what
//! holds of all of them.
use crate::admission::{
    asked_in_turn, decisions_follow_rule, plan_for, policy_record, quota_record, run,
    stability_record,
    PlanError, PlanRequest, PlanState, Reply, Trail,
};
use crate::amount::Amount;
use crate::energy::law_answer_never_raises_tier;
use crate::identity::{ActorProfile, ZoneResolution};
use crate::logging::{LogEventType, MetadataContent};
use crate::policy::{
    law_sensitive_domains_want_approval, simple_policy, PolicyDecision,
    GEOENGINEERING_RISK_MICROS,
};
use vstd::prelude::*;

verus! {

/// What a run's state says of the answers that led to it and of the events
/// emitted so far.
pub open spec fn accounts_for(request: PlanRequest, replies: Seq<Reply>, trail: Trail) -> bool {
    match trail.state {
        PlanState::New { request: held } => {
            &&& held == request
            &&& replies.len() == 0
            &&& trail.events.len() == 0
        },
        PlanState::ActorResolved { request: held, actor } => {
            &&& held == request
            &&& replies.len() == 1
            &&& replies[0] == Reply::Actor(Ok(actor))
            &&& trail.events.len() == 0
        },
        PlanState::Identified { request: held, actor, zone } => {
            &&& held == request
            &&& replies.len() == 2
            &&& replies[0] == Reply::Actor(Ok(actor))
            &&& replies[1] == Reply::Zone(Ok(zone))
            &&& trail.events.len() == 0
        },
        PlanState::PolicyChecked { request: held, actor, zone } => {
            &&& held == request
            &&& replies.len() == 3
            &&& replies[0] == Reply::Actor(Ok(actor))
            &&& replies[1] == Reply::Zone(Ok(zone))
            &&& replies[2] matches Reply::Policy(Ok(policy))
            &&& policy.allowed_tiers@.contains(request.job.requested_tier)
            &&& trail.events.len() == 1
            &&& trail.events[0] == policy_record(request, actor, zone, policy)
        },
        PlanState::Reserved { request: held, actor, zone, reservation_id } => {
            &&& held == request
            &&& replies.len() == 4
            &&& replies[0] == Reply::Actor(Ok(actor))
            &&& replies[1] == Reply::Zone(Ok(zone))
            &&& replies[2] matches Reply::Policy(Ok(policy))
            &&& policy.allowed_tiers@.contains(request.job.requested_tier)
            &&& replies[3] == Reply::Reservation(Ok(reservation_id))
            &&& trail.events.len() == 2
            &&& trail.events[0] == policy_record(request, actor, zone, policy)
            &&& trail.events[1] == quota_record(request, actor, zone, reservation_id)
        },
        PlanState::Planned { plan } => {
            &&& replies.len() >= 5
            &&& replies[0] matches Reply::Actor(Ok(actor))
            &&& replies[1] matches Reply::Zone(Ok(zone))
            &&& replies[2] matches Reply::Policy(Ok(policy))
            &&& policy.allowed_tiers@.contains(request.job.requested_tier)
            &&& replies[3] matches Reply::Reservation(Ok(reservation_id))
            &&& replies[4] matches Reply::Stability(Ok(decision))
            &&& plan == plan_for(request, zone, reservation_id, decision)
            &&& trail.events.len() == 3
            &&& trail.events[0] == policy_record(request, actor, zone, policy)
            &&& trail.events[1] == quota_record(request, actor, zone, reservation_id)
            &&& trail.events[2] == stability_record(
                request,
                actor,
                zone,
                reservation_id,
                decision,
            )
        },
        PlanState::Failed { error, retained } => {
            &&& replies.len() >= 1
            &&& trail.events.len() <= 2
            &&& trail.events.len() >= 1 ==> trail.events[0].event_type
                == LogEventType::PolicyEvaluated && trail.events[0].reservation_id is None
            &&& retained is None ==> trail.events.len() <= 1
            &&& retained matches Some(reservation_id) ==> {
                &&& replies.len() >= 5
                &&& replies[3] == Reply::Reservation(Ok(reservation_id))
                &&& trail.events.len() == 2
                &&& trail.events[1].event_type == LogEventType::QuotaReserved
                &&& trail.events[1].reservation_id == Some(reservation_id)
            }
        },
    }
}

/// One more answer takes a run one step further.
pub proof fn lemma_run_step(request: PlanRequest, replies: Seq<Reply>, n: int)
    requires
        0 < n <= replies.len(),
    ensures
        run(request, replies.take(n)).state == run(request, replies.take(n - 1)).state.next(
            replies[n - 1],
        ),
        run(request, replies.take(0)).state == (PlanState::New { request }),
{
    assert(replies.take(n).drop_last() == replies.take(n - 1));
    assert(replies.take(n).last() == replies[n - 1]);
    assert(replies.take(0).len() == 0);
}

/// Every run is accounted for.
pub proof fn lemma_run_accounted(request: PlanRequest, replies: Seq<Reply>)
    ensures
        accounts_for(request, replies, run(request, replies)),
    decreases replies.len(),
{
    if replies.len() > 0 {
        let earlier = replies.drop_last();
        let last = replies.last();
        lemma_run_accounted(request, earlier);
        assert(forall|i: int| 0 <= i < earlier.len() ==> earlier[i] == replies[i]);
        let before = run(request, earlier);
        let after = run(request, replies);
        assert(after.state == before.state.next(last));
        assert(last == replies[replies.len() - 1]);
        match before.state {
            PlanState::New { .. } => {},
            PlanState::ActorResolved { .. } => {},
            PlanState::Identified { .. } => {},
            PlanState::PolicyChecked { .. } => {},
            PlanState::Reserved { .. } => {},
            PlanState::Planned { .. } => {},
            PlanState::Failed { .. } => {},
        }
    }
}

/// A request is planned exactly where each of the five answers is positive
/// and policy allows the requested tier, and the plan is then the one that the
/// zone, the reservation and the stability decision give. Answers beyond the
/// fifth change nothing.
pub proof fn law_planned_iff_every_answer_positive(request: PlanRequest, replies: Seq<Reply>)
    ensures
        run(request, replies).state matches PlanState::Planned { plan } ==> {
            &&& replies.len() >= 5
            &&& replies[0] matches Reply::Actor(Ok(_))
            &&& replies[1] matches Reply::Zone(Ok(zone))
            &&& replies[2] matches Reply::Policy(Ok(policy))
            &&& policy.allowed_tiers@.contains(request.job.requested_tier)
            &&& replies[3] matches Reply::Reservation(Ok(reservation_id))
            &&& replies[4] matches Reply::Stability(Ok(decision))
            &&& plan == plan_for(request, zone, reservation_id, decision)
        },
        ({
            &&& replies.len() >= 5
            &&& replies[0] matches Reply::Actor(Ok(actor))
            &&& replies[1] matches Reply::Zone(Ok(zone))
            &&& replies[2] matches Reply::Policy(Ok(policy))
            &&& policy.allowed_tiers@.contains(request.job.requested_tier)
            &&& replies[3] matches Reply::Reservation(Ok(reservation_id))
            &&& replies[4] matches Reply::Stability(Ok(decision))
        }) ==> run(request, replies).state is Planned,
{
    lemma_run_accounted(request, replies);
    if replies.len() >= 5 {
        lemma_run_of_prefix(request, replies, 5);
        lemma_run_step(request, replies, 1);
        lemma_run_step(request, replies, 2);
        lemma_run_step(request, replies, 3);
        lemma_run_step(request, replies, 4);
        lemma_run_step(request, replies, 5);
    }
}

/// A state at its end stays as it is, so a run that has ended on a prefix of
/// the answers ends the same on all of them.
pub proof fn lemma_run_of_prefix(request: PlanRequest, replies: Seq<Reply>, n: int)
    requires
        0 <= n <= replies.len(),
    ensures
        run(request, replies.take(n)).state.terminal() ==> run(request, replies) == run(
            request,
            replies.take(n),
        ),
        run(request, replies.take(n)).state.reservation() is Some ==> run(
            request,
            replies,
        ).state.reservation() == run(request, replies.take(n)).state.reservation(),
    decreases replies.len() - n,
{
    if n == replies.len() {
        assert(replies.take(n) == replies);
    } else {
        let earlier = replies.drop_last();
        assert(earlier.take(n) == replies.take(n));
        lemma_run_of_prefix(request, earlier, n);
    }
}

/// A refusal names the first answer that failed. Where every answer is asked
/// for in turn, a run fails exactly on its last answer, with the kind of that
/// answer's error: on the identity, the zone, the policy or its verdict on the
/// tier, the reservation, or the stability check. Only the last of these comes
/// after the reservation, which is then retained.
pub proof fn law_refusal_names_first_failure(request: PlanRequest, replies: Seq<Reply>)
    requires
        asked_in_turn(request, replies),
    ensures
        run(request, replies).state matches PlanState::Failed { error, retained } ==> {
            ||| {
                &&& replies.len() == 1
                &&& replies[0] matches Reply::Actor(Err(e))
                &&& error == PlanError::of_auth(e)
                &&& retained is None
            }
            ||| {
                &&& replies.len() == 2
                &&& replies[1] matches Reply::Zone(Err(_))
                &&& error == PlanError::ZoneUnavailable
                &&& retained is None
            }
            ||| {
                &&& replies.len() == 3
                &&& replies[2] matches Reply::Policy(Err(_))
                &&& error == PlanError::Internal
                &&& retained is None
            }
            ||| {
                &&& replies.len() == 3
                &&& replies[2] matches Reply::Policy(Ok(policy))
                &&& !policy.allowed_tiers@.contains(request.job.requested_tier)
                &&& error == PlanError::TierForbidden
                &&& retained is None
            }
            ||| {
                &&& replies.len() == 4
                &&& replies[3] matches Reply::Reservation(Err(e))
                &&& error == PlanError::of_quota(e)
                &&& retained is None
            }
            ||| {
                &&& replies.len() == 5
                &&& replies[3] matches Reply::Reservation(Ok(reservation_id))
                &&& replies[4] matches Reply::Stability(Err(_))
                &&& error == PlanError::TelemetryUnavailable
                &&& retained == Some(reservation_id)
            }
        },
        run(request, replies).state is Planned ==> replies.len() == 5,
{
    if replies.len() > 0 {
        let earlier = replies.drop_last();
        let last = replies.last();
        assert(earlier == replies.take(replies.len() - 1));
        assert(run(request, earlier).state.awaits(last));
        lemma_run_accounted(request, earlier);
        assert(forall|i: int| 0 <= i < earlier.len() ==> earlier[i] == replies[i]);
        assert(last == replies[replies.len() - 1]);
    }
}

/// The tier of a plan is never above the requested one, and it is a tier that
/// policy allowed or the tier of a downgrade: given that each stability
/// decision among the answers is one that the guard's rule gives for the
/// requested tier.
pub proof fn law_approved_tier_within_request_and_policy(
    request: PlanRequest,
    replies: Seq<Reply>,
    max_thermal_pct: Amount,
    min_renewable_pct: Amount,
    throttle_delay: u64,
)
    requires
        decisions_follow_rule(
            replies,
            max_thermal_pct,
            min_renewable_pct,
            throttle_delay,
            request.job.requested_tier,
        ),
    ensures
        run(request, replies).state matches PlanState::Planned { plan } ==> {
            &&& plan.approved_tier.rank() <= request.job.requested_tier.rank()
            &&& replies[2] matches Reply::Policy(Ok(policy))
            &&& policy.allowed_tiers@.contains(plan.approved_tier) || (
            plan.stability_decision matches crate::types::StabilityDecision::Downgrade {
                downgraded_tier,
                ..
            } && downgraded_tier == plan.approved_tier)
        },
{
    lemma_run_accounted(request, replies);
    if run(request, replies).state is Planned {
        if let Reply::Stability(Ok(decision)) = replies[4] {
            law_answer_never_raises_tier(
                max_thermal_pct,
                min_renewable_pct,
                throttle_delay,
                request.job.requested_tier,
                decision,
            );
        }
    }
}

/// A request that fails before its budget is reserved leaves no reservation
/// and no `StabilityChecked` event: at no point of such a run is a
/// reservation held, and its events, at most one, are `PolicyEvaluated` and
/// name no reservation. The events of a run come in the order of the stages:
/// `PolicyEvaluated` first, `QuotaReserved` second and only where a
/// reservation is held, `StabilityChecked` third and only where the run ends
/// in a plan; the last two name the reservation.
pub proof fn law_no_trace_of_reservation_before_it_is_made(
    request: PlanRequest,
    replies: Seq<Reply>,
)
    ensures
        ({
            let trail = run(request, replies);
            &&& trail.state.reservation() is None ==> {
                &&& forall|n: int|
                    0 <= n <= replies.len() ==> (#[trigger] run(
                        request,
                        replies.take(n),
                    )).state.reservation() is None
                &&& trail.events.len() <= 1
                &&& forall|i: int|
                    0 <= i < trail.events.len() ==> (#[trigger] trail.events[i]).event_type
                        == LogEventType::PolicyEvaluated && trail.events[i].reservation_id is None
            }
            &&& forall|i: int|
                0 <= i < trail.events.len() && (#[trigger] trail.events[i]).event_type
                    == LogEventType::QuotaReserved ==> {
                    &&& i == 1
                    &&& trail.events[0].event_type == LogEventType::PolicyEvaluated
                    &&& trail.state.reservation() is Some
                    &&& trail.events[i].reservation_id == trail.state.reservation()
                }
            &&& forall|i: int|
                0 <= i < trail.events.len() && (#[trigger] trail.events[i]).event_type
                    == LogEventType::StabilityChecked ==> {
                    &&& trail.state matches PlanState::Planned { plan }
                    &&& i == 2
                    &&& trail.events[0].event_type == LogEventType::PolicyEvaluated
                    &&& trail.events[1].event_type == LogEventType::QuotaReserved
                    &&& trail.events[i].reservation_id == Some(plan.reservation_id)
                }
        }),
{
    lemma_run_accounted(request, replies);
    let trail = run(request, replies);
    if trail.state.reservation() is None {
        assert forall|n: int| 0 <= n <= replies.len() implies (#[trigger] run(
            request,
            replies.take(n),
        )).state.reservation() is None by {
            lemma_run_of_prefix(request, replies, n);
        }
    }
}

/// The `PolicyEvaluated` event records the decision as it was given: its risk
/// score, its approval flag and its notes, under those three keys.
pub proof fn law_policy_event_records_decision(
    request: PlanRequest,
    actor: ActorProfile,
    zone: ZoneResolution,
    decision: PolicyDecision,
)
    ensures
        ({
            let state = PlanState::Identified { request, actor, zone };
            let emitted = state.emitted(Reply::Policy(Ok(decision)));
            &&& emitted matches Some(event)
            &&& event.event_type == LogEventType::PolicyEvaluated
            &&& event.metadata.len() == 3
            &&& event.metadata[0] == ("risk_score"@, MetadataContent::Number(decision.risk_score))
            &&& event.metadata[1] == (
                "requires_human_approval"@,
                MetadataContent::Flag(decision.requires_human_approval),
            )
            &&& event.metadata[2] == ("notes"@, MetadataContent::Texts(decision.notes.deep_view()))
        }),
{
}

/// For a geoengineering job judged by the simple policy, the
/// `PolicyEvaluated` event records that human approval is wanted and a risk
/// score of at least 0.9.
pub proof fn law_geoengineering_event_wants_approval(
    request: PlanRequest,
    actor: ActorProfile,
    zone: ZoneResolution,
    decision: PolicyDecision,
)
    requires
        request.job.domain_tags.deep_view().contains("geoengineering"@),
        decision.deep_view() == simple_policy(request.job.domain_tags.deep_view()),
    ensures
        ({
            let state = PlanState::Identified { request, actor, zone };
            let emitted = state.emitted(Reply::Policy(Ok(decision)));
            &&& emitted matches Some(event)
            &&& event.event_type == LogEventType::PolicyEvaluated
            &&& event.metadata[1] == ("requires_human_approval"@, MetadataContent::Flag(true))
            &&& event.metadata[0] matches (_, MetadataContent::Number(risk))
            &&& risk.micros >= GEOENGINEERING_RISK_MICROS
        }),
{
    law_sensitive_domains_want_approval(request.job.domain_tags.deep_view());
}

} // verus!
