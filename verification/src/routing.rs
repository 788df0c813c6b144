//! The orchestrator: the driver that runs a request through the admission
//! state machine, asking the collaborators and feeding the audit log.
use crate::admission::{
    asked_in_turn, decisions_follow_rule, run, PlanError, PlanRequest, PlanState, Reply,
};
use crate::amount::Amount;
use crate::energy::{law_answer_never_raises_tier, SegmentTelemetry, StabilityGuard};
use crate::identity::{IdentityResolver, ZoneResolver};
use crate::logging::{EcologicalLogEvent, EventRecord, ImmutableLogger, LogUnavailable};
use crate::policy::PolicyEngine;
use crate::quota::{QuotaService, QuotaStore};
use crate::types::{EcologicalJobSpec, JobExecutionPlan, UsageWindowId};
use vstd::pervasive::unreached;
use vstd::prelude::*;

verus! {

/// Composes identity, zone, policy, quota and stability into one admission
/// decision, and feeds the audit log on the way. It holds its collaborators and
/// no state of its own: requests share nothing.
pub struct EcologicalOrchestrator<I, Z, Q, T, P, L> where
    I: IdentityResolver,
    Z: ZoneResolver,
    Q: QuotaStore,
    T: SegmentTelemetry,
    P: PolicyEngine,
    L: ImmutableLogger,
 {
    identity_resolver: I,
    zone_resolver: Z,
    quota_service: QuotaService<Q>,
    stability_guard: StabilityGuard<T>,
    policy_engine: P,
    logger: L,
}

impl<I, Z, Q, T, P, L> EcologicalOrchestrator<I, Z, Q, T, P, L> where
    I: IdentityResolver,
    Z: ZoneResolver,
    Q: QuotaStore,
    T: SegmentTelemetry,
    P: PolicyEngine,
    L: ImmutableLogger,
 {
    /// The resolver that this orchestrator asks who is behind a token.
    pub closed spec fn identity_resolver(&self) -> I {
        self.identity_resolver
    }

    /// The resolver that this orchestrator asks where an actor belongs.
    pub closed spec fn zone_resolver(&self) -> Z {
        self.zone_resolver
    }

    /// The service that reserves this orchestrator's budgets.
    pub closed spec fn quota_service(&self) -> QuotaService<Q> {
        self.quota_service
    }

    /// The guard that arbitrates this orchestrator's plans.
    pub closed spec fn stability_guard(&self) -> StabilityGuard<T> {
        self.stability_guard
    }

    /// The engine that judges this orchestrator's jobs.
    pub closed spec fn policy_engine(&self) -> P {
        self.policy_engine
    }

    /// The sink of this orchestrator's audit events.
    pub closed spec fn logger(&self) -> L {
        self.logger
    }

    /// An orchestrator over the six collaborators; the quota store is put
    /// behind a [`QuotaService`].
    pub fn new(
        identity_resolver: I,
        zone_resolver: Z,
        quota_store: Q,
        stability_guard: StabilityGuard<T>,
        policy_engine: P,
        logger: L,
    ) -> (r: Self)
        ensures
            r.identity_resolver() == identity_resolver,
            r.zone_resolver() == zone_resolver,
            r.quota_service().store() == quota_store,
            r.stability_guard() == stability_guard,
            r.policy_engine() == policy_engine,
            r.logger() == logger,
    {
        Self {
            identity_resolver,
            zone_resolver,
            quota_service: QuotaService::new(quota_store),
            stability_guard,
            policy_engine,
            logger,
        }
    }

    /// Whether `reply` is an answer that the collaborator `state` waits for may
    /// give on what is handed to it from the state: the token to the identity
    /// resolver; the actor to the zone resolver; the job to the policy engine;
    /// the actor's id, the window, the job and the two expected amounts to the
    /// quota service; the zone's segment and the requested tier to the
    /// stability guard.
    pub open spec fn answered_by(
        &self,
        session_token: Seq<char>,
        state: PlanState,
        reply: Reply,
    ) -> bool {
        match state {
            PlanState::New { .. } => reply matches Reply::Actor(answer)
                && self.identity_resolver().may_resolve(session_token, answer),
            PlanState::ActorResolved { actor, .. } => reply matches Reply::Zone(answer)
                && self.zone_resolver().may_place(actor, answer),
            PlanState::Identified { request, .. } => reply matches Reply::Policy(answer)
                && self.policy_engine().may_judge(request.job, answer),
            PlanState::PolicyChecked { request, actor, .. } => reply matches Reply::Reservation(
                answer,
            ) && self.quota_service().may_answer(
                actor.actor_id,
                request.window_id,
                request.job.requested_tier,
                request.job.expected_flops,
                request.expected_energy_kwh,
                request.expected_carbon_kg,
                answer,
            ),
            PlanState::Reserved { request, zone, .. } => reply matches Reply::Stability(answer)
                && self.stability_guard().may_decide(
                zone.segment_id,
                request.job.requested_tier,
                answer,
            ),
            PlanState::Planned { .. } => false,
            PlanState::Failed { .. } => false,
        }
    }

    /// Whether each of `replies` is an answer of the collaborator that the
    /// run waited for when it was given, see
    /// [`EcologicalOrchestrator::answered_by`].
    pub open spec fn answered_in_turn(
        &self,
        session_token: Seq<char>,
        request: PlanRequest,
        replies: Seq<Reply>,
    ) -> bool {
        forall|n: int|
            0 <= n < replies.len() ==> self.answered_by(
                session_token,
                (#[trigger] run(request, replies.take(n))).state,
                replies[n],
            )
    }

    /// Whether an event with this record was handed to the logger.
    pub open spec fn handed_over(&self, record: EventRecord) -> bool {
        exists|event: EcologicalLogEvent, answer: Result<(), LogUnavailable>|
            event.deep_view() == record && #[trigger] self.logger().may_append(event, answer)
    }

    /// Whether `r` is a result that this orchestrator may give for a request:
    /// the outcome of a [`run`] of the request that has come to its end, on
    /// answers that the collaborators may give when asked in turn, with every
    /// event of the run handed to the logger.
    pub open spec fn may_plan(
        &self,
        session_token: Seq<char>,
        request: PlanRequest,
        r: Result<JobExecutionPlan, PlanError>,
    ) -> bool {
        exists|replies: Seq<Reply>|
            {
                let trail = #[trigger] run(request, replies);
                &&& trail.state.terminal()
                &&& r == trail.state.outcome()
                &&& self.answered_in_turn(session_token, request, replies)
                &&& asked_in_turn(request, replies)
                &&& decisions_follow_rule(
                    replies,
                    self.stability_guard().max_thermal_pct(),
                    self.stability_guard().min_renewable_pct(),
                    self.stability_guard().throttle_delay(),
                    request.job.requested_tier,
                )
                &&& forall|i: int|
                    0 <= i < trail.events.len() ==> self.handed_over(#[trigger] trail.events[i])
            }
    }

    /// Asks the collaborator that `state` waits for.
    fn ask(&self, session_token: &str, state: &PlanState) -> (reply: Reply)
        requires
            !state.terminal(),
        ensures
            state.awaits(reply),
            self.answered_by(session_token@, *state, reply),
            state matches PlanState::Reserved { request, .. } ==> (reply matches Reply::Stability(
                Ok(decision),
            ) ==> self.stability_guard().can_answer(
                request.job.requested_tier,
                decision.deep_view(),
            )),
    {
        match state {
            PlanState::New { .. } => Reply::Actor(
                self.identity_resolver.resolve_actor(session_token),
            ),
            PlanState::ActorResolved { actor, .. } => Reply::Zone(
                self.zone_resolver.resolve_zone(actor),
            ),
            PlanState::Identified { request, .. } => Reply::Policy(
                self.policy_engine.evaluate(&request.job),
            ),
            PlanState::PolicyChecked { request, actor, .. } => Reply::Reservation(
                self.quota_service.check_and_reserve(
                    &actor.actor_id,
                    &request.window_id,
                    &request.job,
                    request.expected_energy_kwh,
                    request.expected_carbon_kg,
                ),
            ),
            PlanState::Reserved { request, zone, .. } => Reply::Stability(
                self.stability_guard.check(
                    &zone.segment_id,
                    request.job.expected_flops,
                    request.expected_energy_kwh,
                    &request.job.requested_tier,
                ),
            ),
            _ => unreached(),
        }
    }

    /// Plans a job: runs the request through the state machine, asking at each
    /// step the collaborator that the state waits for and appending the
    /// step's audit event, until the request is planned or refused.
    ///
    /// The submitted job is not altered: a downgrade shows in the plan's
    /// approved tier. A sink that fails to append is ignored.
    ///
    /// The result is the outcome of a [`run`] of this request on what the
    /// collaborators answered, each asked in turn on what the state of the
    /// run hands to it, and every event of the run was handed to the logger;
    /// see [`EcologicalOrchestrator::may_plan`]. Of every plan it follows that
    /// it carries a decision that the guard's rule gives for the requested
    /// tier, that its tier is the one that decision leaves, and that this tier
    /// is never above the requested one.
    pub fn plan_job(
        &self,
        session_token: &str,
        window_id: UsageWindowId,
        job: EcologicalJobSpec,
        expected_energy_kwh: Amount,
        expected_carbon_kg: Amount,
    ) -> (r: Result<JobExecutionPlan, PlanError>)
        ensures
            self.may_plan(
                session_token@,
                PlanRequest { window_id, job, expected_energy_kwh, expected_carbon_kg },
                r,
            ),
            r matches Ok(plan) ==> {
                &&& self.stability_guard().can_answer(
                    job.requested_tier,
                    plan.stability_decision.deep_view(),
                )
                &&& plan.approved_tier == plan.stability_decision.tier_after(job.requested_tier)
                &&& plan.approved_tier.rank() <= job.requested_tier.rank()
            },
    {
        let request = PlanRequest { window_id, job, expected_energy_kwh, expected_carbon_kg };
        let ghost submitted = request;
        let ghost requested = job.requested_tier;
        let ghost mut replies: Seq<Reply> = Seq::empty();
        let mut state = PlanState::start(request);
        while !state.is_terminal()
            invariant
                state == run(submitted, replies).state,
                asked_in_turn(submitted, replies),
                self.answered_in_turn(session_token@, submitted, replies),
                forall|i: int|
                    0 <= i < run(submitted, replies).events.len() ==> self.handed_over(
                        #[trigger] run(submitted, replies).events[i],
                    ),
                submitted.job.requested_tier == requested,
                decisions_follow_rule(
                    replies,
                    self.stability_guard().max_thermal_pct(),
                    self.stability_guard().min_renewable_pct(),
                    self.stability_guard().throttle_delay(),
                    requested,
                ),
                state.asks_for(requested),
                state matches PlanState::Planned { plan } ==> self.stability_guard().can_answer(
                    requested,
                    plan.stability_decision.deep_view(),
                ),
            decreases state.steps_left(),
        {
            let reply = self.ask(session_token, &state);
            let ghost earlier = replies;
            proof {
                replies = replies.push(reply);
                assert(replies.drop_last() == earlier);
                assert(replies.last() == reply);
                assert(forall|i: int| 0 <= i < earlier.len() ==> replies[i] == earlier[i]);
                assert forall|n: int| 0 <= n < replies.len() implies (#[trigger] run(
                    submitted,
                    replies.take(n),
                )).state.awaits(replies[n]) && self.answered_by(
                    session_token@,
                    run(submitted, replies.take(n)).state,
                    replies[n],
                ) by {
                    if n < earlier.len() {
                        assert(replies.take(n) == earlier.take(n));
                    } else {
                        assert(replies.take(n) == earlier);
                    }
                }
            }
            let step = state.advance(reply);
            match step.emit {
                Some(event) => {
                    let answer = self.logger.append(&event);
                    assert(self.handed_over(event.deep_view())) by {
                        assert(self.logger().may_append(event, answer));
                    }
                },
                None => {},
            }
            proof {
                let before = run(submitted, earlier).events;
                let after = run(submitted, replies).events;
                assert forall|i: int| 0 <= i < after.len() implies self.handed_over(
                    #[trigger] after[i],
                ) by {
                    if i < before.len() {
                        assert(after[i] == before[i]);
                    }
                }
            }
            state = step.next;
        }
        proof {
            if state is Planned {
                law_answer_never_raises_tier(
                    self.stability_guard().max_thermal_pct(),
                    self.stability_guard().min_renewable_pct(),
                    self.stability_guard().throttle_delay(),
                    requested,
                    state->plan.stability_decision,
                );
            }
        }
        state.into_result()
    }
}

} // verus!
