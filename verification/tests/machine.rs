use eco_orchestrator::amount::Amount;
use eco_orchestrator::energy::TelemetryUnavailable;
use eco_orchestrator::identity::{ActorProfile, AuthError, ZoneResolution, ZoneUnavailable};
use eco_orchestrator::logging::{EcologicalLogEvent, LogEventType, MetadataEntry, MetadataValue};
use eco_orchestrator::policy::{PolicyDecision, PolicyUnavailable};
use eco_orchestrator::quota::QuotaError;
use eco_orchestrator::admission::{
    policy_event, quota_event, stability_event, PlanError, PlanRequest, PlanState, Reply,
    Transition,
};
use eco_orchestrator::types::{
    ActorId, CapabilityTier, EcologicalJobSpec, JobExecutionPlan, ReservationId, SegmentId,
    StabilityDecision, UsageWindowId,
};

fn request(tier: CapabilityTier) -> PlanRequest {
    PlanRequest {
        window_id: UsageWindowId("w1".to_string()),
        job: EcologicalJobSpec {
            actor_id: ActorId("did:example:alice".to_string()),
            segment_hint: Some(SegmentId("hint".to_string())),
            requested_tier: tier,
            expected_flops: Amount::from_units(5),
            max_duration: 60,
            purpose: "p".to_string(),
            domain_tags: vec![],
        },
        expected_energy_kwh: Amount::from_units(40),
        expected_carbon_kg: Amount::from_units(4),
    }
}

fn actor() -> ActorProfile {
    ActorProfile {
        actor_id: ActorId("did:example:alice".to_string()),
        roles: vec!["researcher".to_string()],
        clearance_level: 1,
        ecological_priority_score: Amount { micros: 500_000 },
    }
}

fn zone() -> ZoneResolution {
    ZoneResolution { segment_id: SegmentId("seg-a".to_string()), trust_level: 3 }
}

fn policy(allowed: Vec<CapabilityTier>) -> PolicyDecision {
    PolicyDecision {
        risk_score: Amount { micros: 250_000 },
        allowed_tiers: allowed,
        requires_human_approval: true,
        notes: vec!["n1".to_string(), "n2".to_string()],
    }
}

fn rid() -> ReservationId {
    ReservationId(uuid::Uuid::from_u128(42))
}

fn run(tier: CapabilityTier, replies: Vec<Reply>) -> (PlanState, Vec<EcologicalLogEvent>) {
    let mut state = PlanState::start(request(tier));
    let mut events = Vec::new();
    for reply in replies {
        let Transition { next, emit } = state.advance(reply);
        events.extend(emit);
        state = next;
    }
    (state, events)
}

fn all() -> Vec<CapabilityTier> {
    vec![CapabilityTier::Tier1, CapabilityTier::Tier2, CapabilityTier::Tier3]
}

fn positive(decision: StabilityDecision) -> Vec<Reply> {
    vec![
        Reply::Actor(Ok(actor())),
        Reply::Zone(Ok(zone())),
        Reply::Policy(Ok(policy(all()))),
        Reply::Reservation(Ok(rid())),
        Reply::Stability(Ok(decision)),
    ]
}

fn failed(error: PlanError) -> PlanState {
    PlanState::Failed { error, retained: None }
}

#[test]
fn request_walks_through_every_stage() {
    let r = request(CapabilityTier::Tier2);
    let s0 = PlanState::start(r.clone());
    assert_eq!(s0, PlanState::New { request: r.clone() });
    assert!(!s0.is_terminal());

    let t1 = s0.advance(Reply::Actor(Ok(actor())));
    assert_eq!(t1.emit, None);
    assert_eq!(t1.next, PlanState::ActorResolved { request: r.clone(), actor: actor() });

    let t2 = t1.next.advance(Reply::Zone(Ok(zone())));
    assert_eq!(t2.emit, None);
    assert_eq!(t2.next, PlanState::Identified { request: r.clone(), actor: actor(), zone: zone() });

    let t3 = t2.next.advance(Reply::Policy(Ok(policy(all()))));
    assert_eq!(t3.emit, Some(policy_event(&r, &actor(), &zone(), policy(all()))));
    assert_eq!(
        t3.next,
        PlanState::PolicyChecked { request: r.clone(), actor: actor(), zone: zone() }
    );

    let t4 = t3.next.advance(Reply::Reservation(Ok(rid())));
    assert_eq!(t4.emit, Some(quota_event(&r, &actor(), &zone(), &rid())));
    assert_eq!(
        t4.next,
        PlanState::Reserved {
            request: r.clone(),
            actor: actor(),
            zone: zone(),
            reservation_id: rid()
        }
    );
    assert!(!t4.next.is_terminal());

    let t5 = t4.next.advance(Reply::Stability(Ok(StabilityDecision::Proceed)));
    assert_eq!(
        t5.emit,
        Some(stability_event(&r, &actor(), &zone(), &rid(), &StabilityDecision::Proceed))
    );
    let plan = JobExecutionPlan {
        reservation_id: rid(),
        approved_segment: SegmentId("seg-a".to_string()),
        approved_tier: CapabilityTier::Tier2,
        stability_decision: StabilityDecision::Proceed,
    };
    assert_eq!(t5.next, PlanState::Planned { plan: plan.clone() });
    assert!(t5.next.is_terminal());
    assert_eq!(t5.next.into_result(), Ok(plan));
}

#[test]
fn request_on_its_way_has_no_outcome_yet() {
    assert_eq!(PlanState::start(request(CapabilityTier::Tier1)).into_result(), Err(PlanError::Internal));
    let (state, _) = run(
        CapabilityTier::Tier1,
        vec![
            Reply::Actor(Ok(actor())),
            Reply::Zone(Ok(zone())),
            Reply::Policy(Ok(policy(all()))),
            Reply::Reservation(Ok(rid())),
        ],
    );
    assert!(!state.is_terminal());
    assert_eq!(state.into_result(), Err(PlanError::Internal));
}

#[test]
fn events_carry_the_decisions_under_fixed_keys() {
    let r = request(CapabilityTier::Tier2);
    assert_eq!(
        policy_event(&r, &actor(), &zone(), policy(all())),
        EcologicalLogEvent {
            event_type: LogEventType::PolicyEvaluated,
            reservation_id: None,
            actor_id: Some(ActorId("did:example:alice".to_string())),
            segment_id: Some(SegmentId("seg-a".to_string())),
            window_id: Some(UsageWindowId("w1".to_string())),
            metadata: vec![
                MetadataEntry {
                    key: "risk_score".to_string(),
                    value: MetadataValue::Number(Amount { micros: 250_000 })
                },
                MetadataEntry {
                    key: "requires_human_approval".to_string(),
                    value: MetadataValue::Flag(true)
                },
                MetadataEntry {
                    key: "notes".to_string(),
                    value: MetadataValue::Texts(vec!["n1".to_string(), "n2".to_string()])
                },
            ],
        }
    );
    assert_eq!(
        quota_event(&r, &actor(), &zone(), &rid()),
        EcologicalLogEvent {
            event_type: LogEventType::QuotaReserved,
            reservation_id: Some(rid()),
            actor_id: Some(ActorId("did:example:alice".to_string())),
            segment_id: Some(SegmentId("seg-a".to_string())),
            window_id: Some(UsageWindowId("w1".to_string())),
            metadata: vec![
                MetadataEntry {
                    key: "expected_flops".to_string(),
                    value: MetadataValue::Number(Amount::from_units(5))
                },
                MetadataEntry {
                    key: "expected_energy_kwh".to_string(),
                    value: MetadataValue::Number(Amount::from_units(40))
                },
                MetadataEntry {
                    key: "expected_carbon_kg".to_string(),
                    value: MetadataValue::Number(Amount::from_units(4))
                },
                MetadataEntry {
                    key: "tier".to_string(),
                    value: MetadataValue::Tier(CapabilityTier::Tier2)
                },
            ],
        }
    );
    let deny = StabilityDecision::Deny { reason: "no".to_string() };
    assert_eq!(
        stability_event(&r, &actor(), &zone(), &rid(), &deny),
        EcologicalLogEvent {
            event_type: LogEventType::StabilityChecked,
            reservation_id: Some(rid()),
            actor_id: Some(ActorId("did:example:alice".to_string())),
            segment_id: Some(SegmentId("seg-a".to_string())),
            window_id: Some(UsageWindowId("w1".to_string())),
            metadata: vec![MetadataEntry {
                key: "stability_decision".to_string(),
                value: MetadataValue::Decision(deny.clone())
            }],
        }
    );
}

#[test]
fn downgrade_sets_the_plan_tier_and_leaves_the_request_alone() {
    let down = StabilityDecision::Downgrade {
        reason: "insufficient renewable share, downgraded tier".to_string(),
        downgraded_tier: CapabilityTier::Tier2,
    };
    let (state, events) = run(CapabilityTier::Tier3, positive(down.clone()));
    assert_eq!(
        state,
        PlanState::Planned {
            plan: JobExecutionPlan {
                reservation_id: rid(),
                approved_segment: SegmentId("seg-a".to_string()),
                approved_tier: CapabilityTier::Tier2,
                stability_decision: down,
            }
        }
    );
    assert_eq!(events.len(), 3);
    assert_eq!(events[0].event_type, LogEventType::PolicyEvaluated);
    assert_eq!(events[1].event_type, LogEventType::QuotaReserved);
    assert_eq!(events[1].reservation_id, Some(rid()));
    assert_eq!(events[2].event_type, LogEventType::StabilityChecked);
    assert_eq!(events[2].reservation_id, Some(rid()));
}

#[test]
fn throttle_and_deny_still_plan() {
    for decision in [
        StabilityDecision::Throttle { reason: "hot".to_string(), recommended_delay: 900 },
        StabilityDecision::Deny { reason: "grey".to_string() },
    ] {
        let (state, events) = run(CapabilityTier::Tier1, positive(decision.clone()));
        assert_eq!(
            state.into_result(),
            Ok(JobExecutionPlan {
                reservation_id: rid(),
                approved_segment: SegmentId("seg-a".to_string()),
                approved_tier: CapabilityTier::Tier1,
                stability_decision: decision,
            })
        );
        assert_eq!(events.len(), 3);
    }
}

#[test]
fn each_failing_answer_ends_the_request_with_its_kind() {
    let tier = CapabilityTier::Tier2;
    let (s, e) = run(tier, vec![Reply::Actor(Err(AuthError::Unauthenticated))]);
    assert_eq!((s, e.len()), (failed(PlanError::Unauthenticated), 0));
    let (s, e) = run(tier, vec![Reply::Actor(Err(AuthError::Upstream))]);
    assert_eq!((s, e.len()), (failed(PlanError::Internal), 0));
    let (s, e) = run(tier, vec![Reply::Actor(Ok(actor())), Reply::Zone(Err(ZoneUnavailable))]);
    assert_eq!((s, e.len()), (failed(PlanError::ZoneUnavailable), 0));
    let (s, e) = run(
        tier,
        vec![Reply::Actor(Ok(actor())), Reply::Zone(Ok(zone())), Reply::Policy(Err(PolicyUnavailable))],
    );
    assert_eq!((s, e.len()), (failed(PlanError::Internal), 0));
    for (quota, plan) in [
        (QuotaError::TierExceeded, PlanError::TierExceeded),
        (QuotaError::FlopsExceeded, PlanError::FlopsExceeded),
        (QuotaError::EnergyExceeded, PlanError::EnergyExceeded),
        (QuotaError::CarbonExceeded, PlanError::CarbonExceeded),
        (QuotaError::StoreUnavailable, PlanError::QuotaStoreUnavailable),
    ] {
        assert_eq!(PlanError::from_quota(quota), plan);
        let (s, e) = run(
            tier,
            vec![
                Reply::Actor(Ok(actor())),
                Reply::Zone(Ok(zone())),
                Reply::Policy(Ok(policy(all()))),
                Reply::Reservation(Err(quota)),
            ],
        );
        assert_eq!(s, failed(plan));
        assert_eq!(e.len(), 1);
        assert_eq!(e[0].event_type, LogEventType::PolicyEvaluated);
    }
    assert_eq!(PlanError::from_auth(AuthError::Unauthenticated), PlanError::Unauthenticated);
    assert_eq!(PlanError::from_auth(AuthError::Upstream), PlanError::Internal);
}

#[test]
fn forbidden_tier_is_recorded_then_refused() {
    let (s, e) = run(
        CapabilityTier::Tier3,
        vec![
            Reply::Actor(Ok(actor())),
            Reply::Zone(Ok(zone())),
            Reply::Policy(Ok(policy(vec![CapabilityTier::Tier1]))),
        ],
    );
    assert_eq!(s, failed(PlanError::TierForbidden));
    assert_eq!(
        e,
        vec![policy_event(
            &request(CapabilityTier::Tier3),
            &actor(),
            &zone(),
            policy(vec![CapabilityTier::Tier1])
        )]
    );
    let (s, _) = run(
        CapabilityTier::Tier1,
        vec![Reply::Actor(Ok(actor())), Reply::Zone(Ok(zone())), Reply::Policy(Ok(policy(vec![])))],
    );
    assert_eq!(s, failed(PlanError::TierForbidden));
}

#[test]
fn failure_after_the_reservation_retains_it() {
    let mut replies = positive(StabilityDecision::Proceed);
    replies[4] = Reply::Stability(Err(TelemetryUnavailable));
    let (s, e) = run(CapabilityTier::Tier2, replies);
    assert_eq!(s, PlanState::Failed { error: PlanError::TelemetryUnavailable, retained: Some(rid()) });
    assert_eq!(e.len(), 2);
    assert_eq!(e[1].event_type, LogEventType::QuotaReserved);
    assert_eq!(s.into_result(), Err(PlanError::TelemetryUnavailable));

    let mut replies = positive(StabilityDecision::Proceed);
    replies[4] = Reply::Zone(Ok(zone()));
    let (s, _) = run(CapabilityTier::Tier2, replies);
    assert_eq!(s, PlanState::Failed { error: PlanError::Internal, retained: Some(rid()) });
}

#[test]
fn answer_out_of_turn_is_internal() {
    let tier = CapabilityTier::Tier1;
    let (s, e) = run(tier, vec![Reply::Zone(Ok(zone()))]);
    assert_eq!((s, e.len()), (failed(PlanError::Internal), 0));
    let (s, _) = run(tier, vec![Reply::Actor(Ok(actor())), Reply::Actor(Ok(actor()))]);
    assert_eq!(s, failed(PlanError::Internal));
    let (s, e) = run(
        tier,
        vec![
            Reply::Actor(Ok(actor())),
            Reply::Zone(Ok(zone())),
            Reply::Stability(Ok(StabilityDecision::Proceed)),
        ],
    );
    assert_eq!((s, e.len()), (failed(PlanError::Internal), 0));
    let (s, _) = run(
        tier,
        vec![
            Reply::Actor(Ok(actor())),
            Reply::Zone(Ok(zone())),
            Reply::Policy(Ok(policy(all()))),
            Reply::Policy(Ok(policy(all()))),
        ],
    );
    assert_eq!(s, failed(PlanError::Internal));
}

#[test]
fn ended_request_stays_as_it_is() {
    let mut replies = positive(StabilityDecision::Proceed);
    let (planned, _) = run(CapabilityTier::Tier2, positive(StabilityDecision::Proceed));
    replies.push(Reply::Actor(Err(AuthError::Unauthenticated)));
    replies.push(Reply::Stability(Ok(StabilityDecision::Deny { reason: "late".to_string() })));
    let (state, events) = run(CapabilityTier::Tier2, replies);
    assert_eq!(state, planned);
    assert_eq!(events.len(), 3);

    let (state, events) = run(
        CapabilityTier::Tier2,
        vec![
            Reply::Actor(Err(AuthError::Unauthenticated)),
            Reply::Actor(Ok(actor())),
            Reply::Zone(Ok(zone())),
            Reply::Policy(Ok(policy(all()))),
        ],
    );
    assert_eq!(state, failed(PlanError::Unauthenticated));
    assert!(events.is_empty());
}

#[test]
fn failure_before_the_reservation_holds_none() {
    let prefixes: Vec<Vec<Reply>> = vec![
        vec![Reply::Actor(Err(AuthError::Unauthenticated))],
        vec![Reply::Actor(Ok(actor())), Reply::Zone(Err(ZoneUnavailable))],
        vec![
            Reply::Actor(Ok(actor())),
            Reply::Zone(Ok(zone())),
            Reply::Policy(Ok(policy(vec![CapabilityTier::Tier1]))),
        ],
        vec![
            Reply::Actor(Ok(actor())),
            Reply::Zone(Ok(zone())),
            Reply::Policy(Ok(policy(all()))),
            Reply::Reservation(Err(QuotaError::CarbonExceeded)),
        ],
    ];
    for replies in prefixes {
        let (state, events) = run(CapabilityTier::Tier2, replies);
        assert!(matches!(state, PlanState::Failed { retained: None, .. }));
        assert!(events.iter().all(|e| e.event_type == LogEventType::PolicyEvaluated
            && e.reservation_id.is_none()));
    }
}
