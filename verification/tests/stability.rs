use eco_orchestrator::amount::Amount;
use eco_orchestrator::energy::{
    SegmentTelemetry, StabilityGuard, TelemetryUnavailable, DEFAULT_THROTTLE_DELAY,
};
use eco_orchestrator::types::{CapabilityTier, SegmentId, SegmentLoad, StabilityDecision};

struct FixedLoad(Result<SegmentLoad, TelemetryUnavailable>);

impl SegmentTelemetry for FixedLoad {
    fn get_segment_load(&self, segment_id: &SegmentId) -> Result<SegmentLoad, TelemetryUnavailable> {
        match &self.0 {
            Ok(load) => Ok(SegmentLoad { segment_id: segment_id.clone(), ..load.clone() }),
            Err(e) => Err(*e),
        }
    }
}

fn load(thermal: u64, renewable: u64) -> SegmentLoad {
    SegmentLoad {
        segment_id: SegmentId("segment_general_research".to_string()),
        current_flops: Amount::zero(),
        energy_rate_kw: Amount::zero(),
        thermal_margin_pct: Amount::from_units(thermal),
        renewable_share_pct: Amount::from_units(renewable),
    }
}

fn guard(thermal: u64, renewable: u64) -> StabilityGuard<FixedLoad> {
    StabilityGuard::new(
        FixedLoad(Ok(load(thermal, renewable))),
        Amount::from_units(20),
        Amount::from_units(50),
    )
}

fn idle_guard() -> StabilityGuard<FixedLoad> {
    guard(100, 100)
}

#[test]
fn sufficient_margin_and_renewables_proceed() {
    for tier in [CapabilityTier::Tier1, CapabilityTier::Tier2, CapabilityTier::Tier3] {
        assert_eq!(idle_guard().decide(&load(40, 80), &tier), StabilityDecision::Proceed);
    }
}

#[test]
fn low_thermal_margin_throttles_for_a_quarter_hour() {
    assert_eq!(DEFAULT_THROTTLE_DELAY, 900);
    assert_eq!(
        idle_guard().decide(&load(10, 80), &CapabilityTier::Tier2),
        StabilityDecision::Throttle {
            reason: "thermal margin too low".to_string(),
            recommended_delay: 900,
        }
    );
}

#[test]
fn thermal_rule_is_checked_before_renewable_rule() {
    for tier in [CapabilityTier::Tier1, CapabilityTier::Tier2, CapabilityTier::Tier3] {
        let decision = idle_guard().decide(&load(10, 30), &tier);
        assert!(matches!(decision, StabilityDecision::Throttle { .. }));
    }
}

#[test]
fn margin_equal_to_the_floor_is_not_throttled() {
    assert_eq!(
        idle_guard().decide(&load(20, 80), &CapabilityTier::Tier2),
        StabilityDecision::Proceed
    );
    let just_below = SegmentLoad {
        thermal_margin_pct: Amount { micros: 19_999_999 },
        ..load(20, 80)
    };
    assert!(matches!(
        idle_guard().decide(&just_below, &CapabilityTier::Tier2),
        StabilityDecision::Throttle { .. }
    ));
}

#[test]
fn renewable_share_equal_to_the_floor_proceeds() {
    assert_eq!(
        idle_guard().decide(&load(40, 50), &CapabilityTier::Tier3),
        StabilityDecision::Proceed
    );
}

#[test]
fn low_renewables_downgrade_by_one_tier() {
    assert_eq!(
        idle_guard().decide(&load(40, 30), &CapabilityTier::Tier3),
        StabilityDecision::Downgrade {
            reason: "insufficient renewable share, downgraded tier".to_string(),
            downgraded_tier: CapabilityTier::Tier2,
        }
    );
    assert_eq!(
        idle_guard().decide(&load(40, 30), &CapabilityTier::Tier2),
        StabilityDecision::Downgrade {
            reason: "insufficient renewable share, downgraded tier".to_string(),
            downgraded_tier: CapabilityTier::Tier1,
        }
    );
}

#[test]
fn lowest_tier_is_denied_never_downgraded() {
    assert_eq!(
        idle_guard().decide(&load(40, 30), &CapabilityTier::Tier1),
        StabilityDecision::Deny {
            reason: "insufficient renewable share for even lowest tier".to_string(),
        }
    );
    assert_eq!(
        idle_guard().decide(&load(20, 0), &CapabilityTier::Tier1),
        StabilityDecision::Deny {
            reason: "insufficient renewable share for even lowest tier".to_string(),
        }
    );
}

#[test]
fn throttle_delay_can_be_configured() {
    let g = idle_guard().with_throttle_delay(60);
    assert_eq!(
        g.decide(&load(5, 80), &CapabilityTier::Tier1),
        StabilityDecision::Throttle {
            reason: "thermal margin too low".to_string(),
            recommended_delay: 60,
        }
    );
    assert_eq!(g.decide(&load(40, 30), &CapabilityTier::Tier1), idle_guard().decide(&load(40, 30), &CapabilityTier::Tier1));
}

#[test]
fn check_decides_on_the_sampled_load() {
    let segment = SegmentId("segment_climate_hpc".to_string());
    let flops = Amount::from_units(500_000_000_000_000);
    let energy = Amount::from_units(40);
    assert_eq!(
        guard(40, 80).check(&segment, flops, energy, &CapabilityTier::Tier2),
        Ok(StabilityDecision::Proceed)
    );
    assert!(matches!(
        guard(10, 80).check(&segment, flops, energy, &CapabilityTier::Tier2),
        Ok(StabilityDecision::Throttle { recommended_delay: 900, .. })
    ));
    assert!(matches!(
        guard(40, 30).check(&segment, flops, energy, &CapabilityTier::Tier2),
        Ok(StabilityDecision::Downgrade { downgraded_tier: CapabilityTier::Tier1, .. })
    ));
    assert!(matches!(
        guard(40, 30).check(&segment, flops, energy, &CapabilityTier::Tier1),
        Ok(StabilityDecision::Deny { .. })
    ));
}

#[test]
fn check_reports_missing_telemetry() {
    let g = StabilityGuard::new(
        FixedLoad(Err(TelemetryUnavailable)),
        Amount::from_units(20),
        Amount::from_units(50),
    );
    assert_eq!(
        g.check(
            &SegmentId("s".to_string()),
            Amount::zero(),
            Amount::zero(),
            &CapabilityTier::Tier1
        ),
        Err(TelemetryUnavailable)
    );
}

#[test]
fn decision_names_the_tier_that_is_left() {
    let down = StabilityDecision::Downgrade {
        reason: "r".to_string(),
        downgraded_tier: CapabilityTier::Tier1,
    };
    assert_eq!(down.approved_tier(CapabilityTier::Tier2), CapabilityTier::Tier1);
    assert_eq!(StabilityDecision::Proceed.approved_tier(CapabilityTier::Tier3), CapabilityTier::Tier3);
    let deny = StabilityDecision::Deny { reason: "r".to_string() };
    assert_eq!(deny.approved_tier(CapabilityTier::Tier1), CapabilityTier::Tier1);
    let throttle = StabilityDecision::Throttle { reason: "r".to_string(), recommended_delay: 900 };
    assert_eq!(throttle.approved_tier(CapabilityTier::Tier2), CapabilityTier::Tier2);
    assert_eq!(down.clone(), down);
}

#[test]
fn tiers_are_ordered() {
    let (t1, t2, t3) = (CapabilityTier::Tier1, CapabilityTier::Tier2, CapabilityTier::Tier3);
    assert!(t1 < t2 && t2 < t3);
    for (a, b, expected) in [
        (t1, t1, true),
        (t1, t2, true),
        (t1, t3, true),
        (t2, t1, false),
        (t2, t2, true),
        (t2, t3, true),
        (t3, t1, false),
        (t3, t2, false),
        (t3, t3, true),
    ] {
        assert_eq!(a.at_most(&b), expected);
    }
    assert_eq!(t3.one_below(), Some(t2));
    assert_eq!(t2.one_below(), Some(t1));
    assert_eq!(t1.one_below(), None);
}

#[test]
fn load_percentages_are_checked_for_range() {
    assert!(load(0, 100).is_in_range());
    assert!(load(100, 0).is_in_range());
    assert!(!load(101, 50).is_in_range());
    assert!(!load(50, 101).is_in_range());
}

#[test]
fn floors_are_checked_for_range() {
    assert!(idle_guard().has_floors_in_range());
    let telemetry = || FixedLoad(Ok(load(0, 0)));
    assert!(StabilityGuard::new(telemetry(), Amount::from_units(100), Amount::zero()).has_floors_in_range());
    assert!(!StabilityGuard::new(telemetry(), Amount::from_units(101), Amount::zero()).has_floors_in_range());
    assert!(!StabilityGuard::new(telemetry(), Amount::zero(), Amount { micros: 100_000_001 }).has_floors_in_range());
}

#[test]
fn jobs_are_checked_for_a_positive_duration() {
    let job = |max_duration: u64| eco_orchestrator::types::EcologicalJobSpec {
        actor_id: eco_orchestrator::types::ActorId("a".to_string()),
        segment_hint: None,
        requested_tier: CapabilityTier::Tier1,
        expected_flops: Amount::zero(),
        max_duration,
        purpose: String::new(),
        domain_tags: vec![],
    };
    assert!(job(1).is_well_formed());
    assert!(!job(0).is_well_formed());
}
