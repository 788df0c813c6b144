//! The stability guard: what the grid will carry, judged from a segment's
//! thermal margin and renewable share.
use crate::amount::Amount;
use crate::types::{CapabilityTier, SegmentId, SegmentLoad, StabilityDecision, StabilityVerdict};
use vstd::prelude::*;

verus! {

/// Seconds to wait after a thermal throttle unless configured otherwise: a
/// quarter of an hour.
pub const DEFAULT_THROTTLE_DELAY: u64 = 900;

/// A segment's load could not be read.
#[derive(Clone, Copy, Debug, PartialEq, Eq, Structural)]
pub struct TelemetryUnavailable;

/// Source of live segment samples.
///
/// The relation says which answers the source may give to which question. A
/// source that states nothing leaves it as it is; whoever samples the source
/// states its own result over it.
pub trait SegmentTelemetry: Send + Sync {
    /// Whether `sample` is an answer that this source may give when asked for
    /// the load of `segment_id`.
    open spec fn may_sample(
        &self,
        segment_id: SegmentId,
        sample: Result<SegmentLoad, TelemetryUnavailable>,
    ) -> bool {
        true
    }

    fn get_segment_load(&self, segment_id: &SegmentId) -> (sample: Result<
        SegmentLoad,
        TelemetryUnavailable,
    >)
        ensures
            self.may_sample(*segment_id, sample),
    ;
}

/// The decision rule, first match wins:
///
/// 1. a thermal margin strictly below `max_thermal_pct` throttles;
/// 2. else a renewable share strictly below `min_renewable_pct` moves the job
///    one tier down, or refuses it where there is no tier below;
/// 3. else the job proceeds.
///
/// Both thresholds are floors that the fabric must meet.
pub open spec fn stability_rule(
    max_thermal_pct: Amount,
    min_renewable_pct: Amount,
    throttle_delay: u64,
    thermal_margin_pct: Amount,
    renewable_share_pct: Amount,
    requested_tier: CapabilityTier,
) -> StabilityVerdict {
    if thermal_margin_pct.micros < max_thermal_pct.micros {
        StabilityVerdict::Throttle {
            reason: "thermal margin too low"@,
            recommended_delay: throttle_delay,
        }
    } else if renewable_share_pct.micros < min_renewable_pct.micros {
        match requested_tier.spec_one_below() {
            Some(lower) => StabilityVerdict::Downgrade {
                reason: "insufficient renewable share, downgraded tier"@,
                downgraded_tier: lower,
            },
            None => StabilityVerdict::Deny {
                reason: "insufficient renewable share for even lowest tier"@,
            },
        }
    } else {
        StabilityVerdict::Proceed
    }
}

/// Whether some sample makes [`stability_rule`] answer `verdict` for a job at
/// `requested_tier`: what holds of every decision of a guard with this
/// configuration, whatever the telemetry said.
pub open spec fn rule_can_answer(
    max_thermal_pct: Amount,
    min_renewable_pct: Amount,
    throttle_delay: u64,
    requested_tier: CapabilityTier,
    verdict: StabilityVerdict,
) -> bool {
    exists|thermal_margin_pct: Amount, renewable_share_pct: Amount|
        verdict == #[trigger] stability_rule(
            max_thermal_pct,
            min_renewable_pct,
            throttle_delay,
            thermal_margin_pct,
            renewable_share_pct,
            requested_tier,
        )
}

/// Arbitrates between a job and the state of the segment it would run on.
pub struct StabilityGuard<T: SegmentTelemetry> {
    telemetry: T,
    max_thermal_pct: Amount,
    min_renewable_pct: Amount,
    throttle_delay: u64,
}

impl<T: SegmentTelemetry> StabilityGuard<T> {
    /// The thermal margin, in percent, below which jobs are throttled.
    pub closed spec fn max_thermal_pct(&self) -> Amount {
        self.max_thermal_pct
    }

    /// The renewable share, in percent, below which jobs are downgraded or
    /// refused.
    pub closed spec fn min_renewable_pct(&self) -> Amount {
        self.min_renewable_pct
    }

    /// The retry hint, in seconds, given with a throttle.
    pub closed spec fn throttle_delay(&self) -> u64 {
        self.throttle_delay
    }

    /// The telemetry that this guard samples.
    pub closed spec fn telemetry(&self) -> T {
        self.telemetry
    }

    /// Both floors are percentages: they lie in `[0, 100]`.
    pub open spec fn floors_in_range(&self) -> bool {
        &&& self.max_thermal_pct().micros <= Amount::units(100)
        &&& self.min_renewable_pct().micros <= Amount::units(100)
    }

    /// What this guard decides on a sample with the given percentages.
    pub open spec fn verdict_on(
        &self,
        thermal_margin_pct: Amount,
        renewable_share_pct: Amount,
        requested_tier: CapabilityTier,
    ) -> StabilityVerdict {
        stability_rule(
            self.max_thermal_pct(),
            self.min_renewable_pct(),
            self.throttle_delay(),
            thermal_margin_pct,
            renewable_share_pct,
            requested_tier,
        )
    }

    /// What this guard makes of a sample: the rule's decision on a load, the
    /// error of a sample that failed.
    pub open spec fn decision_matches(
        &self,
        sample: Result<SegmentLoad, TelemetryUnavailable>,
        requested_tier: CapabilityTier,
        r: Result<StabilityDecision, TelemetryUnavailable>,
    ) -> bool {
        match sample {
            Ok(load) => r matches Ok(decision) && decision.deep_view() == self.verdict_on(
                load.thermal_margin_pct,
                load.renewable_share_pct,
                requested_tier,
            ),
            Err(e) => r == Err::<StabilityDecision, TelemetryUnavailable>(e),
        }
    }

    /// Whether `r` is a result that this guard may give for a job at
    /// `requested_tier` on `segment_id`: what it makes of a sample that its
    /// telemetry may give for that segment.
    pub open spec fn may_decide(
        &self,
        segment_id: SegmentId,
        requested_tier: CapabilityTier,
        r: Result<StabilityDecision, TelemetryUnavailable>,
    ) -> bool {
        exists|sample: Result<SegmentLoad, TelemetryUnavailable>|
            #[trigger] self.telemetry().may_sample(segment_id, sample) && self.decision_matches(
                sample,
                requested_tier,
                r,
            )
    }

    /// Whether `verdict` is among the answers this guard can give for a job at
    /// `requested_tier`.
    pub open spec fn can_answer(&self, requested_tier: CapabilityTier, verdict: StabilityVerdict) -> bool {
        rule_can_answer(
            self.max_thermal_pct(),
            self.min_renewable_pct(),
            self.throttle_delay(),
            requested_tier,
            verdict,
        )
    }

    /// A guard with the two floors, in percent, and the default retry hint.
    pub fn new(telemetry: T, max_thermal_pct: Amount, min_renewable_pct: Amount) -> (r: Self)
        ensures
            r.telemetry() == telemetry,
            r.max_thermal_pct() == max_thermal_pct,
            r.min_renewable_pct() == min_renewable_pct,
            r.throttle_delay() == DEFAULT_THROTTLE_DELAY,
    {
        Self { telemetry, max_thermal_pct, min_renewable_pct, throttle_delay: DEFAULT_THROTTLE_DELAY }
    }

    /// The same guard with another retry hint, in seconds.
    pub fn with_throttle_delay(self, seconds: u64) -> (r: Self)
        ensures
            r.telemetry() == self.telemetry(),
            r.max_thermal_pct() == self.max_thermal_pct(),
            r.min_renewable_pct() == self.min_renewable_pct(),
            r.throttle_delay() == seconds,
    {
        Self {
            telemetry: self.telemetry,
            max_thermal_pct: self.max_thermal_pct,
            min_renewable_pct: self.min_renewable_pct,
            throttle_delay: seconds,
        }
    }

    /// Tests [`StabilityGuard::floors_in_range`].
    pub fn has_floors_in_range(&self) -> (r: bool)
        ensures
            r == self.floors_in_range(),
    {
        let full: Amount = Amount::from_units(100);
        self.max_thermal_pct.is_at_most(&full) && self.min_renewable_pct.is_at_most(&full)
    }

    /// Applies the decision rule to a sample.
    pub fn decide(&self, load: &SegmentLoad, requested_tier: &CapabilityTier) -> (d: StabilityDecision)
        ensures
            d.deep_view() == self.verdict_on(
                load.thermal_margin_pct,
                load.renewable_share_pct,
                *requested_tier,
            ),
    {
        if load.thermal_margin_pct.is_below(&self.max_thermal_pct) {
            return StabilityDecision::Throttle {
                reason: "thermal margin too low".to_string(),
                recommended_delay: self.throttle_delay,
            };
        }
        if load.renewable_share_pct.is_below(&self.min_renewable_pct) {
            return match requested_tier.one_below() {
                Some(lower) => StabilityDecision::Downgrade {
                    reason: "insufficient renewable share, downgraded tier".to_string(),
                    downgraded_tier: lower,
                },
                None => StabilityDecision::Deny {
                    reason: "insufficient renewable share for even lowest tier".to_string(),
                },
            };
        }
        StabilityDecision::Proceed
    }

    /// Samples the segment and decides. The proposed work and energy are
    /// carried for rules that weigh a job's marginal impact; the present rule
    /// reads neither.
    ///
    /// The result is what the guard makes of the sample that the telemetry
    /// gave for this segment: the rule's decision on the load, or the error of
    /// a sample that failed. Every decision is so an answer of the rule for
    /// the requested tier.
    pub fn check(
        &self,
        segment_id: &SegmentId,
        proposed_flops: Amount,
        proposed_energy_kwh: Amount,
        requested_tier: &CapabilityTier,
    ) -> (r: Result<StabilityDecision, TelemetryUnavailable>)
        ensures
            self.may_decide(*segment_id, *requested_tier, r),
            r matches Ok(d) ==> self.can_answer(*requested_tier, d.deep_view()),
    {
        let sample = self.telemetry.get_segment_load(segment_id);
        let r = match &sample {
            Ok(load) => Ok(self.decide(load, requested_tier)),
            Err(e) => Err(*e),
        };
        assert(self.telemetry().may_sample(*segment_id, sample) && self.decision_matches(
            sample,
            *requested_tier,
            r,
        ));
        r
    }
}

/// Exactly one variant fires, and which one is settled by two comparisons
/// taken in order: the thermal one first, the renewable one only where the
/// thermal margin suffices.
pub proof fn law_one_variant_thermal_first(
    max_thermal_pct: Amount,
    min_renewable_pct: Amount,
    throttle_delay: u64,
    thermal_margin_pct: Amount,
    renewable_share_pct: Amount,
    requested_tier: CapabilityTier,
)
    ensures
        ({
            let v = stability_rule(
                max_thermal_pct,
                min_renewable_pct,
                throttle_delay,
                thermal_margin_pct,
                renewable_share_pct,
                requested_tier,
            );
            let hot = thermal_margin_pct.micros < max_thermal_pct.micros;
            let grey = renewable_share_pct.micros < min_renewable_pct.micros;
            &&& v is Throttle <==> hot
            &&& v is Downgrade <==> !hot && grey && requested_tier != CapabilityTier::Tier1
            &&& v is Deny <==> !hot && grey && requested_tier == CapabilityTier::Tier1
            &&& v is Proceed <==> !hot && !grey
            &&& v is Throttle ==> v->recommended_delay == throttle_delay
            &&& v is Downgrade ==> v->downgraded_tier.rank() == requested_tier.rank() - 1
        }),
{
}

/// A thermal margin that equals the floor does not throttle: the comparison is
/// strict.
pub proof fn law_margin_at_floor_not_throttled(
    max_thermal_pct: Amount,
    min_renewable_pct: Amount,
    throttle_delay: u64,
    renewable_share_pct: Amount,
    requested_tier: CapabilityTier,
)
    ensures
        !(stability_rule(
            max_thermal_pct,
            min_renewable_pct,
            throttle_delay,
            max_thermal_pct,
            renewable_share_pct,
            requested_tier,
        ) is Throttle),
{
}

/// A job at the lowest tier is never downgraded: where renewables fall short
/// and the thermal margin suffices, it is refused.
pub proof fn law_lowest_tier_denied_not_downgraded(
    max_thermal_pct: Amount,
    min_renewable_pct: Amount,
    throttle_delay: u64,
    thermal_margin_pct: Amount,
    renewable_share_pct: Amount,
)
    ensures
        ({
            let v = stability_rule(
                max_thermal_pct,
                min_renewable_pct,
                throttle_delay,
                thermal_margin_pct,
                renewable_share_pct,
                CapabilityTier::Tier1,
            );
            &&& !(v is Downgrade)
            &&& thermal_margin_pct.micros >= max_thermal_pct.micros && renewable_share_pct.micros
                < min_renewable_pct.micros ==> v is Deny
        }),
{
}

/// Whatever the sample, a decision leaves the job at its requested tier or
/// exactly one tier below it.
pub proof fn law_answer_never_raises_tier(
    max_thermal_pct: Amount,
    min_renewable_pct: Amount,
    throttle_delay: u64,
    requested_tier: CapabilityTier,
    decision: StabilityDecision,
)
    requires
        rule_can_answer(
            max_thermal_pct,
            min_renewable_pct,
            throttle_delay,
            requested_tier,
            decision.deep_view(),
        ),
    ensures
        decision.tier_after(requested_tier).rank() <= requested_tier.rank(),
        decision.tier_after(requested_tier).rank() >= requested_tier.rank() - 1,
        decision is Downgrade ==> decision.tier_after(requested_tier).rank() == requested_tier.rank()
            - 1,
        decision is Deny ==> requested_tier == CapabilityTier::Tier1,
{
}

} // verus!
