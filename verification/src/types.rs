//! The data model shared by every component: identifiers, tiers, budgets,
//! usage, segment load, job specifications, decisions, plans and receipts.
use crate::amount::Amount;
use vstd::prelude::*;

verus! {

/// `uuid::Uuid`, carried through as an opaque value: nothing in the library
/// looks inside one.
#[verifier::external_type_specification]
#[verifier::external_body]
pub struct ExUuid(uuid::Uuid);

/// Decentralised identifier of the requesting principal.
#[derive(Debug, PartialEq, Eq, Hash)]
pub struct ActorId(pub String);

/// Fabric region sharing thermal and energy state.
#[derive(Debug, PartialEq, Eq, Hash)]
pub struct SegmentId(pub String);

/// Discrete accounting interval, such as a UTC day.
#[derive(Debug, PartialEq, Eq, Hash)]
pub struct UsageWindowId(pub String);

/// Identifier minted by the quota store on a successful reservation.
#[derive(Debug, PartialEq, Eq, Hash)]
pub struct ReservationId(pub uuid::Uuid);

impl View for ActorId {
    type V = Seq<char>;

    open spec fn view(&self) -> Seq<char> {
        self.0@
    }
}

impl DeepView for ActorId {
    type V = Seq<char>;

    open spec fn deep_view(&self) -> Seq<char> {
        self.0@
    }
}

impl Clone for ActorId {
    fn clone(&self) -> (r: Self)
        ensures
            r == *self,
    {
        ActorId(self.0.clone())
    }
}

impl View for SegmentId {
    type V = Seq<char>;

    open spec fn view(&self) -> Seq<char> {
        self.0@
    }
}

impl DeepView for SegmentId {
    type V = Seq<char>;

    open spec fn deep_view(&self) -> Seq<char> {
        self.0@
    }
}

impl Clone for SegmentId {
    fn clone(&self) -> (r: Self)
        ensures
            r == *self,
    {
        SegmentId(self.0.clone())
    }
}

impl View for UsageWindowId {
    type V = Seq<char>;

    open spec fn view(&self) -> Seq<char> {
        self.0@
    }
}

impl DeepView for UsageWindowId {
    type V = Seq<char>;

    open spec fn deep_view(&self) -> Seq<char> {
        self.0@
    }
}

impl Clone for UsageWindowId {
    fn clone(&self) -> (r: Self)
        ensures
            r == *self,
    {
        UsageWindowId(self.0.clone())
    }
}

impl Clone for ReservationId {
    fn clone(&self) -> (r: Self)
        ensures
            r == *self,
    {
        ReservationId(self.0)
    }
}

/// Ordered service class: `Tier1 < Tier2 < Tier3`. The order serves downgrade
/// chains and "at most" comparisons; tiers carry no arithmetic.
#[derive(Clone, Copy, Debug, PartialEq, Eq, Structural, PartialOrd, Ord, Hash)]
pub enum CapabilityTier {
    Tier1,
    Tier2,
    Tier3,
}

impl CapabilityTier {
    /// Position of the tier in the order: 1, 2 or 3.
    pub open spec fn rank(self) -> int {
        match self {
            CapabilityTier::Tier1 => 1,
            CapabilityTier::Tier2 => 2,
            CapabilityTier::Tier3 => 3,
        }
    }

    /// The tier directly below, if there is one.
    pub open spec fn spec_one_below(self) -> Option<CapabilityTier> {
        match self {
            CapabilityTier::Tier3 => Some(CapabilityTier::Tier2),
            CapabilityTier::Tier2 => Some(CapabilityTier::Tier1),
            CapabilityTier::Tier1 => None,
        }
    }

    /// Whether `self <= other` in the tier order.
    pub fn at_most(&self, other: &CapabilityTier) -> (r: bool)
        ensures
            r == (self.rank() <= other.rank()),
    {
        match (self, other) {
            (CapabilityTier::Tier3, CapabilityTier::Tier2) => false,
            (CapabilityTier::Tier3, CapabilityTier::Tier1) => false,
            (CapabilityTier::Tier2, CapabilityTier::Tier1) => false,
            _ => true,
        }
    }

    /// The tier directly below `self`; `None` at the lowest tier.
    pub fn one_below(&self) -> (r: Option<CapabilityTier>)
        ensures
            r == self.spec_one_below(),
            r matches Some(t) ==> t.rank() == self.rank() - 1,
            r is None <==> *self == CapabilityTier::Tier1,
    {
        match self {
            CapabilityTier::Tier3 => Some(CapabilityTier::Tier2),
            CapabilityTier::Tier2 => Some(CapabilityTier::Tier1),
            CapabilityTier::Tier1 => None,
        }
    }
}

/// Per-window resource ceiling of one actor. Times are whole seconds since the
/// Unix epoch.
#[derive(Clone, Debug, PartialEq, Eq)]
pub struct ComputeEnergyAllowance {
    pub max_flops: Amount,
    pub max_energy_kwh: Amount,
    pub max_carbon_kg: Amount,
    pub max_tier: CapabilityTier,
    pub valid_until: u64,
}

/// What an actor has consumed so far within one window.
#[derive(Clone, Debug, PartialEq, Eq)]
pub struct UsageSnapshot {
    pub window_id: UsageWindowId,
    pub flops_used: Amount,
    pub energy_kwh_used: Amount,
    pub carbon_kg_emitted: Amount,
}

/// A sample of a segment's state. The two percentages are meant to lie in
/// `[0, 100]`, see [`SegmentLoad::in_range`].
#[derive(Clone, Debug, PartialEq, Eq)]
pub struct SegmentLoad {
    pub segment_id: SegmentId,
    pub current_flops: Amount,
    pub energy_rate_kw: Amount,
    pub thermal_margin_pct: Amount,
    pub renewable_share_pct: Amount,
}

impl SegmentLoad {
    /// Both percentages lie in `[0, 100]`.
    pub open spec fn in_range(&self) -> bool {
        &&& self.thermal_margin_pct.micros <= Amount::units(100)
        &&& self.renewable_share_pct.micros <= Amount::units(100)
    }

    /// Tests [`SegmentLoad::in_range`].
    pub fn is_in_range(&self) -> (r: bool)
        ensures
            r == self.in_range(),
    {
        let full: Amount = Amount::from_units(100);
        self.thermal_margin_pct.is_at_most(&full) && self.renewable_share_pct.is_at_most(&full)
    }
}

/// What an actor asks to run. `max_duration` is in whole seconds and is meant
/// to be positive.
#[derive(Clone, Debug, PartialEq, Eq)]
pub struct EcologicalJobSpec {
    pub actor_id: ActorId,
    pub segment_hint: Option<SegmentId>,
    pub requested_tier: CapabilityTier,
    pub expected_flops: Amount,
    pub max_duration: u64,
    pub purpose: String,
    pub domain_tags: Vec<String>,
}

impl EcologicalJobSpec {
    /// The job may run for some time: its longest duration is positive.
    pub open spec fn well_formed(&self) -> bool {
        self.max_duration > 0
    }

    /// Tests [`EcologicalJobSpec::well_formed`].
    pub fn is_well_formed(&self) -> (r: bool)
        ensures
            r == self.well_formed(),
    {
        self.max_duration > 0
    }
}

/// The grid's verdict on a job: proceed, delay, run one tier lower, or refuse.
/// `recommended_delay` is in whole seconds.
#[derive(Debug, PartialEq, Eq)]
pub enum StabilityDecision {
    Proceed,
    Throttle { reason: String, recommended_delay: u64 },
    Downgrade { reason: String, downgraded_tier: CapabilityTier },
    Deny { reason: String },
}

/// A [`StabilityDecision`] with its texts as sequences of characters.
pub ghost enum StabilityVerdict {
    Proceed,
    Throttle { reason: Seq<char>, recommended_delay: u64 },
    Downgrade { reason: Seq<char>, downgraded_tier: CapabilityTier },
    Deny { reason: Seq<char> },
}

impl DeepView for StabilityDecision {
    type V = StabilityVerdict;

    open spec fn deep_view(&self) -> StabilityVerdict {
        match *self {
            StabilityDecision::Proceed => StabilityVerdict::Proceed,
            StabilityDecision::Throttle { reason, recommended_delay } => StabilityVerdict::Throttle {
                reason: reason@,
                recommended_delay,
            },
            StabilityDecision::Downgrade { reason, downgraded_tier } => StabilityVerdict::Downgrade {
                reason: reason@,
                downgraded_tier,
            },
            StabilityDecision::Deny { reason } => StabilityVerdict::Deny { reason: reason@ },
        }
    }
}

impl Clone for StabilityDecision {
    fn clone(&self) -> (r: Self)
        ensures
            r == *self,
    {
        match self {
            StabilityDecision::Proceed => StabilityDecision::Proceed,
            StabilityDecision::Throttle { reason, recommended_delay } => StabilityDecision::Throttle {
                reason: reason.clone(),
                recommended_delay: *recommended_delay,
            },
            StabilityDecision::Downgrade { reason, downgraded_tier } => StabilityDecision::Downgrade {
                reason: reason.clone(),
                downgraded_tier: *downgraded_tier,
            },
            StabilityDecision::Deny { reason } => StabilityDecision::Deny { reason: reason.clone() },
        }
    }
}

impl StabilityDecision {
    /// The tier a job runs at under this decision: the downgraded tier where
    /// the decision is a downgrade, the requested tier otherwise.
    pub open spec fn tier_after(&self, requested: CapabilityTier) -> CapabilityTier {
        match *self {
            StabilityDecision::Downgrade { downgraded_tier, .. } => downgraded_tier,
            _ => requested,
        }
    }

    /// Computes [`StabilityDecision::tier_after`].
    pub fn approved_tier(&self, requested: CapabilityTier) -> (r: CapabilityTier)
        ensures
            r == self.tier_after(requested),
    {
        match self {
            StabilityDecision::Downgrade { downgraded_tier, .. } => *downgraded_tier,
            _ => requested,
        }
    }
}

/// The outcome of a successful admission. The reservation id is the
/// correlation key for everything that follows.
#[derive(Clone, Debug, PartialEq, Eq)]
pub struct JobExecutionPlan {
    pub reservation_id: ReservationId,
    pub approved_segment: SegmentId,
    pub approved_tier: CapabilityTier,
    pub stability_decision: StabilityDecision,
}

/// Binds a reservation to what was measured and to what is left of the
/// allowance.
#[derive(Clone, Debug, PartialEq, Eq)]
pub struct FairUseReceipt {
    pub reservation_id: ReservationId,
    pub actor_id: ActorId,
    pub segment_id: SegmentId,
    pub flops_used: Amount,
    pub energy_kwh_used: Amount,
    pub carbon_kg_emitted: Amount,
    pub window_id: UsageWindowId,
    pub allowance_remaining_flops: Amount,
    pub allowance_remaining_energy_kwh: Amount,
    pub allowance_remaining_carbon_kg: Amount,
    pub explanation: String,
}

} // verus!
