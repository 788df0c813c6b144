//! Multi-resource budgets: the check of a job against an actor's allowance and
//! usage, and the reservation that follows it.
use crate::amount::Amount;
use crate::types::{
    ActorId, CapabilityTier, ComputeEnergyAllowance, EcologicalJobSpec, ReservationId,
    UsageSnapshot, UsageWindowId,
};
use vstd::prelude::*;

verus! {

/// Why a reservation was not made.
#[derive(Clone, Copy, Debug, PartialEq, Eq, Structural)]
pub enum QuotaError {
    /// The requested tier lies above the allowance's tier ceiling.
    TierExceeded,
    /// Usage plus the job's expected work exceeds the allowance.
    FlopsExceeded,
    /// Usage plus the job's expected energy exceeds the allowance.
    EnergyExceeded,
    /// Usage plus the job's expected carbon exceeds the allowance.
    CarbonExceeded,
    /// The backing store could not be reached.
    StoreUnavailable,
}

/// The backing store could not be reached.
#[derive(Clone, Copy, Debug, PartialEq, Eq, Structural)]
pub struct StoreUnavailable;

/// Backing store of allowances, usage and reservations.
///
/// An implementation must serialise reservations on one `(actor, window)`:
/// of two concurrent reservations that would jointly over-commit a resource,
/// at most one succeeds.
///
/// Each method comes with a relation that says which answers the store may
/// give to which question. A store that states nothing leaves them as they
/// are; whoever calls the store states its own result over them.
pub trait QuotaStore: Send + Sync {
    /// Whether `answer` is one that this store may give when asked for the
    /// allowance of `actor` in `window`.
    open spec fn may_allow(
        &self,
        actor: ActorId,
        window: UsageWindowId,
        answer: Result<ComputeEnergyAllowance, StoreUnavailable>,
    ) -> bool {
        true
    }

    /// Whether `answer` is one that this store may give when asked for the
    /// usage of `actor` in `window`.
    open spec fn may_use(
        &self,
        actor: ActorId,
        window: UsageWindowId,
        answer: Result<UsageSnapshot, StoreUnavailable>,
    ) -> bool {
        true
    }

    /// Whether `answer` is one that this store may give when asked to reserve
    /// the three amounts for `actor` in `window` at `tier`.
    open spec fn may_reserve(
        &self,
        actor: ActorId,
        window: UsageWindowId,
        expected_flops: Amount,
        expected_energy_kwh: Amount,
        expected_carbon_kg: Amount,
        tier: CapabilityTier,
        answer: Result<ReservationId, StoreUnavailable>,
    ) -> bool {
        true
    }

    fn get_allowance(&self, actor: &ActorId, window: &UsageWindowId) -> (answer: Result<
        ComputeEnergyAllowance,
        StoreUnavailable,
    >)
        ensures
            self.may_allow(*actor, *window, answer),
    ;

    fn get_usage(&self, actor: &ActorId, window: &UsageWindowId) -> (answer: Result<
        UsageSnapshot,
        StoreUnavailable,
    >)
        ensures
            self.may_use(*actor, *window, answer),
    ;

    fn reserve_quota(
        &self,
        actor: &ActorId,
        window: &UsageWindowId,
        expected_flops: Amount,
        expected_energy_kwh: Amount,
        expected_carbon_kg: Amount,
        tier: &CapabilityTier,
    ) -> (answer: Result<ReservationId, StoreUnavailable>)
        ensures
            self.may_reserve(
                *actor,
                *window,
                expected_flops,
                expected_energy_kwh,
                expected_carbon_kg,
                *tier,
                answer,
            ),
    ;
}

/// The verdict on a job against an allowance and a usage snapshot. Four
/// conditions are tested in order and the first that fails names the error:
/// the tier ceiling, then work, energy and carbon. Each budget is a closed
/// bound on an exact sum: usage plus demand may meet the allowance.
pub open spec fn quota_verdict(
    allowance: ComputeEnergyAllowance,
    usage: UsageSnapshot,
    requested_tier: CapabilityTier,
    expected_flops: Amount,
    expected_energy_kwh: Amount,
    expected_carbon_kg: Amount,
) -> Result<(), QuotaError> {
    if requested_tier.rank() > allowance.max_tier.rank() {
        Err(QuotaError::TierExceeded)
    } else if usage.flops_used.micros + expected_flops.micros > allowance.max_flops.micros {
        Err(QuotaError::FlopsExceeded)
    } else if usage.energy_kwh_used.micros + expected_energy_kwh.micros
        > allowance.max_energy_kwh.micros {
        Err(QuotaError::EnergyExceeded)
    } else if usage.carbon_kg_emitted.micros + expected_carbon_kg.micros
        > allowance.max_carbon_kg.micros {
        Err(QuotaError::CarbonExceeded)
    } else {
        Ok(())
    }
}

/// Computes [`quota_verdict`].
pub fn check_amounts(
    allowance: &ComputeEnergyAllowance,
    usage: &UsageSnapshot,
    requested_tier: &CapabilityTier,
    expected_flops: Amount,
    expected_energy_kwh: Amount,
    expected_carbon_kg: Amount,
) -> (r: Result<(), QuotaError>)
    ensures
        r == quota_verdict(
            *allowance,
            *usage,
            *requested_tier,
            expected_flops,
            expected_energy_kwh,
            expected_carbon_kg,
        ),
{
    if !requested_tier.at_most(&allowance.max_tier) {
        return Err(QuotaError::TierExceeded);
    }
    if !usage.flops_used.fits_with(&expected_flops, &allowance.max_flops) {
        return Err(QuotaError::FlopsExceeded);
    }
    if !usage.energy_kwh_used.fits_with(&expected_energy_kwh, &allowance.max_energy_kwh) {
        return Err(QuotaError::EnergyExceeded);
    }
    if !usage.carbon_kg_emitted.fits_with(&expected_carbon_kg, &allowance.max_carbon_kg) {
        return Err(QuotaError::CarbonExceeded);
    }
    Ok(())
}

/// Computes [`quota_verdict`] for a job.
pub fn check_quota(
    allowance: &ComputeEnergyAllowance,
    usage: &UsageSnapshot,
    job: &EcologicalJobSpec,
    expected_energy_kwh: Amount,
    expected_carbon_kg: Amount,
) -> (r: Result<(), QuotaError>)
    ensures
        r == quota_verdict(
            *allowance,
            *usage,
            job.requested_tier,
            job.expected_flops,
            expected_energy_kwh,
            expected_carbon_kg,
        ),
{
    check_amounts(
        allowance,
        usage,
        &job.requested_tier,
        job.expected_flops,
        expected_energy_kwh,
        expected_carbon_kg,
    )
}

/// What comes of a reservation, given what the store answered: the store's
/// failure to give the allowance or the usage, else the error of the verdict
/// on the two, else the store's answer to the reservation. An answer that is
/// not reached does not count. The four exceeded kinds so come from the
/// verdict alone, and `StoreUnavailable` from the store alone.
pub open spec fn reserve_outcome(
    allowance: Result<ComputeEnergyAllowance, StoreUnavailable>,
    usage: Result<UsageSnapshot, StoreUnavailable>,
    reserved: Result<ReservationId, StoreUnavailable>,
    requested_tier: CapabilityTier,
    expected_flops: Amount,
    expected_energy_kwh: Amount,
    expected_carbon_kg: Amount,
) -> Result<ReservationId, QuotaError> {
    match (allowance, usage) {
        (Err(_), _) => Err(QuotaError::StoreUnavailable),
        (Ok(_), Err(_)) => Err(QuotaError::StoreUnavailable),
        (Ok(a), Ok(u)) => match quota_verdict(
            a,
            u,
            requested_tier,
            expected_flops,
            expected_energy_kwh,
            expected_carbon_kg,
        ) {
            Err(e) => Err(e),
            Ok(()) => match reserved {
                Ok(id) => Ok(id),
                Err(_) => Err(QuotaError::StoreUnavailable),
            },
        },
    }
}

/// Whether the three answers are ones that `store` may give in the course of
/// a reservation: the allowance for the actor and window; the usage for the
/// same two, asked only after an allowance came; the reservation of exactly
/// the checked amounts at the requested tier, asked only after the verdict on
/// allowance and usage was `Ok`.
pub open spec fn answers_of<Q: QuotaStore>(
    store: Q,
    actor: ActorId,
    window: UsageWindowId,
    allowance: Result<ComputeEnergyAllowance, StoreUnavailable>,
    usage: Result<UsageSnapshot, StoreUnavailable>,
    reserved: Result<ReservationId, StoreUnavailable>,
    requested_tier: CapabilityTier,
    expected_flops: Amount,
    expected_energy_kwh: Amount,
    expected_carbon_kg: Amount,
) -> bool {
    &&& store.may_allow(actor, window, allowance)
    &&& allowance is Ok ==> store.may_use(actor, window, usage)
    &&& (allowance matches Ok(a) && usage matches Ok(u) && quota_verdict(
        a,
        u,
        requested_tier,
        expected_flops,
        expected_energy_kwh,
        expected_carbon_kg,
    ) is Ok) ==> store.may_reserve(
        actor,
        window,
        expected_flops,
        expected_energy_kwh,
        expected_carbon_kg,
        requested_tier,
        reserved,
    )
}

/// Checks jobs against the budget held by a store and reserves their share.
pub struct QuotaService<Q: QuotaStore> {
    store: Q,
}

impl<Q: QuotaStore> QuotaService<Q> {
    /// The store that this service reads and reserves in.
    pub closed spec fn store(&self) -> Q {
        self.store
    }

    /// Whether `r` is a result that this service may give for a job: the
    /// [`reserve_outcome`] of answers that its store may give, see
    /// [`answers_of`].
    pub open spec fn may_answer(
        &self,
        actor: ActorId,
        window: UsageWindowId,
        requested_tier: CapabilityTier,
        expected_flops: Amount,
        expected_energy_kwh: Amount,
        expected_carbon_kg: Amount,
        r: Result<ReservationId, QuotaError>,
    ) -> bool {
        exists|
            allowance: Result<ComputeEnergyAllowance, StoreUnavailable>,
            usage: Result<UsageSnapshot, StoreUnavailable>,
            reserved: Result<ReservationId, StoreUnavailable>,
        |
            #[trigger] answers_of(
                self.store(),
                actor,
                window,
                allowance,
                usage,
                reserved,
                requested_tier,
                expected_flops,
                expected_energy_kwh,
                expected_carbon_kg,
            ) && r == reserve_outcome(
                allowance,
                usage,
                reserved,
                requested_tier,
                expected_flops,
                expected_energy_kwh,
                expected_carbon_kg,
            )
    }

    /// A service on top of `store`.
    pub fn new(store: Q) -> (r: Self)
        ensures
            r.store() == store,
    {
        Self { store }
    }

    /// Reads the actor's allowance and usage for the window, checks the job
    /// with [`check_quota`], and only where the check passes asks the store to
    /// reserve the three quantities, as they were checked.
    ///
    /// The result is the [`reserve_outcome`] of what the store answered: a
    /// failed read or a failed check is an error and the store is not asked to
    /// reserve; a reservation id is the one the store gave for the job's work
    /// and the two expected amounts at the requested tier.
    pub fn check_and_reserve(
        &self,
        actor: &ActorId,
        window: &UsageWindowId,
        job: &EcologicalJobSpec,
        expected_energy_kwh: Amount,
        expected_carbon_kg: Amount,
    ) -> (r: Result<ReservationId, QuotaError>)
        ensures
            self.may_answer(
                *actor,
                *window,
                job.requested_tier,
                job.expected_flops,
                expected_energy_kwh,
                expected_carbon_kg,
                r,
            ),
    {
        let ghost unasked_usage: Result<UsageSnapshot, StoreUnavailable> = Err(StoreUnavailable);
        let ghost unasked: Result<ReservationId, StoreUnavailable> = Err(StoreUnavailable);
        let allowance_answer = self.store.get_allowance(actor, window);
        let allowance = match allowance_answer {
            Ok(a) => a,
            Err(_) => {
                assert(answers_of(
                    self.store(),
                    *actor,
                    *window,
                    allowance_answer,
                    unasked_usage,
                    unasked,
                    job.requested_tier,
                    job.expected_flops,
                    expected_energy_kwh,
                    expected_carbon_kg,
                ));
                return Err(QuotaError::StoreUnavailable);
            },
        };
        let usage_answer = self.store.get_usage(actor, window);
        let usage = match usage_answer {
            Ok(u) => u,
            Err(_) => {
                assert(answers_of(
                    self.store(),
                    *actor,
                    *window,
                    allowance_answer,
                    usage_answer,
                    unasked,
                    job.requested_tier,
                    job.expected_flops,
                    expected_energy_kwh,
                    expected_carbon_kg,
                ));
                return Err(QuotaError::StoreUnavailable);
            },
        };
        match check_quota(&allowance, &usage, job, expected_energy_kwh, expected_carbon_kg) {
            Ok(()) => {
                let reserved = self.store.reserve_quota(
                    actor,
                    window,
                    job.expected_flops,
                    expected_energy_kwh,
                    expected_carbon_kg,
                    &job.requested_tier,
                );
                assert(answers_of(
                    self.store(),
                    *actor,
                    *window,
                    allowance_answer,
                    usage_answer,
                    reserved,
                    job.requested_tier,
                    job.expected_flops,
                    expected_energy_kwh,
                    expected_carbon_kg,
                ));
                match reserved {
                    Ok(id) => Ok(id),
                    Err(_) => Err(QuotaError::StoreUnavailable),
                }
            },
            Err(e) => {
                assert(answers_of(
                    self.store(),
                    *actor,
                    *window,
                    allowance_answer,
                    usage_answer,
                    unasked,
                    job.requested_tier,
                    job.expected_flops,
                    expected_energy_kwh,
                    expected_carbon_kg,
                ));
                Err(e)
            },
        }
    }
}

/// A usage that meets the allowance exactly on every axis passes: each bound
/// is closed.
pub proof fn law_exact_fit_is_admitted(
    allowance: ComputeEnergyAllowance,
    usage: UsageSnapshot,
    requested_tier: CapabilityTier,
    expected_flops: Amount,
    expected_energy_kwh: Amount,
    expected_carbon_kg: Amount,
)
    requires
        requested_tier.rank() <= allowance.max_tier.rank(),
        usage.flops_used.micros + expected_flops.micros == allowance.max_flops.micros,
        usage.energy_kwh_used.micros + expected_energy_kwh.micros
            == allowance.max_energy_kwh.micros,
        usage.carbon_kg_emitted.micros + expected_carbon_kg.micros
            == allowance.max_carbon_kg.micros,
    ensures
        quota_verdict(
            allowance,
            usage,
            requested_tier,
            expected_flops,
            expected_energy_kwh,
            expected_carbon_kg,
        ) is Ok,
{
}

/// What one job asks of the budget.
pub ghost struct Demand {
    pub tier: CapabilityTier,
    pub flops: Amount,
    pub energy_kwh: Amount,
    pub carbon_kg: Amount,
}

/// Whether a snapshot lies within the allowance on each of the three axes.
pub open spec fn within_allowance(allowance: ComputeEnergyAllowance, usage: UsageSnapshot) -> bool {
    &&& usage.flops_used.micros <= allowance.max_flops.micros
    &&& usage.energy_kwh_used.micros <= allowance.max_energy_kwh.micros
    &&& usage.carbon_kg_emitted.micros <= allowance.max_carbon_kg.micros
}

/// The snapshot after one demand is put to the check: where the verdict is
/// `Ok` the demand is committed on top of `usage`, else `usage` stands.
pub open spec fn commit_one(
    allowance: ComputeEnergyAllowance,
    usage: UsageSnapshot,
    demand: Demand,
) -> UsageSnapshot {
    if quota_verdict(
        allowance,
        usage,
        demand.tier,
        demand.flops,
        demand.energy_kwh,
        demand.carbon_kg,
    ) is Ok {
        UsageSnapshot {
            window_id: usage.window_id,
            flops_used: Amount { micros: (usage.flops_used.micros + demand.flops.micros) as u128 },
            energy_kwh_used: Amount {
                micros: (usage.energy_kwh_used.micros + demand.energy_kwh.micros) as u128,
            },
            carbon_kg_emitted: Amount {
                micros: (usage.carbon_kg_emitted.micros + demand.carbon_kg.micros) as u128,
            },
        }
    } else {
        usage
    }
}

/// The snapshot after a sequence of demands is put to the check one after
/// another, each seeing what those before it committed: the order in which a
/// store that serialises reservations on one `(actor, window)` serves them.
pub open spec fn commit_all(
    allowance: ComputeEnergyAllowance,
    usage: UsageSnapshot,
    demands: Seq<Demand>,
) -> UsageSnapshot
    decreases demands.len(),
{
    if demands.len() == 0 {
        usage
    } else {
        commit_all(allowance, commit_one(allowance, usage, demands[0]), demands.drop_first())
    }
}

/// Served one after another, no sequence of demands takes usage plus
/// reservations above the allowance on any axis.
pub proof fn law_serial_reservations_stay_within_allowance(
    allowance: ComputeEnergyAllowance,
    usage: UsageSnapshot,
    demands: Seq<Demand>,
)
    requires
        within_allowance(allowance, usage),
    ensures
        within_allowance(allowance, commit_all(allowance, usage, demands)),
    decreases demands.len(),
{
    if demands.len() > 0 {
        law_serial_reservations_stay_within_allowance(
            allowance,
            commit_one(allowance, usage, demands[0]),
            demands.drop_first(),
        );
    }
}

} // verus!
