//! The account of one actor in one window, kept in memory: what a store that
//! serialises reservations on an `(actor, window)` holds per key.
//!
//! The ledger counts every reservation it admits into the usage that the next
//! reservation is checked against. Usage plus reservations so never exceeds
//! the allowance on any axis, whatever is asked of the ledger and in whatever
//! order.
use crate::amount::Amount;
use crate::quota::{check_amounts, commit_one, quota_verdict, within_allowance, Demand, QuotaError};
use crate::types::{CapabilityTier, ComputeEnergyAllowance, UsageSnapshot};
use vstd::prelude::*;

verus! {

/// An allowance, the usage measured against it, and the sum of the
/// reservations that are active. The three sums of usage and reservations lie
/// within the allowance at all times.
pub struct Ledger {
    allowance: ComputeEnergyAllowance,
    measured: UsageSnapshot,
    reserved_flops: Amount,
    reserved_energy_kwh: Amount,
    reserved_carbon_kg: Amount,
}

impl Ledger {
    #[verifier::type_invariant]
    spec fn within(&self) -> bool {
        &&& self.measured.flops_used.micros + self.reserved_flops.micros
            <= self.allowance.max_flops.micros
        &&& self.measured.energy_kwh_used.micros + self.reserved_energy_kwh.micros
            <= self.allowance.max_energy_kwh.micros
        &&& self.measured.carbon_kg_emitted.micros + self.reserved_carbon_kg.micros
            <= self.allowance.max_carbon_kg.micros
    }

    /// The allowance of this account.
    pub closed spec fn allowance(&self) -> ComputeEnergyAllowance {
        self.allowance
    }

    /// The usage measured so far, reservations not counted.
    pub closed spec fn measured(&self) -> UsageSnapshot {
        self.measured
    }

    /// What is committed on this account: on each axis the measured usage
    /// plus the active reservations.
    pub closed spec fn committed(&self) -> UsageSnapshot {
        UsageSnapshot {
            window_id: self.measured.window_id,
            flops_used: Amount {
                micros: (self.measured.flops_used.micros + self.reserved_flops.micros) as u128,
            },
            energy_kwh_used: Amount {
                micros: (self.measured.energy_kwh_used.micros
                    + self.reserved_energy_kwh.micros) as u128,
            },
            carbon_kg_emitted: Amount {
                micros: (self.measured.carbon_kg_emitted.micros
                    + self.reserved_carbon_kg.micros) as u128,
            },
        }
    }

    /// Opens an account without reservations; `None` where the measured usage
    /// already exceeds the allowance on some axis.
    pub fn open(allowance: ComputeEnergyAllowance, measured: UsageSnapshot) -> (r: Option<Ledger>)
        ensures
            r is Some <==> within_allowance(allowance, measured),
            r matches Some(ledger) ==> ledger.allowance() == allowance && ledger.measured()
                == measured && ledger.committed() == measured,
    {
        if measured.flops_used.is_at_most(&allowance.max_flops)
            && measured.energy_kwh_used.is_at_most(&allowance.max_energy_kwh)
            && measured.carbon_kg_emitted.is_at_most(&allowance.max_carbon_kg) {
            Some(
                Ledger {
                    allowance,
                    measured,
                    reserved_flops: Amount::zero(),
                    reserved_energy_kwh: Amount::zero(),
                    reserved_carbon_kg: Amount::zero(),
                },
            )
        } else {
            None
        }
    }

    /// The allowance of this account.
    pub fn get_allowance(&self) -> (r: ComputeEnergyAllowance)
        ensures
            r == self.allowance(),
    {
        ComputeEnergyAllowance {
            max_flops: self.allowance.max_flops,
            max_energy_kwh: self.allowance.max_energy_kwh,
            max_carbon_kg: self.allowance.max_carbon_kg,
            max_tier: self.allowance.max_tier,
            valid_until: self.allowance.valid_until,
        }
    }

    /// The usage that the next reservation is checked against: what is
    /// committed, which lies within the allowance.
    pub fn get_usage(&self) -> (r: UsageSnapshot)
        ensures
            r == self.committed(),
            within_allowance(self.allowance(), r),
    {
        proof {
            use_type_invariant(self);
        }
        UsageSnapshot {
            window_id: self.measured.window_id.clone(),
            flops_used: Amount {
                micros: self.measured.flops_used.micros + self.reserved_flops.micros,
            },
            energy_kwh_used: Amount {
                micros: self.measured.energy_kwh_used.micros + self.reserved_energy_kwh.micros,
            },
            carbon_kg_emitted: Amount {
                micros: self.measured.carbon_kg_emitted.micros + self.reserved_carbon_kg.micros,
            },
        }
    }

    /// Puts a demand to the account. The verdict is that of [`quota_verdict`]
    /// on what is committed; where it is `Ok` the demand is reserved on top,
    /// else the account stays as it is. Either way what is committed lies
    /// within the allowance afterwards.
    pub fn try_reserve(
        &mut self,
        tier: &CapabilityTier,
        expected_flops: Amount,
        expected_energy_kwh: Amount,
        expected_carbon_kg: Amount,
    ) -> (r: Result<(), QuotaError>)
        ensures
            r == quota_verdict(
                old(self).allowance(),
                old(self).committed(),
                *tier,
                expected_flops,
                expected_energy_kwh,
                expected_carbon_kg,
            ),
            final(self).allowance() == old(self).allowance(),
            final(self).measured() == old(self).measured(),
            final(self).committed() == commit_one(
                old(self).allowance(),
                old(self).committed(),
                (Demand {
                    tier: *tier,
                    flops: expected_flops,
                    energy_kwh: expected_energy_kwh,
                    carbon_kg: expected_carbon_kg,
                }),
            ),
            within_allowance(final(self).allowance(), final(self).committed()),
    {
        proof {
            use_type_invariant(&*self);
        }
        let snapshot = self.get_usage();
        let verdict = check_amounts(
            &self.allowance,
            &snapshot,
            tier,
            expected_flops,
            expected_energy_kwh,
            expected_carbon_kg,
        );
        match verdict {
            Ok(()) => {
                self.reserved_flops = Amount {
                    micros: self.reserved_flops.micros + expected_flops.micros,
                };
                self.reserved_energy_kwh = Amount {
                    micros: self.reserved_energy_kwh.micros + expected_energy_kwh.micros,
                };
                self.reserved_carbon_kg = Amount {
                    micros: self.reserved_carbon_kg.micros + expected_carbon_kg.micros,
                };
            },
            Err(_) => {},
        }
        verdict
    }
}

} // verus!
