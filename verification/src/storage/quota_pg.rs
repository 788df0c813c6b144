//! Allowances and usage as a relational store holds them: numbers in binary64
//! columns, the tier as a small integer, the expiry as seconds since the Unix
//! epoch.
use crate::amount::Amount;
use crate::binary64::clamped_amount;
use crate::types::{CapabilityTier, ComputeEnergyAllowance, UsageSnapshot, UsageWindowId};
use vstd::prelude::*;

verus! {

/// The tier that a stored number stands for. Numbers outside `1..=3` fall back
/// to the lowest tier.
pub open spec fn stored_tier(v: i16) -> CapabilityTier {
    if v == 2 {
        CapabilityTier::Tier2
    } else if v == 3 {
        CapabilityTier::Tier3
    } else {
        CapabilityTier::Tier1
    }
}

/// Reads a tier from its stored number.
pub fn tier_from_i16(v: i16) -> (r: CapabilityTier)
    ensures
        r == stored_tier(v),
        1 <= v <= 3 ==> r.rank() == v,
{
    match v {
        2 => CapabilityTier::Tier2,
        3 => CapabilityTier::Tier3,
        _ => CapabilityTier::Tier1,
    }
}

/// The allowance held by a row of the allowance relation. The three budgets
/// are given by the bits of their binary64 columns and are clamped into
/// amounts.
pub fn allowance_from_columns(
    max_flops: u64,
    max_energy_kwh: u64,
    max_carbon_kg: u64,
    max_tier: i16,
    valid_until: u64,
) -> (allowance: ComputeEnergyAllowance)
    ensures
        allowance == (ComputeEnergyAllowance {
            max_flops: clamped_amount(max_flops),
            max_energy_kwh: clamped_amount(max_energy_kwh),
            max_carbon_kg: clamped_amount(max_carbon_kg),
            max_tier: stored_tier(max_tier),
            valid_until,
        }),
{
    ComputeEnergyAllowance {
        max_flops: Amount::clamped_from_binary64_bits(max_flops),
        max_energy_kwh: Amount::clamped_from_binary64_bits(max_energy_kwh),
        max_carbon_kg: Amount::clamped_from_binary64_bits(max_carbon_kg),
        max_tier: tier_from_i16(max_tier),
        valid_until,
    }
}

/// The usage held by a row of the usage relation. The three figures are given
/// by the bits of their binary64 columns and are clamped into amounts.
pub fn usage_from_columns(
    window_id: String,
    flops_used: u64,
    energy_kwh_used: u64,
    carbon_kg_emitted: u64,
) -> (usage: UsageSnapshot)
    ensures
        usage == (UsageSnapshot {
            window_id: UsageWindowId(window_id),
            flops_used: clamped_amount(flops_used),
            energy_kwh_used: clamped_amount(energy_kwh_used),
            carbon_kg_emitted: clamped_amount(carbon_kg_emitted),
        }),
{
    UsageSnapshot {
        window_id: UsageWindowId(window_id),
        flops_used: Amount::clamped_from_binary64_bits(flops_used),
        energy_kwh_used: Amount::clamped_from_binary64_bits(energy_kwh_used),
        carbon_kg_emitted: Amount::clamped_from_binary64_bits(carbon_kg_emitted),
    }
}

} // verus!
