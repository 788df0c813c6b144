use eco_orchestrator::amount::Amount;
use eco_orchestrator::ledger::Ledger;
use eco_orchestrator::quota::{QuotaError, QuotaService, QuotaStore, StoreUnavailable};
use eco_orchestrator::types::{
    ActorId, CapabilityTier, ComputeEnergyAllowance, EcologicalJobSpec, ReservationId,
    UsageSnapshot, UsageWindowId,
};
use std::sync::Mutex;

fn allowance() -> ComputeEnergyAllowance {
    ComputeEnergyAllowance {
        max_flops: Amount::from_units(1_000),
        max_energy_kwh: Amount::from_units(100),
        max_carbon_kg: Amount::from_units(10),
        max_tier: CapabilityTier::Tier2,
        valid_until: 0,
    }
}

fn usage(flops: u64, energy: u64, carbon: u64) -> UsageSnapshot {
    UsageSnapshot {
        window_id: UsageWindowId("w".to_string()),
        flops_used: Amount::from_units(flops),
        energy_kwh_used: Amount::from_units(energy),
        carbon_kg_emitted: Amount::from_units(carbon),
    }
}

fn units(n: u64) -> Amount {
    Amount::from_units(n)
}

fn within(ledger: &Ledger) -> bool {
    let a = ledger.get_allowance();
    let u = ledger.get_usage();
    u.flops_used <= a.max_flops
        && u.energy_kwh_used <= a.max_energy_kwh
        && u.carbon_kg_emitted <= a.max_carbon_kg
}

#[test]
fn ledger_opens_on_usage_within_the_allowance() {
    let ledger = Ledger::open(allowance(), usage(10, 20, 3)).unwrap();
    assert_eq!(ledger.get_allowance(), allowance());
    assert_eq!(ledger.get_usage(), usage(10, 20, 3));
    assert!(Ledger::open(allowance(), usage(1_000, 100, 10)).is_some());
    assert!(Ledger::open(allowance(), usage(1_001, 0, 0)).is_none());
    assert!(Ledger::open(allowance(), usage(0, 101, 0)).is_none());
    assert!(Ledger::open(allowance(), usage(0, 0, 11)).is_none());
}

#[test]
fn second_reservation_that_would_over_commit_is_refused() {
    let mut ledger = Ledger::open(allowance(), usage(0, 0, 0)).unwrap();
    let tier = CapabilityTier::Tier2;
    assert_eq!(ledger.try_reserve(&tier, units(1), units(60), units(1)), Ok(()));
    assert_eq!(ledger.get_usage(), usage(1, 60, 1));
    assert_eq!(
        ledger.try_reserve(&tier, units(1), units(60), units(1)),
        Err(QuotaError::EnergyExceeded)
    );
    assert_eq!(ledger.get_usage(), usage(1, 60, 1));
    assert_eq!(ledger.try_reserve(&tier, units(1), units(40), units(1)), Ok(()));
    assert_eq!(ledger.get_usage(), usage(2, 100, 2));
    assert_eq!(
        ledger.try_reserve(&tier, Amount::zero(), Amount::from_micros(1), Amount::zero()),
        Err(QuotaError::EnergyExceeded)
    );
    assert_eq!(ledger.try_reserve(&tier, units(998), Amount::zero(), units(8)), Ok(()));
    assert_eq!(ledger.get_usage(), usage(1_000, 100, 10));
    assert_eq!(ledger.try_reserve(&tier, Amount::zero(), Amount::zero(), Amount::zero()), Ok(()));
}

#[test]
fn refusal_names_the_first_axis_and_changes_nothing() {
    let mut ledger = Ledger::open(allowance(), usage(900, 90, 9)).unwrap();
    let before = ledger.get_usage();
    assert_eq!(
        ledger.try_reserve(&CapabilityTier::Tier3, units(1), units(1), units(1)),
        Err(QuotaError::TierExceeded)
    );
    assert_eq!(
        ledger.try_reserve(&CapabilityTier::Tier1, units(101), units(11), units(2)),
        Err(QuotaError::FlopsExceeded)
    );
    assert_eq!(
        ledger.try_reserve(&CapabilityTier::Tier1, units(100), units(11), units(2)),
        Err(QuotaError::EnergyExceeded)
    );
    assert_eq!(
        ledger.try_reserve(&CapabilityTier::Tier1, units(100), units(10), units(2)),
        Err(QuotaError::CarbonExceeded)
    );
    assert_eq!(ledger.get_usage(), before);
    assert_eq!(ledger.get_allowance(), allowance());
}

#[test]
fn no_sequence_of_demands_exceeds_the_allowance() {
    let mut ledger = Ledger::open(allowance(), usage(100, 10, 1)).unwrap();
    let mut seed: u64 = 0x9e37_79b9_7f4a_7c15;
    let mut admitted = 0;
    for _ in 0..2_000 {
        seed = seed.wrapping_mul(6364136223846793005).wrapping_add(1442695040888963407);
        let flops = (seed >> 8) % 300;
        let energy = (seed >> 24) % 40;
        let carbon = (seed >> 40) % 5;
        let tier = match (seed >> 56) % 3 {
            0 => CapabilityTier::Tier1,
            1 => CapabilityTier::Tier2,
            _ => CapabilityTier::Tier3,
        };
        if ledger.try_reserve(&tier, units(flops), units(energy), units(carbon)).is_ok() {
            admitted += 1;
        }
        assert!(within(&ledger));
    }
    assert!(admitted > 0);
}

/// A store for one key that serialises reservations behind a lock.
struct SerialStore {
    ledger: Mutex<Ledger>,
    issued: Mutex<u128>,
}

impl QuotaStore for SerialStore {
    fn get_allowance(
        &self,
        _actor: &ActorId,
        _window: &UsageWindowId,
    ) -> Result<ComputeEnergyAllowance, StoreUnavailable> {
        Ok(self.ledger.lock().unwrap().get_allowance())
    }

    fn get_usage(
        &self,
        _actor: &ActorId,
        _window: &UsageWindowId,
    ) -> Result<UsageSnapshot, StoreUnavailable> {
        Ok(self.ledger.lock().unwrap().get_usage())
    }

    fn reserve_quota(
        &self,
        _actor: &ActorId,
        _window: &UsageWindowId,
        expected_flops: Amount,
        expected_energy_kwh: Amount,
        expected_carbon_kg: Amount,
        tier: &CapabilityTier,
    ) -> Result<ReservationId, StoreUnavailable> {
        let mut ledger = self.ledger.lock().unwrap();
        match ledger.try_reserve(tier, expected_flops, expected_energy_kwh, expected_carbon_kg) {
            Ok(()) => {
                let mut issued = self.issued.lock().unwrap();
                *issued += 1;
                Ok(ReservationId(uuid::Uuid::from_u128(*issued)))
            }
            Err(_) => Err(StoreUnavailable),
        }
    }
}

fn job(flops: u64) -> EcologicalJobSpec {
    EcologicalJobSpec {
        actor_id: ActorId("did:example:alice".to_string()),
        segment_hint: None,
        requested_tier: CapabilityTier::Tier2,
        expected_flops: units(flops),
        max_duration: 60,
        purpose: "p".to_string(),
        domain_tags: vec![],
    }
}

#[test]
fn active_reservation_counts_against_the_next_one() {
    let store = SerialStore {
        ledger: Mutex::new(Ledger::open(allowance(), usage(0, 0, 0)).unwrap()),
        issued: Mutex::new(0),
    };
    let service = QuotaService::new(store);
    let actor = ActorId("did:example:alice".to_string());
    let window = UsageWindowId("w".to_string());
    assert_eq!(
        service.check_and_reserve(&actor, &window, &job(1), units(60), units(1)),
        Ok(ReservationId(uuid::Uuid::from_u128(1)))
    );
    assert_eq!(
        service.check_and_reserve(&actor, &window, &job(1), units(60), units(1)),
        Err(QuotaError::EnergyExceeded)
    );
    assert_eq!(
        service.check_and_reserve(&actor, &window, &job(1), units(40), units(1)),
        Ok(ReservationId(uuid::Uuid::from_u128(2)))
    );
    assert_eq!(
        service.check_and_reserve(&actor, &window, &job(999), units(0), units(1)),
        Err(QuotaError::FlopsExceeded)
    );
}
