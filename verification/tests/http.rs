use eco_orchestrator::amount::Amount;
use eco_orchestrator::api::http::{handle_plan_job, PlanJobFailure, PlanJobRequest, PlanJobResponse};
use eco_orchestrator::energy::{SegmentTelemetry, StabilityGuard, TelemetryUnavailable};
use eco_orchestrator::eol::identity::StaticZoneResolver;
use eco_orchestrator::identity::{ActorProfile, AuthError, IdentityResolver};
use eco_orchestrator::logging::{EcologicalLogEvent, ImmutableLogger, LogUnavailable};
use eco_orchestrator::policy::SimplePolicyEngine;
use eco_orchestrator::quota::{QuotaStore, StoreUnavailable};
use eco_orchestrator::admission::PlanError;
use eco_orchestrator::routing::EcologicalOrchestrator;
use eco_orchestrator::storage::quota_pg::{allowance_from_columns, tier_from_i16, usage_from_columns};
use eco_orchestrator::types::{
    ActorId, CapabilityTier, ComputeEnergyAllowance, EcologicalJobSpec, JobExecutionPlan,
    ReservationId, SegmentId, SegmentLoad, StabilityDecision, UsageSnapshot, UsageWindowId,
};

struct AnyToken;

impl IdentityResolver for AnyToken {
    fn resolve_actor(&self, session_token: &str) -> Result<ActorProfile, AuthError> {
        if session_token.is_empty() {
            return Err(AuthError::Unauthenticated);
        }
        Ok(ActorProfile {
            actor_id: ActorId(format!("did:example:{}", session_token)),
            roles: vec![],
            clearance_level: 1,
            ecological_priority_score: Amount::zero(),
        })
    }
}

struct Columns;

impl QuotaStore for Columns {
    fn get_allowance(
        &self,
        _actor: &ActorId,
        _window: &UsageWindowId,
    ) -> Result<ComputeEnergyAllowance, StoreUnavailable> {
        Ok(allowance_from_columns(1e15f64.to_bits(), 100.0f64.to_bits(), 10.0f64.to_bits(), 3, 1_800_000_000))
    }

    fn get_usage(
        &self,
        _actor: &ActorId,
        window: &UsageWindowId,
    ) -> Result<UsageSnapshot, StoreUnavailable> {
        Ok(usage_from_columns(window.0.clone(), 0.0f64.to_bits(), 0.0f64.to_bits(), 9.0f64.to_bits()))
    }

    fn reserve_quota(
        &self,
        _actor: &ActorId,
        _window: &UsageWindowId,
        _expected_flops: Amount,
        _expected_energy_kwh: Amount,
        _expected_carbon_kg: Amount,
        _tier: &CapabilityTier,
    ) -> Result<ReservationId, StoreUnavailable> {
        Ok(ReservationId(uuid::Uuid::from_u128(1)))
    }
}

struct Calm;

impl SegmentTelemetry for Calm {
    fn get_segment_load(&self, segment_id: &SegmentId) -> Result<SegmentLoad, TelemetryUnavailable> {
        Ok(SegmentLoad {
            segment_id: segment_id.clone(),
            current_flops: Amount::zero(),
            energy_rate_kw: Amount::zero(),
            thermal_margin_pct: Amount::from_units(40),
            renewable_share_pct: Amount::from_units(80),
        })
    }
}

struct Silent;

impl ImmutableLogger for Silent {
    fn append(&self, _event: &EcologicalLogEvent) -> Result<(), LogUnavailable> {
        Ok(())
    }
}

fn orchestrator(
) -> EcologicalOrchestrator<AnyToken, StaticZoneResolver, Columns, Calm, SimplePolicyEngine, Silent> {
    EcologicalOrchestrator::new(
        AnyToken,
        StaticZoneResolver,
        Columns,
        StabilityGuard::new(Calm, Amount::from_units(20), Amount::from_units(50)),
        SimplePolicyEngine,
        Silent,
    )
}

fn request(token: &str, carbon: f64) -> PlanJobRequest {
    PlanJobRequest {
        session_token: token.to_string(),
        window_id: "2026-02-08T00Z_daily".to_string(),
        job: EcologicalJobSpec {
            actor_id: ActorId("did:example:alice".to_string()),
            segment_hint: None,
            requested_tier: CapabilityTier::Tier2,
            expected_flops: Amount::from_binary64_bits(5e14f64.to_bits()).unwrap(),
            max_duration: 3600,
            purpose: "watershed model".to_string(),
            domain_tags: vec!["climate".to_string()],
        },
        expected_energy_kwh: Amount::from_binary64_bits(40.0f64.to_bits()).unwrap(),
        expected_carbon_kg: Amount::from_binary64_bits(carbon.to_bits()).unwrap(),
    }
}

#[test]
fn admitted_submission_answers_with_the_plan() {
    assert_eq!(
        handle_plan_job(&orchestrator(), request("alice", 1.0)),
        Ok(PlanJobResponse {
            plan: JobExecutionPlan {
                reservation_id: ReservationId(uuid::Uuid::from_u128(1)),
                approved_segment: SegmentId("segment_general_research".to_string()),
                approved_tier: CapabilityTier::Tier2,
                stability_decision: StabilityDecision::Proceed,
            }
        })
    );
}

#[test]
fn refused_submission_answers_with_kind_status_and_text() {
    assert_eq!(
        handle_plan_job(&orchestrator(), request("alice", 2.0)),
        Err(PlanJobFailure {
            status: 409,
            kind: PlanError::CarbonExceeded,
            message: "carbon allowance exceeded".to_string(),
        })
    );
    assert_eq!(
        handle_plan_job(&orchestrator(), request("", 1.0)),
        Err(PlanJobFailure {
            status: 401,
            kind: PlanError::Unauthenticated,
            message: "session token is unknown or has expired".to_string(),
        })
    );
}

#[test]
fn every_kind_has_its_status_and_text() {
    let table = [
        (PlanError::Unauthenticated, 401, "session token is unknown or has expired"),
        (PlanError::ZoneUnavailable, 503, "zone resolution is unavailable"),
        (PlanError::TierForbidden, 403, "requested tier not allowed by policy"),
        (PlanError::TierExceeded, 409, "requested tier exceeds maximum allowed tier"),
        (PlanError::FlopsExceeded, 409, "FLOPs allowance exceeded"),
        (PlanError::EnergyExceeded, 409, "energy allowance exceeded"),
        (PlanError::CarbonExceeded, 409, "carbon allowance exceeded"),
        (PlanError::QuotaStoreUnavailable, 503, "quota store is unavailable"),
        (PlanError::TelemetryUnavailable, 503, "segment telemetry is unavailable"),
        (PlanError::Internal, 500, "internal error"),
    ];
    for (kind, status, text) in table {
        assert_eq!(kind.status_code(), status);
        assert_eq!(kind.message(), text);
        assert_eq!(
            PlanJobFailure::of(kind),
            PlanJobFailure { status, kind, message: text.to_string() }
        );
    }
}

#[test]
fn stored_tiers_fall_back_to_the_lowest() {
    assert_eq!(tier_from_i16(1), CapabilityTier::Tier1);
    assert_eq!(tier_from_i16(2), CapabilityTier::Tier2);
    assert_eq!(tier_from_i16(3), CapabilityTier::Tier3);
    for other in [0, 4, -1, i16::MIN, i16::MAX] {
        assert_eq!(tier_from_i16(other), CapabilityTier::Tier1);
    }
}

#[test]
fn stored_columns_are_read_into_amounts() {
    assert_eq!(
        allowance_from_columns(1e15f64.to_bits(), 100.0f64.to_bits(), 10.5f64.to_bits(), 2, 77),
        ComputeEnergyAllowance {
            max_flops: Amount::from_units(1_000_000_000_000_000),
            max_energy_kwh: Amount::from_units(100),
            max_carbon_kg: Amount { micros: 10_500_000 },
            max_tier: CapabilityTier::Tier2,
            valid_until: 77,
        }
    );
    assert_eq!(
        usage_from_columns("w".to_string(), 3.0f64.to_bits(), (-2.0f64).to_bits(), f64::NAN.to_bits()),
        UsageSnapshot {
            window_id: UsageWindowId("w".to_string()),
            flops_used: Amount::from_units(3),
            energy_kwh_used: Amount::zero(),
            carbon_kg_emitted: Amount { micros: u128::MAX },
        }
    );
}
