//! The one operation a caller has, `plan_job`, as request and response, and
//! the mapping of a refusal to what a transport reports.
use crate::amount::Amount;
use crate::energy::SegmentTelemetry;
use crate::identity::{IdentityResolver, ZoneResolver};
use crate::logging::ImmutableLogger;
use crate::policy::PolicyEngine;
use crate::quota::QuotaStore;
use crate::admission::{PlanError, PlanRequest};
use crate::routing::EcologicalOrchestrator;
use crate::types::{EcologicalJobSpec, JobExecutionPlan, UsageWindowId};
use vstd::prelude::*;

verus! {

/// A submission as it arrives.
#[derive(Clone, Debug, PartialEq, Eq)]
pub struct PlanJobRequest {
    pub session_token: String,
    pub window_id: String,
    pub job: EcologicalJobSpec,
    pub expected_energy_kwh: Amount,
    pub expected_carbon_kg: Amount,
}

/// The answer to an admitted submission.
#[derive(Clone, Debug, PartialEq, Eq)]
pub struct PlanJobResponse {
    pub plan: JobExecutionPlan,
}

/// The answer to a refused submission: the status to report, the kind of the
/// refusal, and a text for a human reader.
#[derive(Clone, Debug, PartialEq, Eq)]
pub struct PlanJobFailure {
    pub status: u16,
    pub kind: PlanError,
    pub message: String,
}

impl PlanJobFailure {
    /// Status and text are those of the kind.
    pub open spec fn describes(&self, kind: PlanError) -> bool {
        &&& self.kind == kind
        &&& self.status == kind.status()
        &&& self.message@ == kind.text()
    }

    /// The failure that reports `kind`.
    pub fn of(kind: PlanError) -> (failure: PlanJobFailure)
        ensures
            failure.describes(kind),
    {
        PlanJobFailure { status: kind.status_code(), kind, message: kind.message() }
    }
}

/// The request that the orchestrator is given for a submission: the window
/// id as it came, the job and the two expected amounts unchanged.
pub open spec fn plan_request_of(req: PlanJobRequest) -> PlanRequest {
    PlanRequest {
        window_id: UsageWindowId(req.window_id),
        job: req.job,
        expected_energy_kwh: req.expected_energy_kwh,
        expected_carbon_kg: req.expected_carbon_kg,
    }
}

/// The answer that goes with an outcome of planning: the response that holds
/// the plan, or a failure that reports the refusal's kind.
pub open spec fn answers_outcome(
    outcome: Result<JobExecutionPlan, PlanError>,
    r: Result<PlanJobResponse, PlanJobFailure>,
) -> bool {
    match outcome {
        Ok(plan) => r == Ok::<PlanJobResponse, PlanJobFailure>(PlanJobResponse { plan }),
        Err(kind) => r matches Err(failure) && failure.describes(kind),
    }
}

/// Serves one submission: plans the job and answers with the plan, or with the
/// failure that reports the refusal's kind.
///
/// The answer goes with an outcome that the orchestrator may give for this
/// very request under the submitted token.
pub fn handle_plan_job<I, Z, Q, T, P, L>(
    orchestrator: &EcologicalOrchestrator<I, Z, Q, T, P, L>,
    req: PlanJobRequest,
) -> (r: Result<PlanJobResponse, PlanJobFailure>) where
    I: IdentityResolver,
    Z: ZoneResolver,
    Q: QuotaStore,
    T: SegmentTelemetry,
    P: PolicyEngine,
    L: ImmutableLogger,

    ensures
        exists|outcome: Result<JobExecutionPlan, PlanError>|
            #[trigger] orchestrator.may_plan(req.session_token@, plan_request_of(req), outcome)
                && answers_outcome(outcome, r),
        r matches Ok(response) ==> {
            &&& orchestrator.stability_guard().can_answer(
                req.job.requested_tier,
                response.plan.stability_decision.deep_view(),
            )
            &&& response.plan.approved_tier == response.plan.stability_decision.tier_after(
                req.job.requested_tier,
            )
            &&& response.plan.approved_tier.rank() <= req.job.requested_tier.rank()
        },
        r matches Err(failure) ==> failure.describes(failure.kind),
{
    let window = UsageWindowId(req.window_id);
    let outcome = orchestrator.plan_job(
        req.session_token.as_str(),
        window,
        req.job,
        req.expected_energy_kwh,
        req.expected_carbon_kg,
    );
    assert(orchestrator.may_plan(req.session_token@, plan_request_of(req), outcome));
    match outcome {
        Ok(plan) => Ok(PlanJobResponse { plan }),
        Err(kind) => Err(PlanJobFailure::of(kind)),
    }
}

} // verus!
