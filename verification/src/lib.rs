//! Admission control and planning for a shared compute fabric that is governed
//! by ecological and ethical constraints.
//!
//! An actor submits a job specification; the orchestrator resolves who is
//! asking and where they belong, asks policy what the job may be, reserves the
//! job's share of the actor's budget, asks the grid what it will carry, and
//! answers with an execution plan or a denial. Every decision in that pipeline
//! is a verified function of plain values; the collaborators that reach outside
//! the process are traits for the embedding program to implement.
//!
//! Each collaborator trait carries a relation that says which answers it may
//! give to which question. The functions that call a collaborator state their
//! own result over that relation: what they hand over, and how the result
//! follows from what was answered. An implementation that states nothing of
//! its answers leaves the relation as it is and promises nothing.
//!
//! Quantities that are real numbers in the domain (work, energy, carbon,
//! percentages, scores) are held in fixed point, see [`amount::Amount`].
pub mod admission;
pub mod amount;
pub mod api;
pub mod binary64;
pub mod energy;
pub mod eol;
pub mod identity;
pub mod ledger;
pub mod logging;
pub mod metrics_client;
pub mod policy;
pub mod quota;
pub mod routing;
pub mod storage;
pub mod text;
pub mod trail;
pub mod types;
