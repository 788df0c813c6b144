//! Who is asking, and where on the fabric they belong.
use crate::amount::Amount;
use crate::types::{ActorId, SegmentId};
use vstd::prelude::*;

verus! {

/// The authenticated principal: identifier, roles, clearance and a score of
/// public benefit (higher is more). Fixed for the duration of a request.
#[derive(Clone, Debug, PartialEq, Eq)]
pub struct ActorProfile {
    pub actor_id: ActorId,
    pub roles: Vec<String>,
    pub clearance_level: u8,
    pub ecological_priority_score: Amount,
}

/// The segment an actor's jobs run on, and how far the actor is trusted there.
#[derive(Clone, Debug, PartialEq, Eq)]
pub struct ZoneResolution {
    pub segment_id: SegmentId,
    pub trust_level: u8,
}

/// Why a session token did not resolve to an actor.
#[derive(Clone, Copy, Debug, PartialEq, Eq, Structural)]
pub enum AuthError {
    /// The token is unknown or has expired.
    Unauthenticated,
    /// Resolution is unavailable.
    Upstream,
}

/// No zone could be resolved.
#[derive(Clone, Copy, Debug, PartialEq, Eq, Structural)]
pub struct ZoneUnavailable;

/// Resolves a session token to the actor behind it. An implementation answers
/// the same for a token as long as the token lives, and changes nothing.
///
/// The relation says which answers the resolver may give to which token. A
/// resolver that states nothing leaves it as it is; whoever asks the resolver
/// states its own result over it.
pub trait IdentityResolver: Send + Sync {
    /// Whether `answer` is one that this resolver may give for
    /// `session_token`.
    open spec fn may_resolve(
        &self,
        session_token: Seq<char>,
        answer: Result<ActorProfile, AuthError>,
    ) -> bool {
        true
    }

    fn resolve_actor(&self, session_token: &str) -> (answer: Result<ActorProfile, AuthError>)
        ensures
            self.may_resolve(session_token@, answer),
    ;
}

/// Resolves an actor to a fabric segment. An implementation answers by the
/// actor's roles and clearance alone.
///
/// The relation says which answers the resolver may give for which actor.
pub trait ZoneResolver: Send + Sync {
    /// Whether `answer` is one that this resolver may give for `actor`.
    open spec fn may_place(
        &self,
        actor: ActorProfile,
        answer: Result<ZoneResolution, ZoneUnavailable>,
    ) -> bool {
        true
    }

    fn resolve_zone(&self, actor: &ActorProfile) -> (answer: Result<
        ZoneResolution,
        ZoneUnavailable,
    >)
        ensures
            self.may_place(*actor, answer),
    ;
}

} // verus!
