//! Ready-made resolvers: the mapping of an identity service's answer to an
//! actor profile, and a zone resolver with a fixed table.
use crate::amount::Amount;
use crate::binary64::clamped_amount;
use crate::identity::{ActorProfile, AuthError, ZoneResolution, ZoneResolver, ZoneUnavailable};
use crate::text::contains_text;
use crate::types::{ActorId, SegmentId};
use vstd::prelude::*;
use vstd::string::StringExecFns;

verus! {

/// `serde_json::Value`, a parsed JSON document. What it holds is read through
/// the four wrappers below.
#[verifier::external_type_specification]
#[verifier::external_body]
pub struct ExJsonValue(serde_json::Value);

/// The member that a JSON value has under `key`, if the value is an object
/// with such a key.
pub uninterp spec fn json_member(value: serde_json::Value, key: Seq<char>) -> Option<
    serde_json::Value,
>;

/// The text of a JSON value, if the value is a string.
pub uninterp spec fn json_text(value: serde_json::Value) -> Option<Seq<char>>;

/// The number of a JSON value, if the value is an integer that is not
/// negative and fits 64 bits.
pub uninterp spec fn json_unsigned(value: serde_json::Value) -> Option<u64>;

/// The bits of the binary64 number nearest to a JSON value, if the value is a
/// number.
pub uninterp spec fn json_number_bits(value: serde_json::Value) -> Option<u64>;

/// Calls `serde_json::Value::get` with a string index: the member under
/// `key` of an object, `None` for a missing key and for a value that is no
/// object.
#[verifier::external_body]
fn member<'a>(value: &'a serde_json::Value, key: &str) -> (r: Option<&'a serde_json::Value>)
    ensures
        r == (match json_member(*value, key@) {
            Some(found) => Some(&found),
            None => None,
        }),
{
    value.get(key)
}

/// Calls `serde_json::Value::as_str` and copies the text: `Some` for a string,
/// `None` for any other value.
#[verifier::external_body]
fn text_of(value: &serde_json::Value) -> (r: Option<String>)
    ensures
        r.deep_view() == json_text(*value),
{
    value.as_str().map(|s| s.to_string())
}

/// Calls `serde_json::Value::as_u64`: `Some` for an integer that is not
/// negative, `None` for any other value.
#[verifier::external_body]
fn unsigned_of(value: &serde_json::Value) -> (r: Option<u64>)
    ensures
        r == json_unsigned(*value),
{
    value.as_u64()
}

/// Calls `serde_json::Value::as_f64` and hands the number over by its bits:
/// `Some` for a number, `None` for any other value.
#[verifier::external_body]
fn number_bits_of(value: &serde_json::Value) -> (r: Option<u64>)
    ensures
        r == json_number_bits(*value),
{
    value.as_f64().map(|x| x.to_bits())
}

/// The text under `key`, if the value has a string there.
pub open spec fn text_under(value: serde_json::Value, key: Seq<char>) -> Option<Seq<char>> {
    match json_member(value, key) {
        Some(found) => json_text(found),
        None => None,
    }
}

/// The integer under `key`, if the value has one there that is not negative.
pub open spec fn unsigned_under(value: serde_json::Value, key: Seq<char>) -> Option<u64> {
    match json_member(value, key) {
        Some(found) => json_unsigned(found),
        None => None,
    }
}

/// The bits of the number under `key`, if the value has a number there.
pub open spec fn number_bits_under(value: serde_json::Value, key: Seq<char>) -> Option<u64> {
    match json_member(value, key) {
        Some(found) => json_number_bits(found),
        None => None,
    }
}

/// The clearance level for the number an identity service gave: the number's
/// low eight bits, or 1 where it gave none.
pub open spec fn clearance_of(given: Option<u64>) -> u8 {
    match given {
        Some(n) => (n % 256) as u8,
        None => 1,
    }
}

/// The priority score for the number an identity service gave: the number
/// clamped into an amount, or one half where it gave none.
pub open spec fn priority_of(given: Option<u64>) -> Amount {
    match given {
        Some(bits) => clamped_amount(bits),
        None => Amount { micros: 500_000 },
    }
}

/// The profile for the three fields of an identity service's answer. A
/// missing identifier is empty; every actor is a researcher.
pub fn actor_profile_from_fields(
    actor_id: Option<String>,
    clearance: Option<u64>,
    eco_priority: Option<u64>,
) -> (profile: ActorProfile)
    ensures
        profile.actor_id@ == (match actor_id {
            Some(id) => id@,
            None => Seq::<char>::empty(),
        }),
        profile.roles.deep_view() == seq!["researcher"@],
        profile.clearance_level == clearance_of(clearance),
        profile.ecological_priority_score == priority_of(eco_priority),
{
    let id = match actor_id {
        Some(id) => id,
        None => String::new(),
    };
    let mut roles: Vec<String> = Vec::new();
    roles.push("researcher".to_string());
    let clearance_level: u8 = match clearance {
        Some(n) => (n % 256) as u8,
        None => 1,
    };
    let score = match eco_priority {
        Some(bits) => Amount::clamped_from_binary64_bits(bits),
        None => Amount::from_micros(500_000),
    };
    assert(roles.deep_view() =~= seq!["researcher"@]);
    ActorProfile {
        actor_id: ActorId(id),
        roles,
        clearance_level,
        ecological_priority_score: score,
    }
}

/// Whether `profile` is the one read from an identity service's document: its
/// members `actor_id`, `clearance` and `eco_priority`, with the defaults of
/// [`actor_profile_from_fields`] for what is missing. A member of another type
/// than expected counts as missing.
pub open spec fn profile_reads(profile: ActorProfile, resp: serde_json::Value) -> bool {
    &&& profile.actor_id@ == (match text_under(resp, "actor_id"@) {
        Some(id) => id,
        None => Seq::<char>::empty(),
    })
    &&& profile.roles.deep_view() == seq!["researcher"@]
    &&& profile.clearance_level == clearance_of(unsigned_under(resp, "clearance"@))
    &&& profile.ecological_priority_score == priority_of(number_bits_under(resp, "eco_priority"@))
}

/// The profile for an identity service's document, see [`profile_reads`].
pub fn actor_profile_from_json(resp: &serde_json::Value) -> (profile: ActorProfile)
    ensures
        profile_reads(profile, *resp),
{
    let actor_id = match member(resp, "actor_id") {
        Some(found) => text_of(found),
        None => None,
    };
    let clearance = match member(resp, "clearance") {
        Some(found) => unsigned_of(found),
        None => None,
    };
    let eco_priority = match member(resp, "eco_priority") {
        Some(found) => number_bits_of(found),
        None => None,
    };
    actor_profile_from_fields(actor_id, clearance, eco_priority)
}

/// What the status of an identity service's answer says before its document
/// is read: 401, 403 and 404 say that the token is unknown or has expired; any
/// other status outside 200 to 299 says that resolution is unavailable; a
/// status within says nothing against the token.
pub open spec fn status_refusal(status: u16) -> Option<AuthError> {
    if status == 401 || status == 403 || status == 404 {
        Some(AuthError::Unauthenticated)
    } else if 200 <= status < 300 {
        None
    } else {
        Some(AuthError::Upstream)
    }
}

/// Computes [`status_refusal`].
pub fn refusal_of_status(status: u16) -> (r: Option<AuthError>)
    ensures
        r == status_refusal(status),
{
    if status == 401 || status == 403 || status == 404 {
        Some(AuthError::Unauthenticated)
    } else if 200 <= status && status < 300 {
        None
    } else {
        Some(AuthError::Upstream)
    }
}

/// The resolver's answer for an identity service's answer: the refusal that
/// the status gives, else the profile read from the document.
pub fn actor_from_answer(status: u16, document: &serde_json::Value) -> (r: Result<
    ActorProfile,
    AuthError,
>)
    ensures
        match status_refusal(status) {
            Some(refusal) => r == Err::<ActorProfile, AuthError>(refusal),
            None => r matches Ok(profile) && profile_reads(profile, *document),
        },
{
    match refusal_of_status(status) {
        Some(refusal) => Err(refusal),
        None => Ok(actor_profile_from_json(document)),
    }
}

/// The address at which an identity service resolves actors.
pub fn resolve_actor_url(base_url: &str) -> (url: String)
    ensures
        url@ == base_url@ + "/resolve_actor"@,
{
    String::from_str(base_url).concat("/resolve_actor")
}

/// The segment that [`StaticZoneResolver`] gives to an actor with these roles:
/// the climate cluster for climate labs, the general research segment for
/// everyone else.
pub open spec fn static_segment(roles: Seq<Seq<char>>) -> Seq<char> {
    if roles.contains("climate_lab"@) {
        "segment_climate_hpc"@
    } else {
        "segment_general_research"@
    }
}

/// The trust level that [`StaticZoneResolver`] gives to every actor.
pub const STATIC_TRUST_LEVEL: u8 = 3;

/// A resolver with a fixed mapping from roles to segments. An actor without a
/// mapped role lands on the default segment, so resolution never fails for
/// lack of a zone.
pub struct StaticZoneResolver;

impl ZoneResolver for StaticZoneResolver {
    /// The static resolver gives one answer for an actor: the segment of
    /// [`static_segment`] for its roles, at the fixed trust level.
    open spec fn may_place(
        &self,
        actor: ActorProfile,
        answer: Result<ZoneResolution, ZoneUnavailable>,
    ) -> bool {
        answer matches Ok(zone) && zone.segment_id@ == static_segment(actor.roles.deep_view())
            && zone.trust_level == STATIC_TRUST_LEVEL
    }

    fn resolve_zone(&self, actor: &ActorProfile) -> (r: Result<ZoneResolution, ZoneUnavailable>)
        ensures
            r matches Ok(zone) && zone.segment_id@ == static_segment(actor.roles.deep_view())
                && zone.trust_level == STATIC_TRUST_LEVEL,
    {
        let segment = if contains_text(&actor.roles, &"climate_lab".to_string()) {
            SegmentId("segment_climate_hpc".to_string())
        } else {
            SegmentId("segment_general_research".to_string())
        };
        Ok(ZoneResolution { segment_id: segment, trust_level: STATIC_TRUST_LEVEL })
    }
}

} // verus!
