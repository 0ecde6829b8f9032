//! The eligibility engine: a private ordinal of a member's profile is held
//! against a private threshold, and only a third-party verifier learns the
//! answer.

use vstd::prelude::*;
use crate::gateway::{decrypt, encrypt, opened, Ciphertext, GatewayError, KeyRef};

verus! {

/// A member's private profile, supplied fresh for each check.
#[derive(Clone, Copy, Debug, PartialEq, Eq, Structural)]
pub struct MemberProfile {
    pub member_id: u64,
    pub tier: u8,
    pub reputation: u8,
    pub active: bool,
}

/// An active member whose tier is at least `min_tier`.
pub open spec fn tier_eligible(profile: MemberProfile, min_tier: u8) -> bool {
    profile.tier >= min_tier && profile.active
}

/// An active member whose reputation is at least `min_reputation`.
pub open spec fn reputation_met(profile: MemberProfile, min_reputation: u8) -> bool {
    profile.reputation >= min_reputation && profile.active
}

/// Whether the member is active and of at least the required tier, sealed to
/// `verifier`.
///
/// Profile and threshold are each opened under the key they are bound to. The
/// only failure is an input that does not decode. The member's own key does
/// not open the answer unless it is the verifier's key.
pub fn verify_tier_eligibility(
    member: Ciphertext<MemberProfile>,
    required_tier: Ciphertext<u8>,
    verifier: KeyRef,
) -> (r: Result<Ciphertext<bool>, GatewayError>)
    ensures
        match (member.content(), required_tier.content()) {
            (Some(profile), Some(min_tier)) => r.is_ok() && r.unwrap().seals(
                tier_eligible(profile, min_tier),
                verifier,
            ),
            _ => r == Err::<Ciphertext<bool>, GatewayError>(GatewayError::MalformedCiphertext),
        },
        r.is_ok() && verifier != member.key() ==> opened(r.unwrap(), member.key()) == Err::<
            bool,
            GatewayError,
        >(GatewayError::KeyMismatch),
{
    let member_key = member.bound_key();
    let profile = match decrypt(&member, member_key) {
        Ok(p) => p,
        Err(e) => { return Err(e); },
    };
    let threshold_key = required_tier.bound_key();
    let min_tier = match decrypt(&required_tier, threshold_key) {
        Ok(t) => t,
        Err(e) => { return Err(e); },
    };
    let is_eligible = profile.tier >= min_tier && profile.active;
    Ok(encrypt(is_eligible, verifier))
}

/// Whether the member is active and of at least the required reputation,
/// sealed to `verifier`.
///
/// Profile and threshold are each opened under the key they are bound to. The
/// only failure is an input that does not decode. The member's own key does
/// not open the answer unless it is the verifier's key.
pub fn verify_reputation(
    member: Ciphertext<MemberProfile>,
    min_reputation: Ciphertext<u8>,
    verifier: KeyRef,
) -> (r: Result<Ciphertext<bool>, GatewayError>)
    ensures
        match (member.content(), min_reputation.content()) {
            (Some(profile), Some(min_rep)) => r.is_ok() && r.unwrap().seals(
                reputation_met(profile, min_rep),
                verifier,
            ),
            _ => r == Err::<Ciphertext<bool>, GatewayError>(GatewayError::MalformedCiphertext),
        },
        r.is_ok() && verifier != member.key() ==> opened(r.unwrap(), member.key()) == Err::<
            bool,
            GatewayError,
        >(GatewayError::KeyMismatch),
{
    let member_key = member.bound_key();
    let profile = match decrypt(&member, member_key) {
        Ok(p) => p,
        Err(e) => { return Err(e); },
    };
    let threshold_key = min_reputation.bound_key();
    let min_rep = match decrypt(&min_reputation, threshold_key) {
        Ok(t) => t,
        Err(e) => { return Err(e); },
    };
    let meets_req = profile.reputation >= min_rep && profile.active;
    Ok(encrypt(meets_req, verifier))
}

/// Eligibility is a step in the tier: for an active member and a fixed
/// threshold the answer is no below the threshold and yes from it upwards,
/// so it never falls as the tier rises.
pub proof fn lemma_tier_step(low: MemberProfile, high: MemberProfile, min_tier: u8)
    requires
        low.active,
        high.active,
        low.tier <= high.tier,
    ensures
        tier_eligible(low, min_tier) <==> low.tier >= min_tier,
        tier_eligible(low, min_tier) ==> tier_eligible(high, min_tier),
{
}

/// The same step in the reputation.
pub proof fn lemma_reputation_step(low: MemberProfile, high: MemberProfile, min_reputation: u8)
    requires
        low.active,
        high.active,
        low.reputation <= high.reputation,
    ensures
        reputation_met(low, min_reputation) <==> low.reputation >= min_reputation,
        reputation_met(low, min_reputation) ==> reputation_met(high, min_reputation),
{
}

/// An inactive member is never eligible, whatever the threshold.
pub proof fn lemma_inactive_never_eligible(profile: MemberProfile, threshold: u8)
    requires
        !profile.active,
    ensures
        !tier_eligible(profile, threshold),
        !reputation_met(profile, threshold),
{
}

} // verus!
