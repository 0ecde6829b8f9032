//! The coarse compatibility scorer: one interest category, overlapping age
//! ranges and shared intent.

use vstd::prelude::*;
use crate::gateway::{decrypt, encrypt, Ciphertext, GatewayError};

verus! {

/// One party's private preferences, in their short form.
#[derive(Clone, Copy, Debug, PartialEq, Eq, Structural)]
pub struct UserPreferences {
    pub interest_category: u8,
    pub age_min: u8,
    pub age_max: u8,
    pub looking_for: u8,
}

/// What each party learns of a match request.
#[derive(Clone, Copy, Debug, PartialEq, Eq, Structural)]
pub struct MatchResult {
    pub is_match: bool,
    pub compatibility_score: u8,
}

/// The two declared age ranges have an age in common.
pub open spec fn ranges_overlap(a: UserPreferences, b: UserPreferences) -> bool {
    a.age_min <= b.age_max && b.age_min <= a.age_max
}

/// The coarse score: 40 for the same interest category, 30 for overlapping
/// age ranges, 30 for the same intent.
pub open spec fn compatibility(a: UserPreferences, b: UserPreferences) -> int {
    (if a.interest_category == b.interest_category {
        40int
    } else {
        0int
    }) + (if ranges_overlap(a, b) {
        30int
    } else {
        0int
    }) + (if a.looking_for == b.looking_for {
        30int
    } else {
        0int
    })
}

/// Whether the coarse score reaches the match threshold of 60.
pub open spec fn is_match(a: UserPreferences, b: UserPreferences) -> bool {
    compatibility(a, b) >= 60
}

/// What both parties are told about the request.
pub open spec fn verdict(a: UserPreferences, b: UserPreferences) -> MatchResult {
    MatchResult { is_match: is_match(a, b), compatibility_score: compatibility(a, b) as u8 }
}

/// The coarse score of two plain preference records.
pub fn coarse_score(a: &UserPreferences, b: &UserPreferences) -> (score: u8)
    ensures
        score == compatibility(*a, *b),
        score <= 100,
{
    let mut score: u8 = 0;
    if a.interest_category == b.interest_category {
        score = score + 40;
    }
    let age_ok = a.age_min <= b.age_max && b.age_min <= a.age_max;
    if age_ok {
        score = score + 30;
    }
    if a.looking_for == b.looking_for {
        score = score + 30;
    }
    score
}

/// Scores two sealed preference records and tells each party the outcome.
///
/// Each record is opened under the key it is bound to, and each party's
/// result is sealed to the key its own record came under. Both results are
/// the same. The only failure is a record that does not decode.
pub fn check_match(user_a: Ciphertext<UserPreferences>, user_b: Ciphertext<UserPreferences>) -> (r:
    Result<(Ciphertext<MatchResult>, Ciphertext<MatchResult>), GatewayError>)
    ensures
        match (user_a.content(), user_b.content()) {
            (Some(a), Some(b)) => r.is_ok() && r.unwrap().0.seals(verdict(a, b), user_a.key())
                && r.unwrap().1.seals(verdict(b, a), user_b.key()),
            _ => r == Err::<(Ciphertext<MatchResult>, Ciphertext<MatchResult>), GatewayError>(
                GatewayError::MalformedCiphertext,
            ),
        },
{
    let owner_a = user_a.bound_key();
    let prefs_a = match decrypt(&user_a, owner_a) {
        Ok(p) => p,
        Err(e) => { return Err(e); },
    };
    let owner_b = user_b.bound_key();
    let prefs_b = match decrypt(&user_b, owner_b) {
        Ok(p) => p,
        Err(e) => { return Err(e); },
    };
    let score = coarse_score(&prefs_a, &prefs_b);
    let is_match = score >= 60;
    let result_a = MatchResult { is_match, compatibility_score: score };
    let result_b = MatchResult { is_match, compatibility_score: score };
    Ok((encrypt(result_a, owner_a), encrypt(result_b, owner_b)))
}

/// Symmetry: swapping the two records changes neither the score nor the
/// decision, so both parties are told the same.
pub proof fn lemma_compatibility_symmetric(a: UserPreferences, b: UserPreferences)
    ensures
        compatibility(a, b) == compatibility(b, a),
        is_match(a, b) == is_match(b, a),
        verdict(a, b) == verdict(b, a),
{
}

/// Boundedness: the score lies in 0..=100, and the decision is exactly
/// "score at least 60".
pub proof fn lemma_compatibility_bounded(a: UserPreferences, b: UserPreferences)
    ensures
        0 <= compatibility(a, b) <= 100,
        is_match(a, b) <==> compatibility(a, b) >= 60,
{
}

} // verus!
