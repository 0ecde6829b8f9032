//! The detailed compatibility scorer: interest overlap, mutual age fit and
//! shared intent, decided on two private profiles at once.

use vstd::prelude::*;
use crate::gateway::{decrypt, encrypt, Ciphertext, GatewayError, KeyRef};

verus! {

/// The number of interest slots in a profile.
pub const MAX_INTERESTS: usize = 10;

/// One party's private preference profile. An interest slot that holds 0 is
/// empty.
#[derive(Clone, Copy, Debug)]
pub struct UserPreferences {
    pub user_id: u64,
    pub interests: [u8; MAX_INTERESTS],
    pub age_min: u8,
    pub age_max: u8,
    pub user_age: u8,
    pub looking_for: u8,
    pub is_premium: bool,
}

/// What one party learns of a match request: the decision, the score, and who
/// the other party is.
#[derive(Clone, Copy, Debug, PartialEq, Eq, Structural)]
pub struct MatchResult {
    pub is_mutual_match: bool,
    pub compatibility_score: u8,
    pub matched_user_id: u64,
}

/// 1 if `x` is a non-empty slot value equal to `y`, else 0.
pub open spec fn hit(x: u8, y: u8) -> int {
    if x != 0 && x == y {
        1
    } else {
        0
    }
}

/// How many of the first `n` slots of `ys` hold the non-empty value `x`.
pub open spec fn hits_in(x: u8, ys: Seq<u8>, n: int) -> int
    decreases n,
{
    if n <= 0 {
        0
    } else {
        hits_in(x, ys, n - 1) + hit(x, ys[n - 1])
    }
}

/// How many ordered pairs `(i, j)` with `i < m` and `j < n` have `xs[i]`
/// non-empty and equal to `ys[j]`. Repeated values are counted each time.
pub open spec fn pairs_in(xs: Seq<u8>, ys: Seq<u8>, m: int, n: int) -> int
    decreases m,
{
    if m <= 0 {
        0
    } else {
        pairs_in(xs, ys, m - 1, n) + hits_in(xs[m - 1], ys, n)
    }
}

/// The number of overlapping slot pairs of two whole interest sets.
pub open spec fn overlap_pairs(xs: Seq<u8>, ys: Seq<u8>) -> int {
    pairs_in(xs, ys, xs.len() as int, ys.len() as int)
}

/// No non-empty value occurs in two slots.
pub open spec fn no_repeats(xs: Seq<u8>) -> bool {
    forall|i: int, j: int| 0 <= i < j < xs.len() && xs[i] != 0 ==> xs[i] != xs[j]
}

/// Each party's age lies within the range the other declared.
pub open spec fn ages_fit(a: UserPreferences, b: UserPreferences) -> bool {
    b.age_min <= a.user_age && a.user_age <= b.age_max && a.age_min <= b.user_age && b.user_age
        <= a.age_max
}

/// The detailed score: 5 for each overlapping slot pair, 20 for mutual age
/// fit, 10 for the same intent.
pub open spec fn compatibility(a: UserPreferences, b: UserPreferences) -> int {
    5 * overlap_pairs(a.interests@, b.interests@) + (if ages_fit(a, b) {
        20int
    } else {
        0int
    }) + (if a.looking_for == b.looking_for {
        10int
    } else {
        0int
    })
}

/// Whether the detailed score reaches the match threshold of 30.
pub open spec fn is_match(a: UserPreferences, b: UserPreferences) -> bool {
    compatibility(a, b) >= 30
}

/// What `a` is told about the request with `b`.
pub open spec fn verdict_for(a: UserPreferences, b: UserPreferences) -> MatchResult {
    MatchResult {
        is_mutual_match: is_match(a, b),
        compatibility_score: compatibility(a, b) as u8,
        matched_user_id: b.user_id,
    }
}

/// A value is hit at least zero and at most `n` times among `n` slots.
pub proof fn lemma_hits_range(x: u8, ys: Seq<u8>, n: int)
    ensures
        0 <= hits_in(x, ys, n),
        n >= 0 ==> hits_in(x, ys, n) <= n,
    decreases n,
{
    if n > 0 {
        lemma_hits_range(x, ys, n - 1);
    }
}

/// The number of pairs is never negative.
pub proof fn lemma_pairs_nonnegative(xs: Seq<u8>, ys: Seq<u8>, m: int, n: int)
    ensures
        0 <= pairs_in(xs, ys, m, n),
    decreases m,
{
    if m > 0 {
        lemma_pairs_nonnegative(xs, ys, m - 1, n);
        lemma_hits_range(xs[m - 1], ys, n);
    }
}

/// There are at most `m * n` pairs among `m` rows and `n` columns.
pub proof fn lemma_pairs_at_most_all(xs: Seq<u8>, ys: Seq<u8>, m: int, n: int)
    requires
        0 <= m,
        0 <= n,
    ensures
        pairs_in(xs, ys, m, n) <= m * n,
    decreases m,
{
    if m > 0 {
        lemma_pairs_at_most_all(xs, ys, m - 1, n);
        lemma_hits_range(xs[m - 1], ys, n);
        assert((m - 1) * n + n == m * n) by (nonlinear_arith);
    }
}

/// The count over `m` rows and `n` columns is the count over one column
/// fewer, plus the hits of the last column's value among the rows.
pub proof fn lemma_pairs_last_column(xs: Seq<u8>, ys: Seq<u8>, m: int, n: int)
    requires
        n > 0,
    ensures
        pairs_in(xs, ys, m, n) == pairs_in(xs, ys, m, n - 1) + hits_in(ys[n - 1], xs, m),
    decreases m,
{
    if m > 0 {
        lemma_pairs_last_column(xs, ys, m - 1, n);
    }
}

/// Without columns there are no pairs.
pub proof fn lemma_pairs_no_columns(xs: Seq<u8>, ys: Seq<u8>, m: int, n: int)
    requires
        n <= 0,
    ensures
        pairs_in(xs, ys, m, n) == 0,
    decreases m,
{
    if m > 0 {
        lemma_pairs_no_columns(xs, ys, m - 1, n);
    }
}

/// Counting the overlapping pairs from either side gives the same number.
pub proof fn lemma_pairs_symmetric(xs: Seq<u8>, ys: Seq<u8>, m: int, n: int)
    ensures
        pairs_in(xs, ys, m, n) == pairs_in(ys, xs, n, m),
    decreases n,
{
    if n <= 0 {
        lemma_pairs_no_columns(xs, ys, m, n);
    } else {
        lemma_pairs_last_column(xs, ys, m, n);
        lemma_pairs_symmetric(xs, ys, m, n - 1);
    }
}

/// In a set without repeats a value is hit at most once.
pub proof fn lemma_hits_at_most_one(x: u8, ys: Seq<u8>, n: int)
    requires
        no_repeats(ys),
        n <= ys.len(),
    ensures
        hits_in(x, ys, n) <= 1,
        hits_in(x, ys, n) == 1 ==> exists|k: int| 0 <= k < n && ys[k] == x && x != 0,
    decreases n,
{
    if n > 0 {
        lemma_hits_at_most_one(x, ys, n - 1);
        lemma_hits_range(x, ys, n - 1);
        if hit(x, ys[n - 1]) == 1 {
            if hits_in(x, ys, n - 1) == 1 {
                let k = choose|k: int| 0 <= k < n - 1 && ys[k] == x && x != 0;
                assert(ys[k] != ys[n - 1]);
            }
            assert(ys[n - 1] == x && x != 0);
        } else {
            if hits_in(x, ys, n - 1) == 1 {
                let k = choose|k: int| 0 <= k < n - 1 && ys[k] == x && x != 0;
                assert(0 <= k < n && ys[k] == x && x != 0);
            }
        }
    }
}

/// Against a set without repeats, each row adds at most one pair.
pub proof fn lemma_pairs_at_most_rows(xs: Seq<u8>, ys: Seq<u8>, m: int, n: int)
    requires
        no_repeats(ys),
        n <= ys.len(),
        0 <= m,
    ensures
        pairs_in(xs, ys, m, n) <= m,
    decreases m,
{
    if m > 0 {
        lemma_pairs_at_most_rows(xs, ys, m - 1, n);
        lemma_hits_at_most_one(xs[m - 1], ys, n);
    }
}

/// Symmetry: swapping the two profiles changes neither the score nor the
/// decision, so the two parties are told the same but for each other's name.
pub proof fn lemma_compatibility_symmetric(a: UserPreferences, b: UserPreferences)
    ensures
        compatibility(a, b) == compatibility(b, a),
        is_match(a, b) == is_match(b, a),
        verdict_for(a, b).compatibility_score == verdict_for(b, a).compatibility_score,
        verdict_for(a, b).is_mutual_match == verdict_for(b, a).is_mutual_match,
        verdict_for(a, b).matched_user_id == b.user_id,
        verdict_for(b, a).matched_user_id == a.user_id,
{
    lemma_pairs_symmetric(
        a.interests@,
        b.interests@,
        a.interests@.len() as int,
        b.interests@.len() as int,
    );
}

/// The score is never negative and never above 530, and the decision is
/// exactly "score at least 30".
pub proof fn lemma_compatibility_range(a: UserPreferences, b: UserPreferences)
    ensures
        0 <= compatibility(a, b) <= 530,
        is_match(a, b) <==> compatibility(a, b) >= 30,
{
    lemma_pairs_at_most_all(a.interests@, b.interests@, 10, 10);
    lemma_pairs_nonnegative(
        a.interests@,
        b.interests@,
        a.interests@.len() as int,
        b.interests@.len() as int,
    );
}

/// Boundedness: where at least one of the two interest sets holds no value
/// twice, the overlap is worth at most 50 and the score lies in 0..=80.
pub proof fn lemma_compatibility_bounded(a: UserPreferences, b: UserPreferences)
    requires
        no_repeats(a.interests@) || no_repeats(b.interests@),
    ensures
        0 <= compatibility(a, b) <= 80,
{
    let xs = a.interests@;
    let ys = b.interests@;
    lemma_compatibility_range(a, b);
    if no_repeats(ys) {
        lemma_pairs_at_most_rows(xs, ys, 10, 10);
    } else {
        lemma_pairs_symmetric(xs, ys, 10, 10);
        lemma_pairs_at_most_rows(ys, xs, 10, 10);
    }
}

/// Counts the overlapping slot pairs of two profiles' interest sets.
pub fn overlap_count(a: &UserPreferences, b: &UserPreferences) -> (count: u8)
    ensures
        count == overlap_pairs(a.interests@, b.interests@),
        count <= 100,
{
    let ghost xs = a.interests@;
    let ghost ys = b.interests@;
    let mut count: u8 = 0;
    let mut i: usize = 0;
    while i < MAX_INTERESTS
        invariant
            i <= 10,
            xs == a.interests@,
            ys == b.interests@,
            count == pairs_in(xs, ys, i as int, 10),
            count <= 10 * i,
        decreases 10 - i,
    {
        let mut j: usize = 0;
        while j < MAX_INTERESTS
            invariant
                j <= 10,
                i < 10,
                xs == a.interests@,
                ys == b.interests@,
                count == pairs_in(xs, ys, i as int, 10) + hits_in(xs[i as int], ys, j as int),
                count <= 10 * i + j,
            decreases 10 - j,
        {
            let both_have = a.interests[i] != 0 && a.interests[i] == b.interests[j];
            if both_have {
                count = count + 1;
            }
            j = j + 1;
        }
        i = i + 1;
    }
    count
}

/// Whether the detailed score of two plain profiles fits the byte that holds
/// it. It always does where one of the interest sets holds no value twice.
pub fn score_fits(a: &UserPreferences, b: &UserPreferences) -> (fits: bool)
    ensures
        fits == (compatibility(*a, *b) <= u8::MAX),
{
    let count = overlap_count(a, b);
    let mut total: u16 = 5 * (count as u16);
    if a.user_age >= b.age_min && a.user_age <= b.age_max && b.user_age >= a.age_min && b.user_age
        <= a.age_max {
        total = total + 20;
    }
    if a.looking_for == b.looking_for {
        total = total + 10;
    }
    total <= 255
}

/// The detailed score of two plain profiles.
///
/// The score is held in a byte, so the profiles must be such that it fits:
/// this can fail only where repeated interest values inflate the overlap.
pub fn detailed_score(a: &UserPreferences, b: &UserPreferences) -> (score: u8)
    requires
        compatibility(*a, *b) <= u8::MAX,
    ensures
        score == compatibility(*a, *b),
{
    let mut score: u8 = 5 * overlap_count(a, b);
    let a_age_ok = a.user_age >= b.age_min && a.user_age <= b.age_max;
    let b_age_ok = b.user_age >= a.age_min && b.user_age <= a.age_max;
    if a_age_ok && b_age_ok {
        score = score + 20;
    }
    let same_intent = a.looking_for == b.looking_for;
    if same_intent {
        score = score + 10;
    }
    score
}

/// Scores two sealed profiles and tells each party the outcome.
///
/// Each profile is opened under the key it is bound to. `user_a` receives the
/// result that names `b`, `user_b` the one that names `a`; both carry the same
/// score and decision. The only failure is a profile that does not decode.
pub fn check_match(
    prefs_a: Ciphertext<UserPreferences>,
    prefs_b: Ciphertext<UserPreferences>,
    user_a: KeyRef,
    user_b: KeyRef,
) -> (r: Result<(Ciphertext<MatchResult>, Ciphertext<MatchResult>), GatewayError>)
    requires
        prefs_a.content().is_some() && prefs_b.content().is_some() ==> compatibility(
            prefs_a.content().unwrap(),
            prefs_b.content().unwrap(),
        ) <= u8::MAX,
    ensures
        match (prefs_a.content(), prefs_b.content()) {
            (Some(a), Some(b)) => r.is_ok() && r.unwrap().0.seals(verdict_for(a, b), user_a)
                && r.unwrap().1.seals(verdict_for(b, a), user_b),
            _ => r == Err::<(Ciphertext<MatchResult>, Ciphertext<MatchResult>), GatewayError>(
                GatewayError::MalformedCiphertext,
            ),
        },
{
    let key_a = prefs_a.bound_key();
    let p_a = match decrypt(&prefs_a, key_a) {
        Ok(p) => p,
        Err(e) => { return Err(e); },
    };
    let key_b = prefs_b.bound_key();
    let p_b = match decrypt(&prefs_b, key_b) {
        Ok(p) => p,
        Err(e) => { return Err(e); },
    };
    let score = detailed_score(&p_a, &p_b);
    let is_match = score >= 30;
    proof {
        lemma_compatibility_symmetric(p_a, p_b);
    }
    let result_a = MatchResult {
        is_mutual_match: is_match,
        compatibility_score: score,
        matched_user_id: p_b.user_id,
    };
    let result_b = MatchResult {
        is_mutual_match: is_match,
        compatibility_score: score,
        matched_user_id: p_a.user_id,
    };
    Ok((encrypt(result_a, user_a), encrypt(result_b, user_b)))
}

/// [`check_match`] for any two ciphertexts: where both profiles decode and
/// their score does not fit a byte, nothing is computed and the answer is
/// `None`; everywhere else it is what [`check_match`] returns.
pub fn try_check_match(
    prefs_a: Ciphertext<UserPreferences>,
    prefs_b: Ciphertext<UserPreferences>,
    user_a: KeyRef,
    user_b: KeyRef,
) -> (r: Option<Result<(Ciphertext<MatchResult>, Ciphertext<MatchResult>), GatewayError>>)
    ensures
        match (prefs_a.content(), prefs_b.content()) {
            (Some(a), Some(b)) => if compatibility(a, b) <= u8::MAX {
                r.is_some() && r.unwrap().is_ok() && r.unwrap().unwrap().0.seals(
                    verdict_for(a, b),
                    user_a,
                ) && r.unwrap().unwrap().1.seals(verdict_for(b, a), user_b)
            } else {
                r.is_none()
            },
            _ => r == Some(
                Err::<(Ciphertext<MatchResult>, Ciphertext<MatchResult>), GatewayError>(
                    GatewayError::MalformedCiphertext,
                ),
            ),
        },
{
    let key_a = prefs_a.bound_key();
    let key_b = prefs_b.bound_key();
    let fits = match (decrypt(&prefs_a, key_a), decrypt(&prefs_b, key_b)) {
        (Ok(p_a), Ok(p_b)) => score_fits(&p_a, &p_b),
        _ => true,
    };
    if fits {
        Some(check_match(prefs_a, prefs_b, user_a, user_b))
    } else {
        None
    }
}

} // verus!
