//! The counter-backed confession engine: each submission takes the next
//! number of one counter that the cluster owns.
//!
//! The counter lives outside the engine, sealed to the cluster key. A
//! submission opens it, adds one, and hands back both the new counter, sealed
//! to the cluster again, and the receipt for the submitter. Whoever calls is
//! to feed each submission the counter that the one before returned.

use vstd::prelude::*;
use crate::gateway::{decrypt, encrypt, opened, Ciphertext, GatewayError, KeyRef};

verus! {

/// What a submitter sends: a digest of the content and its category.
#[derive(Clone, Copy, Debug, PartialEq, Eq, Structural)]
pub struct ConfessionInput {
    pub content_hash: u64,
    pub category: u8,
}

/// What a submitter is told.
#[derive(Clone, Copy, Debug, PartialEq, Eq, Structural)]
pub struct ConfessionResult {
    pub success: bool,
    pub confession_id: u64,
}

/// The counter value that follows `counter`.
pub open spec fn successor(counter: u64) -> int {
    counter + 1
}

/// The receipt that names `id`.
pub open spec fn receipt(id: u64) -> ConfessionResult {
    ConfessionResult { success: true, confession_id: id }
}

/// The counter after `n` submissions in a row that started from `start`,
/// each fed the counter that the one before returned.
pub open spec fn counter_after(start: u64, n: nat) -> u64
    decreases n,
{
    if n == 0 {
        start
    } else {
        successor(counter_after(start, (n - 1) as nat)) as u64
    }
}

/// The identifier that the `k`-th submission of such a row returns, counting
/// from 1.
pub open spec fn issued(start: u64, k: nat) -> u64
    recommends
        k >= 1,
{
    successor(counter_after(start, (k - 1) as nat)) as u64
}

/// Takes the next identifier off the cluster's counter.
///
/// The input is opened under the key it is bound to, the counter under the
/// cluster key. On success the first ciphertext is the counter plus one,
/// sealed to the cluster key, and the second is the receipt that names that
/// same number, sealed to the submitter. An input that does not decode fails
/// first; then a counter that is not bound to the cluster key, or does not
/// decode.
///
/// The counter is a 64-bit number, so it must be below the largest one.
pub fn submit_confession(input: Ciphertext<ConfessionInput>, current_id: Ciphertext<u64>) -> (r:
    Result<(Ciphertext<u64>, Ciphertext<ConfessionResult>), GatewayError>)
    requires
        opened(current_id, KeyRef::Cluster).is_ok() ==> opened(current_id, KeyRef::Cluster).unwrap()
            < u64::MAX,
    ensures
        match (input.content(), opened(current_id, KeyRef::Cluster)) {
            (Some(_), Ok(id)) => r.is_ok() && r.unwrap().0.seals(
                successor(id) as u64,
                KeyRef::Cluster,
            ) && r.unwrap().1.seals(receipt(successor(id) as u64), input.key()),
            (Some(_), Err(e)) => r == Err::<
                (Ciphertext<u64>, Ciphertext<ConfessionResult>),
                GatewayError,
            >(e),
            (None, _) => r == Err::<(Ciphertext<u64>, Ciphertext<ConfessionResult>), GatewayError>(
                GatewayError::MalformedCiphertext,
            ),
        },
{
    let owner = input.bound_key();
    let _confession = match decrypt(&input, owner) {
        Ok(c) => c,
        Err(e) => { return Err(e); },
    };
    let id = match decrypt(&current_id, KeyRef::Cluster) {
        Ok(id) => id,
        Err(e) => { return Err(e); },
    };
    let new_id = id + 1;
    let result = ConfessionResult { success: true, confession_id: new_id };
    Ok((encrypt(new_id, KeyRef::Cluster), encrypt(result, owner)))
}

/// [`submit_confession`] for any counter: where the counter opens to the
/// largest 64-bit number, nothing is computed and the answer is `None`;
/// everywhere else it is what [`submit_confession`] returns.
pub fn try_submit_confession(input: Ciphertext<ConfessionInput>, current_id: Ciphertext<u64>) -> (r:
    Option<Result<(Ciphertext<u64>, Ciphertext<ConfessionResult>), GatewayError>>)
    ensures
        opened(current_id, KeyRef::Cluster) == Ok::<u64, GatewayError>(u64::MAX) <==> r.is_none(),
        match (input.content(), opened(current_id, KeyRef::Cluster)) {
            (Some(_), Ok(id)) => id < u64::MAX ==> r.unwrap().is_ok() && r.unwrap().unwrap().0.seals(
                successor(id) as u64,
                KeyRef::Cluster,
            ) && r.unwrap().unwrap().1.seals(receipt(successor(id) as u64), input.key()),
            (Some(_), Err(e)) => r == Some(
                Err::<(Ciphertext<u64>, Ciphertext<ConfessionResult>), GatewayError>(e),
            ),
            (None, Ok(id)) => id < u64::MAX ==> r == Some(
                Err::<(Ciphertext<u64>, Ciphertext<ConfessionResult>), GatewayError>(
                    GatewayError::MalformedCiphertext,
                ),
            ),
            (None, Err(_)) => r == Some(
                Err::<(Ciphertext<u64>, Ciphertext<ConfessionResult>), GatewayError>(
                    GatewayError::MalformedCiphertext,
                ),
            ),
        },
{
    let at_limit = match decrypt(&current_id, KeyRef::Cluster) {
        Ok(id) => id == u64::MAX,
        Err(_) => false,
    };
    if at_limit {
        None
    } else {
        Some(submit_confession(input, current_id))
    }
}

/// The counter after `n` submissions is `start + n`, as long as that is a
/// 64-bit number.
pub proof fn lemma_counter_after(start: u64, n: nat)
    requires
        start + n <= u64::MAX,
    ensures
        counter_after(start, n) == start + n,
    decreases n,
{
    if n > 0 {
        lemma_counter_after(start, (n - 1) as nat);
    }
}

/// Counter monotonicity: `n` submissions in a row from `start` leave the
/// counter at `start + n`, and the `k`-th of them returns `start + k`, which
/// is the counter it was given plus one and the counter it hands back.
pub proof fn lemma_counter_sequence(start: u64, n: nat, k: nat)
    requires
        start + n <= u64::MAX,
        1 <= k <= n,
    ensures
        counter_after(start, n) == start + n,
        issued(start, k) == start + k,
        issued(start, k) == counter_after(start, (k - 1) as nat) + 1,
        issued(start, k) == counter_after(start, k),
{
    lemma_counter_after(start, n);
    lemma_counter_after(start, k);
    lemma_counter_after(start, (k - 1) as nat);
}

} // verus!
