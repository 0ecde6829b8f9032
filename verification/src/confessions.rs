//! The stateless confession engine: a submission is acknowledged with the
//! timestamp it carries as its identifier, and a like is acknowledged
//! unconditionally.

use vstd::prelude::*;
use crate::gateway::{decrypt, encrypt, Ciphertext, GatewayError};

verus! {

/// The length of a content digest in bytes.
pub const MAX_CONFESSION_LEN: usize = 32;

/// A confession as the engine sees it in full.
#[derive(Clone, Copy, Debug)]
pub struct Confession {
    pub content: [u8; MAX_CONFESSION_LEN],
    pub category: u8,
    pub timestamp: u64,
    pub id: u64,
    pub active: bool,
    pub likes: u32,
    pub is_premium: bool,
}

/// What a submitter sends: the digest of the content and its metadata.
#[derive(Clone, Copy, Debug)]
pub struct ConfessionInput {
    pub content: [u8; MAX_CONFESSION_LEN],
    pub category: u8,
    pub timestamp: u64,
    pub is_premium: bool,
}

/// What a submitter is told.
#[derive(Clone, Copy, Debug, PartialEq, Eq, Structural)]
pub struct ConfessionResult {
    pub success: bool,
    pub confession_id: u64,
}

/// The acknowledgment of a submission that carries `timestamp`.
pub open spec fn receipt(timestamp: u64) -> ConfessionResult {
    ConfessionResult { success: true, confession_id: timestamp }
}

/// Acknowledges a submission. The identifier is the timestamp the submitter
/// supplied; nothing makes it unique.
///
/// The input is opened under the key it is bound to and the receipt is sealed
/// to that same key. The only failure is an input that does not decode.
pub fn submit_confession(input: Ciphertext<ConfessionInput>) -> (r: Result<
    Ciphertext<ConfessionResult>,
    GatewayError,
>)
    ensures
        match input.content() {
            Some(confession) => r.is_ok() && r.unwrap().seals(
                receipt(confession.timestamp),
                input.key(),
            ),
            None => r == Err::<Ciphertext<ConfessionResult>, GatewayError>(
                GatewayError::MalformedCiphertext,
            ),
        },
{
    let owner = input.bound_key();
    let confession_input = match decrypt(&input, owner) {
        Ok(c) => c,
        Err(e) => { return Err(e); },
    };
    let result = ConfessionResult { success: true, confession_id: confession_input.timestamp };
    Ok(encrypt(result, owner))
}

/// Acknowledges a like with `true`, whatever identifier it names: no record
/// is looked up.
///
/// The identifier is opened under the key it is bound to and the answer is
/// sealed to that same key. The only failure is an identifier that does not
/// decode.
pub fn like_confession(confession_id: Ciphertext<u64>) -> (r: Result<
    Ciphertext<bool>,
    GatewayError,
>)
    ensures
        match confession_id.content() {
            Some(_) => r.is_ok() && r.unwrap().seals(true, confession_id.key()),
            None => r == Err::<Ciphertext<bool>, GatewayError>(GatewayError::MalformedCiphertext),
        },
{
    let owner = confession_id.bound_key();
    let _target_id = match decrypt(&confession_id, owner) {
        Ok(id) => id,
        Err(e) => { return Err(e); },
    };
    Ok(encrypt(true, owner))
}

} // verus!
