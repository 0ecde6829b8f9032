//! The encryption gateway: the one place where a value enters or leaves the
//! computation domain.
//!
//! A ciphertext is modelled as a tagged pair: the key it is bound to, and
//! what it decodes to under that key. A ciphertext that is structurally
//! broken decodes to nothing.

use vstd::prelude::*;

verus! {

/// The key a ciphertext is bound to.
#[derive(Clone, Copy, Debug, PartialEq, Eq, Structural)]
pub enum KeyRef {
    /// The ephemeral key of one calling party, named by the party's number.
    Shared(u64),
    /// The persistent key of the cluster, under which shared state lives.
    Cluster,
}

/// Why the gateway refused to open a ciphertext.
#[derive(Clone, Copy, Debug, PartialEq, Eq, Structural)]
pub enum GatewayError {
    /// The key presented is not the key the ciphertext is bound to.
    KeyMismatch,
    /// The ciphertext does not decode to a value of its type.
    MalformedCiphertext,
}

/// An encrypted value of type `T`, bound to exactly one key.
#[derive(Clone, Copy, Debug)]
pub struct Ciphertext<T> {
    key: KeyRef,
    payload: Option<T>,
}

/// What opening `c` with `key` yields: the key is checked first, then the
/// structure.
pub open spec fn opened<T>(c: Ciphertext<T>, key: KeyRef) -> Result<T, GatewayError> {
    if key != c.key() {
        Err(GatewayError::KeyMismatch)
    } else {
        match c.content() {
            Some(value) => Ok(value),
            None => Err(GatewayError::MalformedCiphertext),
        }
    }
}

impl<T> Ciphertext<T> {
    /// The key this ciphertext is bound to.
    pub closed spec fn key(self) -> KeyRef {
        self.key
    }

    /// The value this ciphertext decodes to under its key, if it is well formed.
    pub closed spec fn content(self) -> Option<T> {
        self.payload
    }

    /// Whether this ciphertext is `value` sealed to `recipient`.
    pub open spec fn seals(self, value: T, recipient: KeyRef) -> bool {
        self.key() == recipient && self.content() == Some(value)
    }

    /// A structurally invalid ciphertext that claims to be bound to `key`.
    pub fn malformed(key: KeyRef) -> (c: Self)
        ensures
            c.key() == key,
            c.content().is_none(),
    {
        Ciphertext { key, payload: None }
    }

    /// The key this ciphertext is bound to. The binding is public; only the
    /// content is private.
    pub fn bound_key(&self) -> (key: KeyRef)
        ensures
            key == self.key(),
    {
        self.key
    }
}

/// Seals `value` to `recipient`. Always succeeds.
pub fn encrypt<T>(value: T, recipient: KeyRef) -> (c: Ciphertext<T>)
    ensures
        c.seals(value, recipient),
{
    Ciphertext { key: recipient, payload: Some(value) }
}

/// Opens `c` with `key`.
///
/// Fails with `KeyMismatch` exactly when `key` is not the bound key, and with
/// `MalformedCiphertext` exactly when the key is right and the ciphertext does
/// not decode.
pub fn decrypt<T: Copy>(c: &Ciphertext<T>, key: KeyRef) -> (r: Result<T, GatewayError>)
    ensures
        r == opened(*c, key),
{
    if key != c.key {
        Err(GatewayError::KeyMismatch)
    } else {
        match c.payload {
            Some(value) => Ok(value),
            None => Err(GatewayError::MalformedCiphertext),
        }
    }
}

/// Key integrity: a value sealed to a recipient opens to exactly that value
/// under the recipient's key, and to `KeyMismatch` under every other key.
pub proof fn lemma_key_integrity<T>(c: Ciphertext<T>, value: T, recipient: KeyRef, other: KeyRef)
    requires
        c.seals(value, recipient),
        other != recipient,
    ensures
        opened(c, recipient) == Ok::<T, GatewayError>(value),
        opened(c, other) == Err::<T, GatewayError>(GatewayError::KeyMismatch),
{
}

/// A ciphertext never opens under a key it is not bound to, whatever it holds.
pub proof fn lemma_wrong_key_fails<T>(c: Ciphertext<T>, key: KeyRef)
    requires
        key != c.key(),
    ensures
        opened(c, key) == Err::<T, GatewayError>(GatewayError::KeyMismatch),
{
}

} // verus!
