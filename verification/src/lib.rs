//! Confidential confessions and matchmaking: the computations that run on
//! private values inside a secure computation boundary, together with the
//! plain bookkeeping of the public ledger around them.
//!
//! Every value that crosses the boundary is a [`gateway::Ciphertext`], a
//! payload bound to one key. The engines open their inputs through the
//! gateway, compute on the plain values, and seal each result to the key of
//! the party that is to read it.

pub mod gateway;
pub mod matching;
pub mod eligibility;
pub mod confessions;
pub mod counter;
pub mod coarse;
pub mod ledger;
