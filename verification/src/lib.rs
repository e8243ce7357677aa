//! Token transaction engine for a Solana-style ledger.
//!
//! The library turns high-level intents — "create a token with supply `S`
//! and `D` decimals", "transfer `A` raw units of token `T`" — into the
//! correctly ordered instruction sequences of an atomic ledger transaction,
//! together with the pre-flight checks that keep doomed transactions from
//! being submitted. All network traffic is performed by the embedding
//! program, which drives the engine's step functions with the outcome of
//! each ledger call.

use vstd::prelude::*;

pub mod account;
pub mod address;
pub mod amount;
pub mod errors;
pub mod instructions;
pub mod state;
pub mod token;

verus! {

/// Greeting used by the embedding program at startup.
pub fn hello() -> (r: String)
    ensures
        r@ == "Hello"@,
{
    "Hello".to_owned()
}

} // verus!
