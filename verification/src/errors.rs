//! The three stable error kinds of the engine.
//!
//! Every failure is classified into exactly one kind at the point of
//! detection and returned to the caller unchanged: caller-supplied data that
//! is structurally invalid (`InputError`), a failure of the ledger RPC
//! transport (`SolanaAPIError`), and a domain precondition that the ledger
//! or a ledger program rejects (`SolanaProgramError`).

use vstd::prelude::*;

verus! {

/// One failure of the engine, always carrying a human-readable message.
#[derive(Debug)]
pub enum SpliffError {
    /// Caller-supplied data is structurally invalid; detected before any
    /// network call.
    InputError(String),
    /// The ledger RPC transport failed or rejected the call.
    SolanaAPIError(String),
    /// The ledger accepted the transport call but a domain precondition
    /// failed.
    SolanaProgramError(String),
}

impl SpliffError {
    /// The message carried by the error, whatever its kind.
    pub fn message(&self) -> (r: &String)
        ensures
            *self matches SpliffError::InputError(m) ==> r@ == m@,
            *self matches SpliffError::SolanaAPIError(m) ==> r@ == m@,
            *self matches SpliffError::SolanaProgramError(m) ==> r@ == m@,
    {
        match self {
            SpliffError::InputError(m) => m,
            SpliffError::SolanaAPIError(m) => m,
            SpliffError::SolanaProgramError(m) => m,
        }
    }
}

} // verus!
