//! The ledger client handle: the operator's signing credential and derived
//! public identifier.
//!
//! The network connection itself lives with the embedding program; the
//! engine only needs the operator identity, which is created once at process
//! start and shared read-only by every request.

use vstd::prelude::*;

use crate::address::Address;

verus! {

/// The signing credential type of the Solana libraries, carried opaquely.
#[verifier::external_type_specification]
#[verifier::external_body]
pub struct ExKeypair(solana_keypair::Keypair);

/// Failure to assemble the ledger client from the process configuration.
#[derive(Debug)]
pub enum StateError {
    /// The ledger RPC endpoint setting is absent.
    SolanaMissingAPIUrl(&'static str),
    /// The signing-credential path setting is absent.
    SolanaMissingKeypairPath(&'static str),
    /// The signing-credential file does not parse into a valid keypair.
    SolanaKeypairLoadError(&'static str),
}

/// The operator identity of the engine: the signing credential and its
/// public identifier. Immutable for the process lifetime; the credential is
/// used for signing but never mutated.
pub struct SolanaClient {
    pub keypair: solana_keypair::Keypair,
    pub pubkey: Address,
}

impl SolanaClient {
    /// A usable client names its operator by a well-formed address.
    pub open spec fn wf(&self) -> bool {
        self.pubkey.wf()
    }

    /// Pairs a signing credential with its public identifier. The embedding
    /// program derives `pubkey` from the credential it loaded.
    pub fn new(keypair: solana_keypair::Keypair, pubkey: Address) -> (r: SolanaClient)
        requires
            pubkey.wf(),
        ensures
            r.wf(),
            r.pubkey@ == pubkey@,
    {
        SolanaClient { keypair, pubkey }
    }
}

} // verus!
