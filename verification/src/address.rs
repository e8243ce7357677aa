//! Address primitives: 32-byte ledger identifiers, their base58 text form,
//! and the canonical derived token account of an (owner, token) pair.
//!
//! An [`Address`] holds the raw 32 bytes of a public identifier, so that the
//! engine's contracts can speak about identifiers as plain byte sequences.
//! Encoding, decoding and account derivation are performed by the Solana
//! libraries behind trusted wrappers.

use std::str::FromStr;
use vstd::prelude::*;

use crate::errors::SpliffError;

verus! {

/// A 32-byte public identifier naming an account, a token type or a program.
pub struct Address {
    bytes: Vec<u8>,
}

impl View for Address {
    type V = Seq<u8>;

    closed spec fn view(&self) -> Seq<u8> {
        self.bytes@
    }
}

impl Address {
    /// A well-formed address holds exactly 32 bytes.
    pub open spec fn wf(&self) -> bool {
        self@.len() == 32
    }

    /// Builds an address from its raw bytes; rejects any length but 32.
    pub fn new(bytes: Vec<u8>) -> (r: Result<Address, SpliffError>)
        ensures
            bytes@.len() == 32 ==> (r matches Ok(a) && a@ == bytes@),
            bytes@.len() != 32 ==> (r matches Err(e) && e is InputError),
            r matches Ok(a) ==> a.wf(),
    {
        if bytes.len() == 32 {
            Ok(Address { bytes })
        } else {
            Err(SpliffError::InputError("an address must hold exactly 32 bytes".to_owned()))
        }
    }

    /// Builds an address from bytes already known to be 32 long.
    pub(crate) fn from_raw(bytes: Vec<u8>) -> (r: Address)
        requires
            bytes@.len() == 32,
        ensures
            r@ == bytes@,
            r.wf(),
    {
        Address { bytes }
    }

    /// The raw bytes of the address.
    pub fn as_bytes(&self) -> (r: &Vec<u8>)
        ensures
            r@ == self@,
    {
        &self.bytes
    }

    /// Byte-for-byte equality of two addresses.
    pub fn equals(&self, other: &Address) -> (r: bool)
        ensures
            r == (self@ == other@),
    {
        let mut i: usize = 0;
        if self.bytes.len() != other.bytes.len() {
            return false;
        }
        while i < self.bytes.len()
            invariant
                i <= self.bytes.len(),
                self.bytes.len() == other.bytes.len(),
                forall|j: int| 0 <= j < i ==> self.bytes[j] == other.bytes[j],
            decreases self.bytes.len() - i,
        {
            if self.bytes[i] != other.bytes[i] {
                return false;
            }
            i = i + 1;
        }
        proof {
            assert(self@ =~= other@);
        }
        true
    }

    /// A fresh copy of the address.
    pub fn duplicate(&self) -> (r: Address)
        ensures
            r@ == self@,
    {
        let mut bytes: Vec<u8> = Vec::new();
        let mut i: usize = 0;
        while i < self.bytes.len()
            invariant
                i <= self.bytes.len(),
                bytes@ == self.bytes@.subrange(0, i as int),
            decreases self.bytes.len() - i,
        {
            bytes.push(self.bytes[i]);
            i = i + 1;
        }
        proof {
            assert(bytes@ =~= self@);
        }
        Address { bytes }
    }
}

/// The bytes that a base58 address string decodes to, if it is a valid
/// encoding of a 32-byte identifier.
pub uninterp spec fn parsed_address_of(s: Seq<char>) -> Option<Seq<u8>>;

/// The base58 text form of 32 address bytes.
pub uninterp spec fn base58_of(bytes: Seq<u8>) -> Seq<char>;

/// The canonical derived (associated) token account of an owner for a token:
/// a deterministic hash of owner, token program and token identifiers.
pub uninterp spec fn derived_account_of(owner: Seq<u8>, token: Seq<u8>) -> Seq<u8>;

/// Relies on `solana_pubkey::Pubkey::from_str`: base58 decoding into exactly
/// 32 bytes, succeeding if and only if the string is a well-formed encoding.
#[verifier::external_body]
fn pubkey_from_base58(s: &str) -> (r: Option<Address>)
    ensures
        r matches Some(a) ==> parsed_address_of(s@) == Some(a@) && a@.len() == 32,
        r is Some <==> parsed_address_of(s@) is Some,
{
    match solana_pubkey::Pubkey::from_str(s) {
        Ok(pk) => Some(Address { bytes: pk.to_bytes().to_vec() }),
        Err(_) => None,
    }
}

/// Relies on the `Display` impl of `solana_pubkey::Pubkey`: the base58 text
/// form of the 32 address bytes.
#[verifier::external_body]
fn pubkey_to_base58(a: &Address) -> (r: String)
    requires
        a.wf(),
    ensures
        r@ == base58_of(a@),
{
    match solana_pubkey::Pubkey::try_from(a.bytes.as_slice()) {
        Ok(pk) => pk.to_string(),
        Err(_) => String::new(),
    }
}

/// Relies on `spl_associated_token_account_client::address::get_associated_token_address`:
/// the canonical associated token account derived from the owner and token
/// identifiers under the SPL token program. The derivation is a pure hash of
/// its two arguments and always yields 32 bytes.
#[verifier::external_body]
fn associated_token_address(owner: &Address, token: &Address) -> (r: Address)
    requires
        owner.wf(),
        token.wf(),
    ensures
        r@ == derived_account_of(owner@, token@),
        r@.len() == 32,
{
    let owner_pk = solana_pubkey::Pubkey::try_from(owner.bytes.as_slice()).unwrap();
    let token_pk = solana_pubkey::Pubkey::try_from(token.bytes.as_slice()).unwrap();
    let derived = spl_associated_token_account_client::address::get_associated_token_address(
        &owner_pk,
        &token_pk,
    );
    Address { bytes: derived.to_bytes().to_vec() }
}

/// Parses a base58 address string into an [`Address`]; a string that is not
/// a valid 32-byte encoding is an [`SpliffError::InputError`].
pub fn parse_address(s: &str) -> (r: Result<Address, SpliffError>)
    ensures
        r matches Ok(a) ==> parsed_address_of(s@) == Some(a@) && a.wf(),
        r is Err <==> parsed_address_of(s@) is None,
        r matches Err(e) ==> e is InputError,
{
    match pubkey_from_base58(s) {
        Some(a) => Ok(a),
        None => Err(
            SpliffError::InputError("failed to parse address: not a valid base58 identifier".to_owned()),
        ),
    }
}

/// The base58 text form of an address.
pub fn address_to_string(a: &Address) -> (r: String)
    requires
        a.wf(),
    ensures
        r@ == base58_of(a@),
{
    pubkey_to_base58(a)
}

/// The canonical token account of `owner` for `token`. Deterministic and
/// free of ledger calls: the same pair always derives the same account.
pub fn derive_token_account(owner: &Address, token: &Address) -> (r: Address)
    requires
        owner.wf(),
        token.wf(),
    ensures
        r@ == derived_account_of(owner@, token@),
        r.wf(),
{
    associated_token_address(owner, token)
}

/// Repeated derivations agree: the derived account is a function of the
/// (owner, token) pair alone, so any two results for the same pair are the
/// same identifier.
pub proof fn lemma_derive_deterministic(owner: Seq<u8>, token: Seq<u8>, a: Seq<u8>, b: Seq<u8>)
    requires
        a == derived_account_of(owner, token),
        b == derived_account_of(owner, token),
    ensures
        a == b,
{
}

/// The address bytes of the SPL token program.
pub open spec fn token_program_id_bytes() -> Seq<u8> {
    seq![
        6u8, 221u8, 246u8, 225u8, 215u8, 101u8, 161u8, 147u8, 217u8, 203u8, 225u8, 70u8, 206u8,
        235u8, 121u8, 172u8, 28u8, 180u8, 133u8, 237u8, 95u8, 91u8, 55u8, 145u8, 58u8, 140u8,
        245u8, 133u8, 126u8, 255u8, 0u8, 169u8,
    ]
}

/// Relies on `spl_token::id`: the constant address of the SPL token program,
/// whose base58 form is "TokenkegQfeZyiNwAJbNbGKPFXCWuBvf9Ss623VQ5DA".
#[verifier::external_body]
pub fn token_program_address() -> (r: Address)
    ensures
        r@ == token_program_id_bytes(),
{
    Address { bytes: spl_token::id().to_bytes().to_vec() }
}

} // verus!
