//! The balance and account reader: decoding fetched token accounts and the
//! pre-flight existence check for transfers.
//!
//! The embedding program performs the ledger queries and hands the fetched
//! payloads to these functions. Decoding a payload into a typed balance
//! record goes through trusted wrappers around the Solana account-decoder
//! types; everything after the decode is verified. A schema mismatch aborts
//! the whole listing, as the error-handling design demands.

use solana_account_decoder_client_types::token::TokenAccountType;
use solana_account_decoder_client_types::UiAccountData;
use vstd::prelude::*;
use vstd::string::StringExecFns;

use crate::address::{address_to_string, base58_of, token_program_id_bytes, token_program_address, Address};
use crate::errors::SpliffError;

verus! {

/// A fetched ledger account row, as the RPC layer returns it: the account's
/// identifier in base58 together with its payload.
#[verifier::external_type_specification]
#[verifier::external_body]
pub struct ExRpcKeyedAccount(solana_rpc_client_api::response::RpcKeyedAccount);

/// The decoded amount record of a token account payload.
#[verifier::external_type_specification]
#[verifier::external_body]
pub struct ExUiTokenAmount(solana_account_decoder_client_types::token::UiTokenAmount);

/// One decoded token holding of the operator: which token, in which derived
/// account, how much, and who owns it. Rebuilt on every query, never cached.
pub struct TokenBalance {
    pub token_address: String,
    pub token_account: String,
    pub balance: String,
    pub owner_pubkey: String,
}

/// What the engine reads from a fetched account when deciding whether a
/// token account exists: the program that owns the account. An account
/// owned by the generic system program is an unallocated slot.
pub struct AccountRecord {
    pub owner_program: Address,
}

/// A token account exists for the engine's purposes when the fetched
/// account is present and owned by the SPL token program.
pub open spec fn has_token_account_spec(account: Option<AccountRecord>) -> bool {
    account matches Some(a) && a.owner_program@ == token_program_id_bytes()
}

/// Decides whether a fetched account is an existing token account: present
/// and owned by the token program, as opposed to absent or a bare
/// system-owned slot.
pub fn has_token_account(account: &Option<AccountRecord>) -> (r: bool)
    ensures
        r == has_token_account_spec(*account),
{
    match account {
        Option::Some(a) => {
            let token_program = token_program_address();
            a.owner_program.equals(&token_program)
        },
        Option::None => false,
    }
}

/// An account that was never allocated is no token account.
pub proof fn lemma_unallocated_account_is_no_token_account()
    ensures
        !has_token_account_spec(Option::None),
{
}

/// Once the derived account exists and is owned by the token program, the
/// check holds.
pub proof fn lemma_token_program_account_is_token_account(a: AccountRecord)
    requires
        a.owner_program@ == token_program_id_bytes(),
    ensures
        has_token_account_spec(Option::Some(a)),
{
}

/// Relies on the public fields of `RpcKeyedAccount` and on
/// `serde_json::from_value` deserializing the parsed JSON payload into
/// `TokenAccountType` of the account-decoder types: `Ok` carries the row's
/// account identifier, the held token's address and the amount record, and
/// comes exactly when the payload is the parsed-JSON form of a token
/// holding account; any other payload is an `Err` with a message.
#[verifier::external_body]
fn decode_token_account(account: &solana_rpc_client_api::response::RpcKeyedAccount) -> (r: Result<
    (String, String, solana_account_decoder_client_types::token::UiTokenAmount),
    String,
>)
{
    let parsed = match &account.account.data {
        UiAccountData::Json(p) => p.parsed.clone(),
        _ => return Err("failed to parse account: payload is not in parsed json form".to_string()),
    };
    match serde_json::from_value(parsed) {
        Ok(TokenAccountType::Account(acc)) => Ok((account.pubkey.clone(), acc.mint, acc.token_amount)),
        Ok(_) => Err("unsupported account type".to_string()),
        Err(err) => Err(format!("error while parsing account {:?}", err)),
    }
}

/// Relies on `UiTokenAmount::real_number_string`: the decimal text of the
/// held amount, which is never empty.
#[verifier::external_body]
fn token_amount_text(amount: &solana_account_decoder_client_types::token::UiTokenAmount) -> (r:
    String)
    ensures
        r@.len() >= 1,
{
    amount.real_number_string()
}

/// Decodes one fetched account row into a [`TokenBalance`] owned by
/// `owner`. A payload that is not a token-account record is a
/// [`SpliffError::SolanaProgramError`].
pub fn parse_account(
    account: &solana_rpc_client_api::response::RpcKeyedAccount,
    owner: &Address,
) -> (r: Result<TokenBalance, SpliffError>)
    requires
        owner.wf(),
    ensures
        r matches Ok(b) ==> b.owner_pubkey@ == base58_of(owner@) && b.balance@.len() >= 1,
        r matches Err(e) ==> e is SolanaProgramError,
{
    match decode_token_account(account) {
        Ok((account_id, mint, amount)) => {
            let balance = token_amount_text(&amount);
            Ok(TokenBalance {
                token_address: mint,
                token_account: account_id,
                balance,
                owner_pubkey: address_to_string(owner),
            })
        },
        Err(msg) => Err(SpliffError::SolanaProgramError(msg)),
    }
}

/// Decodes the operator's token accounts, as fetched from the ledger, into
/// one [`TokenBalance`] per account, keeping the fetched order. A transport
/// failure is a [`SpliffError::SolanaAPIError`]; one undecodable record
/// aborts the whole listing with a [`SpliffError::SolanaProgramError`].
pub fn list_tokens(
    fetched: Result<Vec<solana_rpc_client_api::response::RpcKeyedAccount>, String>,
    owner: &Address,
) -> (r: Result<Vec<TokenBalance>, SpliffError>)
    requires
        owner.wf(),
    ensures
        fetched matches Err(cause) ==> (r matches Err(e) && e matches SpliffError::SolanaAPIError(
            m,
        ) && m@ == "failed to list token accounts: "@ + cause@),
        fetched matches Ok(accounts) && accounts@.len() == 0 ==> r is Ok,
        fetched matches Ok(accounts) ==> match r {
            Ok(balances) => balances@.len() == accounts@.len() && forall|i: int|
                0 <= i < balances@.len() ==> #[trigger] balances@[i].owner_pubkey@ == base58_of(
                    owner@,
                ),
            Err(e) => e is SolanaProgramError,
        },
{
    let accounts = match fetched {
        Ok(accounts) => accounts,
        Err(msg) => {
            return Err(
                SpliffError::SolanaAPIError("failed to list token accounts: ".to_owned().concat(msg.as_str())),
            );
        },
    };
    let mut balances: Vec<TokenBalance> = Vec::new();
    let mut i: usize = 0;
    while i < accounts.len()
        invariant
            fetched matches Ok(a) && a@ == accounts@,
            i <= accounts.len(),
            owner.wf(),
            balances@.len() == i,
            forall|j: int| 0 <= j < i ==> #[trigger] balances@[j].owner_pubkey@ == base58_of(
                owner@,
            ),
        decreases accounts.len() - i,
    {
        match parse_account(&accounts[i], owner) {
            Ok(balance) => balances.push(balance),
            Err(e) => {
                return Err(e);
            },
        }
        i = i + 1;
    }
    Ok(balances)
}

} // verus!
