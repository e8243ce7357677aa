//! The token minter and the token transfer engine.
//!
//! Both operations interleave ledger round-trips with decisions, so each is
//! a small state machine: the engine builds the next state (and, with it,
//! the instructions to submit) from the previous state and the outcome of
//! the last ledger call. The embedding program performs the calls — the
//! rent-exemption query, the recipient-account fetch, the blockhash fetch
//! and the signed submission — and feeds every outcome back. The contracts
//! pin the instruction sequence of each transaction, when the engine may
//! reach a submission, and the error kind of every failure.
//!
//! Neither operation retries: resubmitting a creation with a fresh
//! identifier would mint a different token, so the burden of retry lies
//! with the caller.

use vstd::prelude::*;
use vstd::string::StringExecFns;

use crate::account::{has_token_account, has_token_account_spec, AccountRecord};
use crate::address::{
    address_to_string, base58_of, derive_token_account, derived_account_of,
    token_program_id_bytes, Address,
};
use crate::amount::{checked_mint_amount, mint_amount_spec, DecimalAmount};
use crate::errors::SpliffError;
use crate::instructions::{
    build_create_account, build_create_associated_account, build_initialize_mint, build_mint_to,
    build_transfer, create_account_instr, create_associated_account_instr, initialize_mint_instr,
    mint_record_len, mint_to_instr, transfer_instr, InstructionData,
};
use crate::state::SolanaClient;

verus! {

/// A request to create a token: the initial supply as a decimal number and
/// the number of decimal places of the new token.
#[derive(Clone, Copy, PartialEq, Eq, Structural, Debug)]
pub struct TokenSupply {
    pub supply: DecimalAmount,
    pub decimals: u8,
}

/// A newly created token: its address, the one-time credential that
/// authorized its creation, what was minted, the submitted transaction id
/// and the operator's token account holding the supply.
pub struct Token {
    pub address: Address,
    pub signer: solana_keypair::Keypair,
    pub supply: DecimalAmount,
    pub decimals: u8,
    pub mint_tx: String,
    pub minter_token_account: Address,
}

/// A completed transfer: who sent, who received, which token, through which
/// derived accounts, and the submitted transaction id.
pub struct TokenTransfer {
    pub sender: Address,
    pub recipient: Address,
    pub token: Address,
    pub sender_account: Address,
    pub recipient_account: Address,
    pub tx_signature: String,
}

/// The outcome of performing a submission: fetching the latest blockhash
/// and sending the signed transaction.
pub enum SubmitOutcome {
    /// The blockhash fetch failed with this transport message.
    BlockhashFailed(String),
    /// The submission itself failed with this transport message.
    SendFailed(String),
    /// The ledger confirmed the transaction under this id.
    Confirmed(String),
}

/// Everything the minting transaction needs: the planned instructions in
/// submission order, the fresh token identity, and the figures that the
/// response reports.
pub struct MintPlan {
    pub request: TokenSupply,
    pub token: Address,
    pub token_signer: solana_keypair::Keypair,
    pub minter_token_account: Address,
    pub mint_amount: u64,
    pub instructions: Vec<InstructionData>,
}

impl MintPlan {
    /// All identifiers of the plan are well-formed addresses.
    pub open spec fn wf(&self) -> bool {
        self.token.wf() && self.minter_token_account.wf()
    }
}

/// The state of one token creation. The variant names the ledger call the
/// embedding program must perform next: query the rent-exempt fee for a
/// token record, or sign with the operator and token credentials and submit
/// the planned instructions as one transaction.
pub enum MintState {
    /// Waiting for the rent-exemption fee of a token record.
    AwaitingRentFee { request: TokenSupply, token: Address, token_signer: solana_keypair::Keypair },
    /// Waiting for the planned transaction to be signed and submitted.
    AwaitingSubmit { plan: MintPlan },
    /// The token was created.
    Done { token: Token },
    /// The creation failed; nothing further may be submitted.
    Failed { error: SpliffError },
}

impl MintState {
    /// All identifiers held by the state are well-formed addresses.
    pub open spec fn wf(&self) -> bool {
        match self {
            MintState::AwaitingRentFee { token, .. } => token.wf(),
            MintState::AwaitingSubmit { plan } => plan.wf(),
            MintState::Done { token } => token.address.wf() && token.minter_token_account.wf(),
            MintState::Failed { .. } => true,
        }
    }
}

/// Begins a token creation: draws a fresh one-time identifier and credential
/// for the token and asks for the rent-exemption fee.
pub fn create_token(request: TokenSupply) -> (r: MintState)
    ensures
        r matches MintState::AwaitingRentFee { request: req, token, token_signer } && req
            == request,
        r.wf(),
{
    let (token_signer, token) = new_throwaway_signer();
    MintState::AwaitingRentFee { request, token, token_signer }
}

/// Classifies the outcome of the rent-exemption query: a transport failure
/// is a [`SpliffError::SolanaAPIError`], a fee passes through unchanged.
pub fn get_rent_exempt_fee(outcome: Result<u64, String>) -> (r: Result<u64, SpliffError>)
    ensures
        outcome matches Ok(fee) ==> r matches Ok(f) && f == fee,
        outcome matches Err(cause) ==> (r matches Err(e) && e matches SpliffError::SolanaAPIError(
            m,
        ) && m@ == "failed while calculating minimum balance for rent exemption: "@ + cause@),
{
    match outcome {
        Ok(fee) => Ok(fee),
        Err(msg) => Err(
            SpliffError::SolanaAPIError(
                "failed while calculating minimum balance for rent exemption: ".to_owned().concat(
                    msg.as_str(),
                ),
            ),
        ),
    }
}

/// Advances a creation past the rent-exemption query. On a fee, the four
/// instructions of the creation transaction are planned, in this exact
/// order: allocate the token record, initialize it as a mint, create the
/// operator's associated token account, and mint the supply into it. The
/// supply is converted to raw units by `round(supply * 10^decimals)`; a
/// supply whose raw amount cannot be represented fails as a
/// [`SpliffError::SolanaProgramError`] before anything is planned.
pub fn create_token_on_rent_fee(
    state: MintState,
    outcome: Result<u64, String>,
    client: &SolanaClient,
) -> (r: MintState)
    requires
        state is AwaitingRentFee,
        state.wf(),
        client.wf(),
    ensures
        r.wf(),
        state matches MintState::AwaitingRentFee { request, token, token_signer } ==> {
            &&& (outcome matches Err(cause) ==> (r matches MintState::Failed { error }
                && error matches SpliffError::SolanaAPIError(m) && m@
                == "failed while calculating minimum balance for rent exemption: "@ + cause@))
            &&& (outcome matches Ok(fee) ==> if mint_amount_spec(request.supply, request.decimals)
                <= u64::MAX {
                (r matches MintState::AwaitingSubmit { plan } && plan.request == request
                    && plan.token == token && plan.token_signer == token_signer
                    && plan.mint_amount == mint_amount_spec(request.supply, request.decimals)
                    && plan.minter_token_account@ == derived_account_of(client.pubkey@, token@)
                    && plan.instructions@.len() == 4 && plan.instructions@[0]@
                    == create_account_instr(
                    client.pubkey@,
                    token@,
                    fee,
                    82,
                    token_program_id_bytes(),
                ) && plan.instructions@[1]@ == initialize_mint_instr(
                    token@,
                    client.pubkey@,
                    request.decimals,
                ) && plan.instructions@[2]@ == create_associated_account_instr(
                    client.pubkey@,
                    client.pubkey@,
                    token@,
                ) && plan.instructions@[3]@ == mint_to_instr(
                    token@,
                    derived_account_of(client.pubkey@, token@),
                    client.pubkey@,
                    plan.mint_amount,
                    request.decimals,
                ))
            } else {
                (r matches MintState::Failed { error } && error is SolanaProgramError)
            })
            &&& (r is AwaitingSubmit ==> outcome is Ok)
        },
{
    let (request, token, token_signer) = match state {
        MintState::AwaitingRentFee { request, token, token_signer } => (
            request,
            token,
            token_signer,
        ),
        _ => unreached(),
    };
    let fee = match get_rent_exempt_fee(outcome) {
        Ok(fee) => fee,
        Err(error) => {
            return MintState::Failed { error };
        },
    };
    let mint_amount = match checked_mint_amount(&request.supply, request.decimals) {
        Some(amount) => amount,
        None => {
            return MintState::Failed {
                error: SpliffError::SolanaProgramError(
                    "failed to make mint supply instruction: the raw amount does not fit a 64-bit value".to_owned(),
                ),
            };
        },
    };
    let space = mint_record_len();
    let owner_program = crate::address::token_program_address();
    let allocate = build_create_account(&client.pubkey, &token, fee, space, &owner_program);
    let initialize = build_initialize_mint(&token, &client.pubkey, request.decimals);
    let create_account = build_create_associated_account(&client.pubkey, &client.pubkey, &token);
    let minter_token_account = derive_token_account(&client.pubkey, &token);
    let mint_supply = build_mint_to(
        &token,
        &minter_token_account,
        &client.pubkey,
        mint_amount,
        request.decimals,
    );
    let mut instructions: Vec<InstructionData> = Vec::new();
    instructions.push(allocate);
    instructions.push(initialize);
    instructions.push(create_account);
    instructions.push(mint_supply);
    MintState::AwaitingSubmit {
        plan: MintPlan {
            request,
            token,
            token_signer,
            minter_token_account,
            mint_amount,
            instructions,
        },
    }
}

/// Finishes a creation once the planned transaction was signed and
/// submitted. A confirmation yields the [`Token`] record, carrying the
/// submitted transaction id; a blockhash or submission failure is a
/// [`SpliffError::SolanaAPIError`] and is reported verbatim.
pub fn create_token_on_submit(state: MintState, outcome: SubmitOutcome) -> (r: MintState)
    requires
        state is AwaitingSubmit,
        state.wf(),
    ensures
        r.wf(),
        state matches MintState::AwaitingSubmit { plan } ==> {
            &&& (outcome matches SubmitOutcome::Confirmed(sig) ==> (r matches MintState::Done {
                token,
            } && token.address == plan.token && token.supply == plan.request.supply
                && token.decimals == plan.request.decimals && token.mint_tx == sig
                && token.minter_token_account == plan.minter_token_account))
            &&& (outcome matches SubmitOutcome::BlockhashFailed(cause) ==> (
            r matches MintState::Failed { error } && error matches SpliffError::SolanaAPIError(m)
                && m@ == "failed to calculate recent blockhash: "@ + cause@))
            &&& (outcome matches SubmitOutcome::SendFailed(cause) ==> (
            r matches MintState::Failed { error } && error matches SpliffError::SolanaAPIError(m)
                && m@ == "failed while executing transaction: "@ + cause@))
        },
{
    let plan = match state {
        MintState::AwaitingSubmit { plan } => plan,
        _ => unreached(),
    };
    match outcome {
        SubmitOutcome::Confirmed(sig) => MintState::Done {
            token: Token {
                address: plan.token,
                signer: plan.token_signer,
                supply: plan.request.supply,
                decimals: plan.request.decimals,
                mint_tx: sig,
                minter_token_account: plan.minter_token_account,
            },
        },
        SubmitOutcome::BlockhashFailed(msg) => MintState::Failed {
            error: SpliffError::SolanaAPIError(
                "failed to calculate recent blockhash: ".to_owned().concat(msg.as_str()),
            ),
        },
        SubmitOutcome::SendFailed(msg) => MintState::Failed {
            error: SpliffError::SolanaAPIError(
                "failed while executing transaction: ".to_owned().concat(msg.as_str()),
            ),
        },
    }
}

/// Everything the transfer transaction needs: the single planned
/// instruction and the identities the result reports.
pub struct TransferPlan {
    pub token: Address,
    pub sender: Address,
    pub recipient: Address,
    pub amount: u64,
    pub sender_account: Address,
    pub recipient_account: Address,
    pub instruction: InstructionData,
}

impl TransferPlan {
    /// All identifiers of the plan are well-formed addresses.
    pub open spec fn wf(&self) -> bool {
        self.token.wf() && self.sender.wf() && self.recipient.wf() && self.sender_account.wf()
            && self.recipient_account.wf()
    }
}

/// The state of one token transfer. The variant names the ledger call the
/// embedding program must perform next: fetch the recipient's derived
/// account, or sign with the operator credential and submit the planned
/// instruction as one transaction.
pub enum TransferState {
    /// Waiting for the recipient's derived token account to be fetched.
    AwaitingAccountCheck {
        token: Address,
        sender: Address,
        recipient: Address,
        amount: u64,
        sender_account: Address,
        recipient_account: Address,
    },
    /// Waiting for the planned transaction to be signed and submitted.
    AwaitingSubmit { plan: TransferPlan },
    /// The transfer was submitted and confirmed.
    Done { transfer: TokenTransfer },
    /// The transfer failed; nothing further may be submitted.
    Failed { error: SpliffError },
}

impl TransferState {
    /// All identifiers held by the state are well-formed addresses.
    pub open spec fn wf(&self) -> bool {
        match self {
            TransferState::AwaitingAccountCheck {
                token,
                sender,
                recipient,
                sender_account,
                recipient_account,
                ..
            } => token.wf() && sender.wf() && recipient.wf() && sender_account.wf()
                && recipient_account.wf(),
            TransferState::AwaitingSubmit { plan } => plan.wf(),
            TransferState::Done { transfer } => transfer.token.wf(),
            TransferState::Failed { .. } => true,
        }
    }
}

/// Begins a transfer of `amount` raw units of `token` from `sender` to
/// `recipient`: both derived token accounts are computed, and the
/// recipient's must be fetched and checked before anything is submitted.
pub fn transfer_token(token: &Address, sender: &Address, recipient: &Address, amount: u64) -> (r:
    TransferState)
    requires
        token.wf(),
        sender.wf(),
        recipient.wf(),
    ensures
        r matches TransferState::AwaitingAccountCheck {
            token: t,
            sender: s,
            recipient: rec,
            amount: a,
            sender_account,
            recipient_account,
        } && t@ == token@ && s@ == sender@ && rec@ == recipient@ && a == amount && sender_account@
            == derived_account_of(sender@, token@) && recipient_account@ == derived_account_of(
            recipient@,
            token@,
        ),
        r.wf(),
{
    let sender_account = derive_token_account(sender, token);
    let recipient_account = derive_token_account(recipient, token);
    TransferState::AwaitingAccountCheck {
        token: token.duplicate(),
        sender: sender.duplicate(),
        recipient: recipient.duplicate(),
        amount,
        sender_account,
        recipient_account,
    }
}

/// Advances a transfer past the recipient-account check. The transfer
/// instruction is planned only when the fetched account exists and is owned
/// by the token program; a missing account, and a check that itself failed,
/// are each a [`SpliffError::SolanaProgramError`], and in either case no
/// submission can follow: the failed state is final.
pub fn transfer_token_on_account_check(
    state: TransferState,
    fetched: Result<Option<AccountRecord>, String>,
    client: &SolanaClient,
) -> (r: TransferState)
    requires
        state is AwaitingAccountCheck,
        state.wf(),
        client.wf(),
    ensures
        r.wf(),
        state matches TransferState::AwaitingAccountCheck {
            token,
            sender,
            recipient,
            amount,
            sender_account,
            recipient_account,
        } ==> {
            &&& (fetched matches Err(cause) ==> (r matches TransferState::Failed { error }
                && error matches SpliffError::SolanaProgramError(m) && m@
                == "failed to get account details of "@ + base58_of(recipient@)
                + " address for "@ + base58_of(token@) + " token: "@ + cause@))
            &&& (fetched matches Ok(account) && !has_token_account_spec(account)
                ==> (r matches TransferState::Failed { error } && error
                matches SpliffError::SolanaProgramError(m) && m@ == "for "@ + base58_of(recipient@)
                + " address, token account for "@ + base58_of(token@) + " token not found"@))
            &&& (fetched matches Ok(account) && has_token_account_spec(account)
                ==> (r matches TransferState::AwaitingSubmit { plan } && plan.token == token
                && plan.sender == sender && plan.recipient == recipient && plan.amount == amount
                && plan.sender_account == sender_account && plan.recipient_account
                == recipient_account && plan.instruction@ == transfer_instr(
                sender_account@,
                recipient_account@,
                client.pubkey@,
                amount,
            )))
            &&& (r is AwaitingSubmit ==> (fetched matches Ok(account) && has_token_account_spec(
                account,
            )))
        },
{
    let (token, sender, recipient, amount, sender_account, recipient_account) = match state {
        TransferState::AwaitingAccountCheck {
            token,
            sender,
            recipient,
            amount,
            sender_account,
            recipient_account,
        } => (token, sender, recipient, amount, sender_account, recipient_account),
        _ => unreached(),
    };
    let account = match fetched {
        Ok(account) => account,
        Err(msg) => {
            return TransferState::Failed {
                error: SpliffError::SolanaProgramError(
                    "failed to get account details of ".to_owned().concat(
                        address_to_string(&recipient).as_str(),
                    ).concat(" address for ").concat(address_to_string(&token).as_str()).concat(
                        " token: ",
                    ).concat(msg.as_str()),
                ),
            };
        },
    };
    if !has_token_account(&account) {
        return TransferState::Failed {
            error: SpliffError::SolanaProgramError(
                "for ".to_owned().concat(address_to_string(&recipient).as_str()).concat(
                    " address, token account for ",
                ).concat(address_to_string(&token).as_str()).concat(" token not found"),
            ),
        };
    }
    let instruction = build_transfer(&sender_account, &recipient_account, &client.pubkey, amount);
    TransferState::AwaitingSubmit {
        plan: TransferPlan {
            token,
            sender,
            recipient,
            amount,
            sender_account,
            recipient_account,
            instruction,
        },
    }
}

/// Finishes a transfer once the planned transaction was signed and
/// submitted. A confirmation yields the [`TokenTransfer`] record with the
/// submitted transaction id; a blockhash or submission failure is a
/// [`SpliffError::SolanaAPIError`] and is reported verbatim.
pub fn transfer_token_on_submit(state: TransferState, outcome: SubmitOutcome) -> (r: TransferState)
    requires
        state is AwaitingSubmit,
        state.wf(),
    ensures
        r.wf(),
        state matches TransferState::AwaitingSubmit { plan } ==> {
            &&& (outcome matches SubmitOutcome::Confirmed(sig)
                ==> (r matches TransferState::Done { transfer } && transfer.token == plan.token
                && transfer.sender == plan.sender && transfer.recipient == plan.recipient
                && transfer.sender_account == plan.sender_account && transfer.recipient_account
                == plan.recipient_account && transfer.tx_signature == sig))
            &&& (outcome matches SubmitOutcome::BlockhashFailed(cause) ==> (
            r matches TransferState::Failed { error } && error matches SpliffError::SolanaAPIError(
                m,
            ) && m@ == "failed to calculate recent blockhash: "@ + cause@))
            &&& (outcome matches SubmitOutcome::SendFailed(cause) ==> (
            r matches TransferState::Failed { error } && error matches SpliffError::SolanaAPIError(
                m,
            ) && m@ == "failed while executing transaction: "@ + cause@))
        },
{
    let plan = match state {
        TransferState::AwaitingSubmit { plan } => plan,
        _ => unreached(),
    };
    match outcome {
        SubmitOutcome::Confirmed(sig) => TransferState::Done {
            transfer: TokenTransfer {
                sender: plan.sender,
                recipient: plan.recipient,
                token: plan.token,
                sender_account: plan.sender_account,
                recipient_account: plan.recipient_account,
                tx_signature: sig,
            },
        },
        SubmitOutcome::BlockhashFailed(msg) => TransferState::Failed {
            error: SpliffError::SolanaAPIError(
                "failed to calculate recent blockhash: ".to_owned().concat(msg.as_str()),
            ),
        },
        SubmitOutcome::SendFailed(msg) => TransferState::Failed {
            error: SpliffError::SolanaAPIError(
                "failed while executing transaction: ".to_owned().concat(msg.as_str()),
            ),
        },
    }
}

/// Relies on `solana_keypair::Keypair::new` and `solana_signer::Signer::pubkey`:
/// a fresh random signing credential and its 32-byte public identifier.
/// Nothing is assumed of the drawn value; two calls may differ.
#[verifier::external_body]
fn new_throwaway_signer() -> (r: (solana_keypair::Keypair, Address))
    ensures
        r.1.wf(),
{
    let keypair = solana_keypair::Keypair::new();
    let pubkey = solana_signer::Signer::pubkey(&keypair);
    (keypair, Address::from_raw(pubkey.to_bytes().to_vec()))
}

} // verus!
