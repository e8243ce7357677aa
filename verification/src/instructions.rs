//! Ledger instructions as plain data, and the trusted builders that produce
//! them.
//!
//! The engine keeps every instruction it plans as an [`InstructionData`]:
//! the target program, the ordered account references and the raw
//! instruction bytes, all as plain values the contracts can speak about.
//! What each builder returns is named by an uninterpreted spec function, so
//! that the engine's contracts pin exactly which instruction stands at which
//! position of a transaction.

use vstd::prelude::*;

use crate::address::Address;

verus! {

/// The instruction type of the Solana libraries, carried opaquely.
#[verifier::external_type_specification]
#[verifier::external_body]
pub struct ExInstruction(solana_instruction::Instruction);

/// One account referenced by an instruction, with its access flags.
pub struct AccountMeta {
    pub pubkey: Address,
    pub is_signer: bool,
    pub is_writable: bool,
}

/// The mathematical shape of an [`AccountMeta`].
pub struct AccountMetaView {
    pub pubkey: Seq<u8>,
    pub is_signer: bool,
    pub is_writable: bool,
}

impl View for AccountMeta {
    type V = AccountMetaView;

    open spec fn view(&self) -> AccountMetaView {
        AccountMetaView { pubkey: self.pubkey@, is_signer: self.is_signer, is_writable: self.is_writable }
    }
}

/// One atomic unit of ledger-program execution, as plain data: the program
/// that runs it, the accounts it touches in order, and its payload bytes.
pub struct InstructionData {
    pub program: Address,
    pub accounts: Vec<AccountMeta>,
    pub data: Vec<u8>,
}

/// The mathematical shape of an [`InstructionData`].
pub struct InstructionView {
    pub program: Seq<u8>,
    pub accounts: Seq<AccountMetaView>,
    pub data: Seq<u8>,
}

impl View for InstructionData {
    type V = InstructionView;

    open spec fn view(&self) -> InstructionView {
        InstructionView {
            program: self.program@,
            accounts: self.accounts@.map_values(|m: AccountMeta| m@),
            data: self.data@,
        }
    }
}

/// The instruction that allocates a fresh account of `space` bytes at
/// `new_account`, funded by `payer` with `lamports`, owned by
/// `owner_program`.
pub uninterp spec fn create_account_instr(
    payer: Seq<u8>,
    new_account: Seq<u8>,
    lamports: u64,
    space: u64,
    owner_program: Seq<u8>,
) -> InstructionView;

/// The instruction that initializes the account at `token` as a token-type
/// record with `decimals` decimal places and `authority` as mint authority
/// and no freeze authority.
pub uninterp spec fn initialize_mint_instr(
    token: Seq<u8>,
    authority: Seq<u8>,
    decimals: u8,
) -> InstructionView;

/// The instruction that creates the associated token account of `wallet`
/// for `token`, funded by `funder`.
pub uninterp spec fn create_associated_account_instr(
    funder: Seq<u8>,
    wallet: Seq<u8>,
    token: Seq<u8>,
) -> InstructionView;

/// The instruction that mints `amount` raw units of `token` (checked
/// against `decimals`) into `destination`, authorized by `authority`.
pub uninterp spec fn mint_to_instr(
    token: Seq<u8>,
    destination: Seq<u8>,
    authority: Seq<u8>,
    amount: u64,
    decimals: u8,
) -> InstructionView;

/// The instruction that moves `amount` raw token units from `source` to
/// `destination`, authorized by `authority`.
pub uninterp spec fn transfer_instr(
    source: Seq<u8>,
    destination: Seq<u8>,
    authority: Seq<u8>,
    amount: u64,
) -> InstructionView;

/// Relies on `solana_system_interface::instruction::create_account`: the
/// system-program instruction allocating `new_account` with `space` bytes
/// and `lamports` funding from `payer`, owned by `owner_program`. The
/// builder is total.
#[verifier::external_body]
pub(crate) fn build_create_account(
    payer: &Address,
    new_account: &Address,
    lamports: u64,
    space: u64,
    owner_program: &Address,
) -> (r: InstructionData)
    requires
        payer.wf(),
        new_account.wf(),
        owner_program.wf(),
    ensures
        r@ == create_account_instr(payer@, new_account@, lamports, space, owner_program@),
{
    let from = solana_pubkey::Pubkey::try_from(payer.as_bytes().as_slice()).unwrap();
    let to = solana_pubkey::Pubkey::try_from(new_account.as_bytes().as_slice()).unwrap();
    let owner = solana_pubkey::Pubkey::try_from(owner_program.as_bytes().as_slice()).unwrap();
    let ins = solana_system_interface::instruction::create_account(&from, &to, lamports, space, &owner);
    instruction_parts(ins)
}

/// Relies on `spl_token::instruction::initialize_mint`, called with the SPL
/// token program id, for which its only failure check always passes: the
/// instruction initializing `token` as a mint with `authority` as mint
/// authority, no freeze authority, and `decimals` decimal places.
#[verifier::external_body]
pub(crate) fn build_initialize_mint(token: &Address, authority: &Address, decimals: u8) -> (r:
    InstructionData)
    requires
        token.wf(),
        authority.wf(),
    ensures
        r@ == initialize_mint_instr(token@, authority@, decimals),
{
    let mint = solana_pubkey::Pubkey::try_from(token.as_bytes().as_slice()).unwrap();
    let auth = solana_pubkey::Pubkey::try_from(authority.as_bytes().as_slice()).unwrap();
    let ins = spl_token::instruction::initialize_mint(&spl_token::id(), &mint, &auth, None, decimals)
        .unwrap();
    instruction_parts(ins)
}

/// Relies on
/// `spl_associated_token_account_client::instruction::create_associated_token_account`,
/// called with the SPL token program id: the instruction allocating the
/// associated token account of `wallet` for `token`, funded by `funder`.
/// The builder is total.
#[verifier::external_body]
pub(crate) fn build_create_associated_account(
    funder: &Address,
    wallet: &Address,
    token: &Address,
) -> (r: InstructionData)
    requires
        funder.wf(),
        wallet.wf(),
        token.wf(),
    ensures
        r@ == create_associated_account_instr(funder@, wallet@, token@),
{
    let f = solana_pubkey::Pubkey::try_from(funder.as_bytes().as_slice()).unwrap();
    let w = solana_pubkey::Pubkey::try_from(wallet.as_bytes().as_slice()).unwrap();
    let t = solana_pubkey::Pubkey::try_from(token.as_bytes().as_slice()).unwrap();
    let ins = spl_associated_token_account_client::instruction::create_associated_token_account(
        &f, &w, &t, &spl_token::id(),
    );
    instruction_parts(ins)
}

/// Relies on `spl_token::instruction::mint_to_checked`, called with the SPL
/// token program id, for which its only failure check always passes: the
/// instruction minting `amount` raw units of `token` into `destination`,
/// checked against `decimals`, signed by `authority` and the token itself.
#[verifier::external_body]
pub(crate) fn build_mint_to(
    token: &Address,
    destination: &Address,
    authority: &Address,
    amount: u64,
    decimals: u8,
) -> (r: InstructionData)
    requires
        token.wf(),
        destination.wf(),
        authority.wf(),
    ensures
        r@ == mint_to_instr(token@, destination@, authority@, amount, decimals),
{
    let mint = solana_pubkey::Pubkey::try_from(token.as_bytes().as_slice()).unwrap();
    let dest = solana_pubkey::Pubkey::try_from(destination.as_bytes().as_slice()).unwrap();
    let auth = solana_pubkey::Pubkey::try_from(authority.as_bytes().as_slice()).unwrap();
    let ins = spl_token::instruction::mint_to_checked(
        &spl_token::id(), &mint, &dest, &auth, &[&auth, &mint], amount, decimals,
    ).unwrap();
    instruction_parts(ins)
}

/// Relies on `spl_token::instruction::transfer`, called with the SPL token
/// program id, for which its only failure check always passes: the
/// instruction moving `amount` raw units from `source` to `destination`,
/// signed by `authority` alone.
#[verifier::external_body]
pub(crate) fn build_transfer(
    source: &Address,
    destination: &Address,
    authority: &Address,
    amount: u64,
) -> (r: InstructionData)
    requires
        source.wf(),
        destination.wf(),
        authority.wf(),
    ensures
        r@ == transfer_instr(source@, destination@, authority@, amount),
{
    let src = solana_pubkey::Pubkey::try_from(source.as_bytes().as_slice()).unwrap();
    let dest = solana_pubkey::Pubkey::try_from(destination.as_bytes().as_slice()).unwrap();
    let auth = solana_pubkey::Pubkey::try_from(authority.as_bytes().as_slice()).unwrap();
    #[allow(deprecated)]
    let ins = spl_token::instruction::transfer(
        &spl_token::id(), &src, &dest, &auth, &[&auth], amount,
    ).unwrap();
    instruction_parts(ins)
}

/// Relies on the public fields of `solana_instruction::Instruction`: copies
/// the program id, account references and payload bytes of a built
/// instruction into plain data, changing nothing.
#[verifier::external_body]
fn instruction_parts(ins: solana_instruction::Instruction) -> (r: InstructionData)
{
    InstructionData {
        program: Address::from_raw(ins.program_id.to_bytes().to_vec()),
        accounts: ins.accounts.iter().map(|m| AccountMeta {
            pubkey: Address::from_raw(m.pubkey.to_bytes().to_vec()),
            is_signer: m.is_signer,
            is_writable: m.is_writable,
        }).collect(),
        data: ins.data,
    }
}

/// Relies on the packed length of `spl_token::state::Mint`: a token-type
/// record occupies exactly 82 bytes on the ledger.
#[verifier::external_body]
pub fn mint_record_len() -> (r: u64)
    ensures
        r == 82,
{
    <spl_token::state::Mint as spl_token::solana_program::program_pack::Pack>::LEN as u64
}

} // verus!
