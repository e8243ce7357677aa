use solana_account_decoder_client_types::token::{
    TokenAccountType, UiAccountState, UiTokenAccount, UiTokenAmount,
};
use solana_account_decoder_client_types::{ParsedAccount, UiAccount, UiAccountData, UiAccountEncoding};
use solana_rpc_client_api::response::RpcKeyedAccount;
use spliff::account::{list_tokens, parse_account};
use spliff::address::{address_to_string, derive_token_account, token_program_address, Address};
use spliff::amount::DecimalAmount;
use spliff::errors::SpliffError;
use spliff::state::SolanaClient;
use spliff::token::{
    create_token, create_token_on_rent_fee, create_token_on_submit, MintState, SubmitOutcome,
    TokenSupply,
};

fn addr(byte: u8) -> Address {
    Address::new(vec![byte; 32]).unwrap()
}

/// Builds the fetched row for a holding of `raw_amount` units of `token`
/// (with `decimals` places) in the account derived for `owner`.
fn token_account_row(owner: &Address, token: &Address, raw_amount: u64, decimals: u8) -> RpcKeyedAccount {
    let ui = raw_amount as f64 / 10f64.powi(decimals as i32);
    let holding = UiTokenAccount {
        mint: address_to_string(token),
        owner: address_to_string(owner),
        token_amount: UiTokenAmount {
            ui_amount: Some(ui),
            decimals,
            amount: raw_amount.to_string(),
            ui_amount_string: ui.to_string(),
        },
        delegate: None,
        state: UiAccountState::Initialized,
        is_native: false,
        rent_exempt_reserve: None,
        delegated_amount: None,
        close_authority: None,
        extensions: vec![],
    };
    let parsed = serde_json::to_value(TokenAccountType::Account(holding)).unwrap();
    let account = UiAccount {
        lamports: 2_039_280,
        data: UiAccountData::Json(ParsedAccount {
            program: "spl-token".to_string(),
            parsed,
            space: 165,
        }),
        owner: address_to_string(&token_program_address()),
        executable: false,
        rent_epoch: 0,
        space: Some(165),
    };
    RpcKeyedAccount { pubkey: address_to_string(&derive_token_account(owner, token)), account }
}

#[test]
fn parse_account_decodes_a_token_holding() {
    let owner = addr(1);
    let token = addr(2);
    let row = token_account_row(&owner, &token, 1_000_000_000, 6);
    let balance = parse_account(&row, &owner).unwrap();
    assert_eq!(balance.token_address, address_to_string(&token));
    assert_eq!(balance.token_account, address_to_string(&derive_token_account(&owner, &token)));
    assert_eq!(balance.balance, "1000.000000");
    assert_eq!(balance.owner_pubkey, address_to_string(&owner));
}

#[test]
fn parse_account_rejects_binary_payloads() {
    let owner = addr(1);
    let mut row = token_account_row(&owner, &addr(2), 10, 0);
    row.account.data = UiAccountData::Binary("AAAA".to_string(), UiAccountEncoding::Base64);
    match parse_account(&row, &owner) {
        Err(SpliffError::SolanaProgramError(msg)) => assert!(msg.contains("parse")),
        _ => panic!("expected SolanaProgramError"),
    }
}

#[test]
fn list_tokens_keeps_the_fetched_order() {
    let owner = addr(1);
    let token_a = addr(2);
    let token_b = addr(3);
    let rows = vec![
        token_account_row(&owner, &token_a, 150, 2),
        token_account_row(&owner, &token_b, 42, 0),
    ];
    let balances = list_tokens(Ok(rows), &owner).unwrap();
    assert_eq!(balances.len(), 2);
    assert_eq!(balances[0].token_address, address_to_string(&token_a));
    assert_eq!(balances[0].balance, "1.50");
    assert_eq!(balances[1].token_address, address_to_string(&token_b));
    assert_eq!(balances[1].balance, "42");
    for balance in &balances {
        assert_eq!(balance.owner_pubkey, address_to_string(&owner));
    }
}

#[test]
fn list_tokens_aborts_on_one_bad_record() {
    let owner = addr(1);
    let good = token_account_row(&owner, &addr(2), 10, 0);
    let mut bad = token_account_row(&owner, &addr(3), 10, 0);
    bad.account.data = UiAccountData::LegacyBinary("zzzz".to_string());
    match list_tokens(Ok(vec![good, bad]), &owner) {
        Err(SpliffError::SolanaProgramError(_)) => {}
        _ => panic!("expected SolanaProgramError"),
    }
}

#[test]
fn created_token_shows_up_in_a_later_listing() {
    let keypair = solana_keypair::Keypair::new();
    let pubkey = solana_signer::Signer::pubkey(&keypair);
    let operator = Address::new(pubkey.to_bytes().to_vec()).unwrap();
    let owner = operator.duplicate();
    let client = SolanaClient::new(keypair, operator);

    // request: supply 1000.0 with 6 decimals
    let request = TokenSupply { supply: DecimalAmount { mantissa: 10000, scale: 1 }, decimals: 6 };
    let state = create_token(request);
    let state = create_token_on_rent_fee(state, Ok(2_039_280), &client);
    let state = create_token_on_submit(state, SubmitOutcome::Confirmed("txid".to_string()));
    let minted = match state {
        MintState::Done { token } => token,
        _ => panic!("expected Done"),
    };
    assert_eq!(minted.mint_tx, "txid");
    let raw_amount = spliff::amount::checked_mint_amount(&minted.supply, minted.decimals).unwrap();
    assert_eq!(spliff::amount::amount_to_string(raw_amount), "1000000000");

    // the ledger would now return the minted holding for the operator
    let row = token_account_row(&owner, &minted.address, raw_amount, minted.decimals);
    let balances = list_tokens(Ok(vec![row]), &owner).unwrap();
    assert_eq!(balances.len(), 1);
    assert_eq!(balances[0].token_address, address_to_string(&minted.address));
    assert_eq!(
        balances[0].token_account,
        address_to_string(&minted.minter_token_account)
    );
    assert_eq!(balances[0].owner_pubkey, address_to_string(&owner));
}

#[test]
fn list_tokens_transport_failure_is_api_error() {
    let owner = addr(1);
    match list_tokens(Err("connection reset".to_string()), &owner) {
        Err(SpliffError::SolanaAPIError(msg)) => {
            assert_eq!(msg, "failed to list token accounts: connection reset");
        }
        _ => panic!("expected SolanaAPIError"),
    }
}

#[test]
fn list_tokens_of_no_accounts_is_an_empty_listing() {
    let owner = addr(1);
    let balances = list_tokens(Ok(vec![]), &owner).unwrap();
    assert!(balances.is_empty());
}
