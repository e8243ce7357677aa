use spliff::address::{
    address_to_string, derive_token_account, parse_address, token_program_address, Address,
};
use spliff::errors::SpliffError;

const SYSTEM_PROGRAM_BASE58: &str = "11111111111111111111111111111111";
const TOKEN_PROGRAM_BASE58: &str = "TokenkegQfeZyiNwAJbNbGKPFXCWuBvf9Ss623VQ5DA";

fn addr(byte: u8) -> Address {
    Address::new(vec![byte; 32]).unwrap()
}

#[test]
fn parse_address_decodes_known_strings() {
    let zero = parse_address(SYSTEM_PROGRAM_BASE58).unwrap();
    assert_eq!(zero.as_bytes().as_slice(), &[0u8; 32]);

    let token_program = parse_address(TOKEN_PROGRAM_BASE58).unwrap();
    assert_eq!(
        token_program.as_bytes().as_slice(),
        token_program_address().as_bytes().as_slice()
    );
}

#[test]
fn parse_address_rejects_invalid_strings() {
    for bad in ["", "not-base58!!", "abc", "0OIl"] {
        match parse_address(bad) {
            Err(SpliffError::InputError(msg)) => assert!(!msg.is_empty()),
            Err(other) => panic!("expected InputError, got {:?}", other),
            Ok(_) => panic!("expected InputError, got a parsed address"),
        }
    }
}

#[test]
fn address_to_string_encodes_known_bytes() {
    let zero = addr(0);
    assert_eq!(address_to_string(&zero), SYSTEM_PROGRAM_BASE58);
    let token_program = token_program_address();
    assert_eq!(address_to_string(&token_program), TOKEN_PROGRAM_BASE58);
}

#[test]
fn address_round_trip() {
    let a = addr(7);
    let text = address_to_string(&a);
    let back = parse_address(&text).unwrap();
    assert_eq!(back.as_bytes(), a.as_bytes());
}

#[test]
fn address_new_rejects_wrong_length() {
    assert!(matches!(Address::new(vec![1u8; 31]), Err(SpliffError::InputError(_))));
    assert!(matches!(Address::new(vec![1u8; 33]), Err(SpliffError::InputError(_))));
    assert!(Address::new(vec![1u8; 32]).is_ok());
}

#[test]
fn derive_token_account_is_deterministic() {
    let owner = addr(1);
    let token = addr(2);
    let first = derive_token_account(&owner, &token);
    let second = derive_token_account(&owner, &token);
    assert_eq!(first.as_bytes(), second.as_bytes());
}

#[test]
fn derive_token_account_distinct_inputs_differ() {
    let owner = addr(1);
    let token_a = addr(2);
    let token_b = addr(3);
    let owner_b = addr(4);
    let base = derive_token_account(&owner, &token_a);
    assert_ne!(base.as_bytes(), derive_token_account(&owner, &token_b).as_bytes());
    assert_ne!(base.as_bytes(), derive_token_account(&owner_b, &token_a).as_bytes());
}

#[test]
fn derive_token_account_matches_solana_derivation() {
    let owner = addr(11);
    let token = addr(22);
    let derived = derive_token_account(&owner, &token);

    let owner_pk = solana_pubkey::Pubkey::try_from(owner.as_bytes().as_slice()).unwrap();
    let token_pk = solana_pubkey::Pubkey::try_from(token.as_bytes().as_slice()).unwrap();
    let expected = spl_associated_token_account_client::address::get_associated_token_address(
        &owner_pk, &token_pk,
    );
    assert_eq!(derived.as_bytes().as_slice(), expected.to_bytes().as_slice());
}

#[test]
fn token_program_address_matches_spl() {
    assert_eq!(
        token_program_address().as_bytes().as_slice(),
        spl_token::id().to_bytes().as_slice()
    );
}

#[test]
fn address_equals_compares_bytes() {
    assert!(addr(5).equals(&addr(5)));
    assert!(!addr(5).equals(&addr(6)));
    let copy = addr(5).duplicate();
    assert!(copy.equals(&addr(5)));
}
