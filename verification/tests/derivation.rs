//! The derived addresses: determinism, distinctness, and agreement with the
//! ledger runtime's own derivation.

use voix::constants::{ASSOCIATED_TOKEN_PROGRAM_ID, PROGRAM_ID, TOKEN_METADATA_PROGRAM_ID};
use voix::pda::{
    derive_associated_token_address, derive_config_address, derive_master_edition_address,
    derive_metadata_address, derive_mint_authority_address, derive_user_address,
};
use voix::pubkey::Pubkey;

fn pk(byte: u8) -> Pubkey {
    Pubkey::new_from_array([byte; 32])
}

#[test]
fn config_address_matches_runtime_derivation() {
    let (addr, bump) = derive_config_address().unwrap();
    let program = anchor_lang::prelude::Pubkey::new_from_array(PROGRAM_ID);
    let (expected, expected_bump) =
        anchor_lang::prelude::Pubkey::find_program_address(&[b"config"], &program);
    assert_eq!(addr.bytes, expected.to_bytes());
    assert_eq!(bump, expected_bump);
}

#[test]
fn user_address_matches_runtime_derivation() {
    let owner = pk(42);
    let (addr, bump) = derive_user_address(&owner).unwrap();
    let program = anchor_lang::prelude::Pubkey::new_from_array(PROGRAM_ID);
    let (expected, expected_bump) =
        anchor_lang::prelude::Pubkey::find_program_address(&[b"user", &owner.bytes], &program);
    assert_eq!(addr.bytes, expected.to_bytes());
    assert_eq!(bump, expected_bump);
}

#[test]
fn mint_authority_address_matches_runtime_derivation() {
    let (addr, bump) = derive_mint_authority_address().unwrap();
    let program = anchor_lang::prelude::Pubkey::new_from_array(PROGRAM_ID);
    let (expected, expected_bump) =
        anchor_lang::prelude::Pubkey::find_program_address(&[b"mint_authority"], &program);
    assert_eq!(addr.bytes, expected.to_bytes());
    assert_eq!(bump, expected_bump);
}

#[test]
fn associated_token_address_matches_runtime_derivation() {
    let owner = pk(5);
    let mint = pk(6);
    let (addr, _bump) = derive_associated_token_address(&owner, &mint).unwrap();
    let ata_program = anchor_lang::prelude::Pubkey::new_from_array(ASSOCIATED_TOKEN_PROGRAM_ID);
    let token_program =
        anchor_lang::prelude::Pubkey::new_from_array(voix::constants::TOKEN_PROGRAM_ID);
    let (expected, _eb) = anchor_lang::prelude::Pubkey::find_program_address(
        &[&owner.bytes, &token_program.to_bytes(), &mint.bytes],
        &ata_program,
    );
    assert_eq!(addr.bytes, expected.to_bytes());
}

#[test]
fn metadata_addresses_match_runtime_derivation() {
    let mint = pk(9);
    let mpl = anchor_lang::prelude::Pubkey::new_from_array(TOKEN_METADATA_PROGRAM_ID);
    let (meta, _b1) = derive_metadata_address(&mint).unwrap();
    let (expected_meta, _e1) = anchor_lang::prelude::Pubkey::find_program_address(
        &[b"metadata", &mpl.to_bytes(), &mint.bytes],
        &mpl,
    );
    assert_eq!(meta.bytes, expected_meta.to_bytes());

    let (edition, _b2) = derive_master_edition_address(&mint).unwrap();
    let (expected_edition, _e2) = anchor_lang::prelude::Pubkey::find_program_address(
        &[b"metadata", &mpl.to_bytes(), &mint.bytes, b"edition"],
        &mpl,
    );
    assert_eq!(edition.bytes, expected_edition.to_bytes());
}

#[test]
fn derivation_is_deterministic_and_owner_sensitive() {
    let a1 = derive_user_address(&pk(1)).unwrap();
    let a2 = derive_user_address(&pk(1)).unwrap();
    let b = derive_user_address(&pk(2)).unwrap();
    assert_eq!(a1.0.bytes, a2.0.bytes);
    assert_eq!(a1.1, a2.1);
    assert_ne!(a1.0.bytes, b.0.bytes);
    // The derived address is a digest, not any of its inputs handed back.
    assert_ne!(a1.0.bytes, pk(1).bytes);
    assert_ne!(a1.0.bytes, PROGRAM_ID);
}

#[test]
fn pubkey_matches_is_byte_equality() {
    assert!(pk(1).matches(&pk(1)));
    assert!(!pk(1).matches(&pk(2)));
    let mut bytes = [3u8; 32];
    bytes[31] = 4;
    assert!(!pk(3).matches(&Pubkey::new_from_array(bytes)));
}
