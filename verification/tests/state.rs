//! Tests of the record layout and the escrow address derivation.

use paladin_lockup::state::get_escrow_authority_address;
use paladin_lockup::state::get_escrow_authority_address_and_bump_seed;
use paladin_lockup::state::lockup_from_bytes;
use paladin_lockup::state::lockup_to_bytes;
use paladin_lockup::state::Lockup;
use paladin_lockup::state::Pubkey;
use paladin_lockup::state::LOCKUP_DISCRIMINATOR;
use paladin_lockup::state::LOCKUP_LEN;

fn key(tag: u8) -> Pubkey {
    let mut bytes = [0u8; 32];
    bytes[0] = tag;
    bytes[31] = tag;
    Pubkey { bytes }
}

#[test]
fn discriminator_is_hash_prefix() {
    let hash = solana_program::hash::hashv(&[b"lockup::state::lockup"]);
    assert_eq!(&hash.to_bytes()[0..8], &LOCKUP_DISCRIMINATOR);
}

#[test]
fn record_roundtrip_locked() {
    let record = Lockup {
        amount: 10_000,
        authority: key(1),
        lockup_start_timestamp: 123_456,
        lockup_end_timestamp: None,
        mint: key(2),
    };
    let data = lockup_to_bytes(&record);
    assert_eq!(data.len(), LOCKUP_LEN);
    let parsed = lockup_from_bytes(&data);
    assert_eq!(parsed.amount, 10_000);
    assert_eq!(parsed.authority, key(1));
    assert_eq!(parsed.lockup_start_timestamp, 123_456);
    assert_eq!(parsed.lockup_end_timestamp, None);
    assert_eq!(parsed.mint, key(2));
}

#[test]
fn record_roundtrip_unlocking() {
    let record = Lockup {
        amount: u64::MAX,
        authority: key(3),
        lockup_start_timestamp: 0,
        lockup_end_timestamp: Some(u64::MAX),
        mint: key(4),
    };
    let data = lockup_to_bytes(&record);
    let parsed = lockup_from_bytes(&data);
    assert_eq!(parsed.amount, u64::MAX);
    assert_eq!(parsed.lockup_end_timestamp, Some(u64::MAX));
}

#[test]
fn record_layout_exact() {
    let record = Lockup {
        amount: 0x0102030405060708,
        authority: key(9),
        lockup_start_timestamp: 0x1112131415161718,
        lockup_end_timestamp: Some(0x2122232425262728),
        mint: key(7),
    };
    let data = lockup_to_bytes(&record);
    assert_eq!(&data[0..8], &LOCKUP_DISCRIMINATOR);
    assert_eq!(&data[8..16], &0x0102030405060708u64.to_le_bytes());
    assert_eq!(&data[16..48], &key(9).bytes);
    assert_eq!(&data[48..56], &0x1112131415161718u64.to_le_bytes());
    assert_eq!(&data[56..64], &0x2122232425262728u64.to_le_bytes());
    assert_eq!(&data[64..96], &key(7).bytes);
}

#[test]
fn no_deadline_is_stored_as_zero() {
    let record = Lockup {
        amount: 1,
        authority: key(1),
        lockup_start_timestamp: 5,
        lockup_end_timestamp: None,
        mint: key(2),
    };
    let data = lockup_to_bytes(&record);
    assert_eq!(&data[56..64], &[0u8; 8]);
}

#[test]
fn escrow_authority_matches_host_derivation() {
    let program_id = key(11);
    let (address, bump) = get_escrow_authority_address_and_bump_seed(&program_id).unwrap();
    let (expected, expected_bump) = solana_program::pubkey::Pubkey::find_program_address(
        &[b"escrow_authority"],
        &solana_program::pubkey::Pubkey::new_from_array(program_id.bytes),
    );
    assert_eq!(address.bytes, expected.to_bytes());
    assert_eq!(bump, expected_bump);
    assert_eq!(get_escrow_authority_address(&program_id).unwrap(), address);
}

#[test]
fn escrow_authority_differs_per_program() {
    let a = get_escrow_authority_address(&key(1)).unwrap();
    let b = get_escrow_authority_address(&key(2)).unwrap();
    assert_ne!(a, b);
}

#[test]
fn pubkey_equality_is_by_bytes() {
    assert_eq!(key(5), key(5));
    assert_ne!(key(5), key(6));
}
