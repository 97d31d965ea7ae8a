use anchor_amm::authority::{Address, TransferAuthority};
use anchor_amm::state::PoolState;

fn address(tag: u8) -> Address {
    Address { bytes: [tag; 32] }
}

fn pool_state(seed: u64, bump: u8) -> PoolState {
    PoolState {
        asset_x: address(10),
        asset_y: address(11),
        fee_rate_bps: 30,
        locked: false,
        authority_seed: seed,
        authority_bump: bump,
        derived_authority: address(9),
    }
}

#[test]
fn equal_addresses_are_the_same() {
    assert!(address(7).same(&address(7)));
    assert!(address(0).same(&Address { bytes: [0; 32] }));
}

#[test]
fn addresses_differing_in_one_byte_are_not_the_same() {
    let base = address(7);
    let mut first = base;
    first.bytes[0] = 8;
    let mut last = base;
    last.bytes[31] = 8;
    let mut middle = base;
    middle.bytes[16] = 6;
    assert!(!base.same(&first));
    assert!(!base.same(&last));
    assert!(!base.same(&middle));
    assert!(!first.same(&last));
}

#[test]
fn user_authority_signs_as_the_owner_without_seeds() {
    let authority = TransferAuthority::User { owner: address(1) };
    assert_eq!(authority.signer(), address(1));
    assert!(authority.authorizes(&address(1)));
    assert!(!authority.authorizes(&address(2)));
    assert!(authority.signer_seeds().is_empty());
}

#[test]
fn pool_authority_is_built_from_the_stored_seed_and_bump() {
    let state = pool_state(0x0102_0304_0506_0708, 254);
    let authority = state.authority();
    assert_eq!(
        authority,
        TransferAuthority::Pool { identity: address(9), seed: 0x0102_0304_0506_0708, bump: 254 }
    );
    assert_eq!(authority.signer(), address(9));
    assert!(authority.authorizes(&address(9)));
    assert!(!authority.authorizes(&address(1)));
}

#[test]
fn pool_authority_presents_tag_seed_and_bump() {
    let authority = pool_state(0x0102_0304_0506_0708, 254).authority();
    let seeds = authority.signer_seeds();
    assert_eq!(seeds.len(), 3);
    assert_eq!(seeds[0], b"config".to_vec());
    assert_eq!(seeds[1], vec![8u8, 7, 6, 5, 4, 3, 2, 1]);
    assert_eq!(seeds[1], 0x0102_0304_0506_0708u64.to_le_bytes().to_vec());
    assert_eq!(seeds[2], vec![254u8]);
}

#[test]
fn pool_authority_seeds_for_extreme_values() {
    let seeds = pool_state(0, 0).authority().signer_seeds();
    assert_eq!(seeds[1], vec![0u8; 8]);
    assert_eq!(seeds[2], vec![0u8]);
    let seeds = pool_state(u64::MAX, 255).authority().signer_seeds();
    assert_eq!(seeds[1], vec![255u8; 8]);
    assert_eq!(seeds[2], vec![255u8]);
    let seeds = pool_state(1, 1).authority().signer_seeds();
    assert_eq!(seeds[1], vec![1u8, 0, 0, 0, 0, 0, 0, 0]);
}

#[test]
fn pool_state_is_well_formed_up_to_a_full_fee() {
    let mut state = pool_state(1, 255);
    assert!(state.is_well_formed());
    state.fee_rate_bps = 0;
    assert!(state.is_well_formed());
    state.fee_rate_bps = 10_000;
    assert!(state.is_well_formed());
    state.fee_rate_bps = 10_001;
    assert!(!state.is_well_formed());
    state.fee_rate_bps = u16::MAX;
    assert!(!state.is_well_formed());
}
