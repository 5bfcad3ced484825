use anchor_lang::prelude::Pubkey as ChainKey;
use mvote::address::{
    config_address, find_address, is_derivation, is_derived_address, mint_address, poll_address,
    user_address, vault_address, vote_address, Pubkey,
};
use mvote::{id, ID_BYTES};

fn chain_id() -> ChainKey {
    ChainKey::new_from_array(ID_BYTES)
}

fn user_a() -> Pubkey {
    Pubkey::new_from_array([7u8; 32])
}

fn user_b() -> Pubkey {
    Pubkey::new_from_array([9u8; 32])
}

#[test]
fn program_id_has_its_base58_name() {
    assert_eq!(
        chain_id().to_string(),
        "5BWRzdnfyupL8h4MpdHVgZT5bibUeLq85qrDUsu7QVmZ"
    );
    assert_eq!(id().to_bytes(), ID_BYTES);
}

#[test]
fn pubkey_equality_is_by_bytes() {
    let mut bytes = [3u8; 32];
    let a = Pubkey::new_from_array(bytes);
    let b = Pubkey::new_from_array(bytes);
    assert!(a == b);
    bytes[31] = 4;
    let c = Pubkey::new_from_array(bytes);
    assert!(a != c);
    assert_eq!(Pubkey::default().to_bytes(), [0u8; 32]);
}

#[test]
fn config_address_is_what_the_chain_derives() {
    let (expected, bump) = ChainKey::find_program_address(&[b"config"], &chain_id());
    let (address, found_bump) = config_address(&id()).unwrap();
    assert_eq!(address.to_bytes(), expected.to_bytes());
    assert_eq!(found_bump, bump);
    assert!(address != id());
}

#[test]
fn mint_and_vault_addresses_are_what_the_chain_derives() {
    let (mint, mint_bump) = ChainKey::find_program_address(&[b"mint"], &chain_id());
    let (vault, vault_bump) = ChainKey::find_program_address(&[b"vault"], &chain_id());
    let found_mint = mint_address(&id()).unwrap();
    let found_vault = vault_address(&id()).unwrap();
    assert_eq!(found_mint.0.to_bytes(), mint.to_bytes());
    assert_eq!(found_mint.1, mint_bump);
    assert_eq!(found_vault.0.to_bytes(), vault.to_bytes());
    assert_eq!(found_vault.1, vault_bump);
    assert!(found_mint.0 != found_vault.0);
}

#[test]
fn user_address_is_what_the_chain_derives() {
    let user = user_a();
    let (expected, bump) =
        ChainKey::find_program_address(&[b"user", &user.to_bytes()], &chain_id());
    let (address, found_bump) = user_address(&id(), &user).unwrap();
    assert_eq!(address.to_bytes(), expected.to_bytes());
    assert_eq!(found_bump, bump);
    assert!(address != user);
    let (other, _) = user_address(&id(), &user_b()).unwrap();
    assert!(address != other);
}

#[test]
fn poll_address_takes_the_ordinal_in_little_endian() {
    let poll_id: u64 = 0x0102_0304_0506_0708;
    let (expected, bump) =
        ChainKey::find_program_address(&[b"poll", &poll_id.to_le_bytes()], &chain_id());
    let (address, found_bump) = poll_address(&id(), poll_id).unwrap();
    assert_eq!(address.to_bytes(), expected.to_bytes());
    assert_eq!(found_bump, bump);
    let (zero, _) = poll_address(&id(), 0).unwrap();
    let (one, _) = poll_address(&id(), 1).unwrap();
    assert!(zero != one);
}

#[test]
fn vote_address_depends_on_poll_and_voter() {
    let voter = user_a();
    let (expected, bump) = ChainKey::find_program_address(
        &[b"vote", &5u64.to_le_bytes(), &voter.to_bytes()],
        &chain_id(),
    );
    let (address, found_bump) = vote_address(&id(), 5, &voter).unwrap();
    assert_eq!(address.to_bytes(), expected.to_bytes());
    assert_eq!(found_bump, bump);
    let (other_poll, _) = vote_address(&id(), 6, &voter).unwrap();
    let (other_voter, _) = vote_address(&id(), 5, &user_b()).unwrap();
    assert!(address != other_poll);
    assert!(address != other_voter);
}

#[test]
fn derivation_is_deterministic() {
    assert_eq!(
        vote_address(&id(), 5, &user_a()).map(|(a, b)| (a.to_bytes(), b)),
        vote_address(&id(), 5, &user_a()).map(|(a, b)| (a.to_bytes(), b))
    );
    let seeds = vec![b"config".to_vec()];
    assert_eq!(
        find_address(&seeds, &id()).map(|(a, b)| (a.to_bytes(), b)),
        config_address(&id()).map(|(a, b)| (a.to_bytes(), b))
    );
}

#[test]
fn derivation_depends_on_the_program() {
    let other_program = Pubkey::new_from_array([1u8; 32]);
    let (here, _) = config_address(&id()).unwrap();
    let (there, _) = config_address(&other_program).unwrap();
    assert!(here != there);
}

#[test]
fn derivation_finds_nothing_for_too_many_or_too_long_seeds() {
    let sixteen: Vec<Vec<u8>> = (0..16u8).map(|i| vec![i]).collect();
    assert!(find_address(&sixteen, &id()).is_none());
    let fifteen: Vec<Vec<u8>> = (0..15u8).map(|i| vec![i]).collect();
    assert!(find_address(&fifteen, &id()).is_some());
    let long = vec![vec![0u8; 33]];
    assert!(find_address(&long, &id()).is_none());
    let longest = vec![vec![0u8; 32]];
    assert!(find_address(&longest, &id()).is_some());
}

#[test]
fn is_derivation_compares_address_and_nonce() {
    let found = config_address(&id());
    let (address, bump) = found.unwrap();
    assert!(is_derivation(found, &address, bump));
    assert!(!is_derivation(found, &address, bump.wrapping_sub(1)));
    assert!(!is_derivation(found, &user_a(), bump));
    assert!(!is_derivation(None, &address, bump));
    assert!(is_derived_address(found, &address));
    assert!(!is_derived_address(found, &user_a()));
    assert!(!is_derived_address(None, &address));
}
