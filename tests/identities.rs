use std::str::FromStr;

use anchor_lang::prelude::Pubkey;
use anchor_lang::solana_program::ed25519_program;
use mitama::address::Address;
use mitama::signature::ed25519_program_id;
use mitama::token_mints::{is_stablecoin, usdc_devnet, usdc_mainnet, usdt_mainnet};

fn bytes_of(base58: &str) -> [u8; 32] {
    Pubkey::from_str(base58).unwrap().to_bytes()
}

#[test]
fn stablecoin_mints_match_their_published_keys() {
    assert_eq!(usdc_mainnet().bytes, bytes_of("EPjFWdd5AufqSSqeM2qN1xzybapC8G4wEGGkZwyTDt1v"));
    assert_eq!(usdt_mainnet().bytes, bytes_of("Es9vMFrzaCERmJfrF4H2FYD4KCoNkY11McCe8BenwNYB"));
    assert_eq!(usdc_devnet().bytes, bytes_of("Gh9ZwEmdLJ8DscKNTkTqPbNwLNNBjuSzaG9Vn2KGtKJr"));
}

#[test]
fn ed25519_program_id_matches_the_runtime() {
    assert_eq!(ed25519_program_id().bytes, ed25519_program::ID.to_bytes());
}

#[test]
fn stablecoin_recognition() {
    assert!(is_stablecoin(&usdc_mainnet()));
    assert!(is_stablecoin(&usdt_mainnet()));
    assert!(is_stablecoin(&usdc_devnet()));
    assert!(!is_stablecoin(&Address::new([0; 32])));
    let mut near = usdc_mainnet();
    near.bytes[31] ^= 1;
    assert!(!is_stablecoin(&near));
}

#[test]
fn addresses_compare_by_every_byte() {
    let a = Address::new([9; 32]);
    let mut b = Address::new([9; 32]);
    assert!(a.same_as(&b) && a == b);
    b.bytes[0] = 8;
    assert!(!a.same_as(&b) && a != b);
    let mut c = Address::new([9; 32]);
    c.bytes[31] = 0;
    assert!(!a.same_as(&c));
}
