use mansa_musa::keys::Pubkey;
use mansa_musa::mansa_musa::{
    distribute_airdrop, initialize, purchase_tokens, release_dev_funds, whitelist_user, ErrorCode, State,
};
use mansa_musa::whitelist::Whitelist;

fn key(b: u8) -> Pubkey {
    Pubkey::new_from_array([b; 32])
}

fn state() -> State {
    let mut s = State { total_supply: 0, airdrop_amount: 0, liquidity: 0, dev_fund: 0, whitelisted: Whitelist::new() };
    initialize(&mut s, 1_000_000_000_000).unwrap();
    s
}

#[test]
fn initialize_sets_allocations() {
    let s = state();
    assert_eq!(s.total_supply, 1_000_000_000_000);
    assert_eq!(s.airdrop_amount, 200_000_000_000);
    assert_eq!(s.liquidity, 100_000_000_000);
    assert_eq!(s.dev_fund, 100_000_000_000);
    assert_eq!(s.whitelisted.len(), 0);
}

#[test]
fn airdrop_needs_whitelisted_owner() {
    let mut s = state();
    assert!(matches!(distribute_airdrop(&s, &key(1), 50), Err(ErrorCode::NotWhitelisted)));
    whitelist_user(&mut s, key(1)).unwrap();
    assert!(matches!(distribute_airdrop(&s, &key(1), 50), Ok(50)));
    assert!(matches!(distribute_airdrop(&s, &key(2), 50), Err(ErrorCode::NotWhitelisted)));
}

#[test]
fn purchase_draws_on_liquidity() {
    let mut s = state();
    assert!(purchase_tokens(&mut s, 40_000_000_000, 3).is_ok());
    assert_eq!(s.liquidity, 60_000_000_000);
    assert!(matches!(purchase_tokens(&mut s, 60_000_000_001, 3), Err(ErrorCode::InsufficientLiquidity)));
    assert_eq!(s.liquidity, 60_000_000_000);
    assert!(purchase_tokens(&mut s, 60_000_000_000, 3).is_ok());
    assert_eq!(s.liquidity, 0);
}

#[test]
fn release_dev_funds_succeeds() {
    let s = state();
    assert!(release_dev_funds(&s).is_ok());
    assert_eq!(s.dev_fund, 100_000_000_000);
}
