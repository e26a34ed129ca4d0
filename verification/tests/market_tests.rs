use mansa_musa::programs::liquidity::{self, LiquidityState};
use mansa_musa::programs::presale::{buy_tokens, price_per_token, ErrorCode, PresaleAccount, PRESALE_CAP, TIER_SIZE};
use mansa_musa::programs::token::{self, MINT_DECIMALS};

#[test]
fn liquidity_initialize() {
    let mut s = LiquidityState { total_liquidity: 1, sold_tokens: 2 };
    assert!(liquidity::initialize(&mut s, 100_000_000_000).is_ok());
    assert_eq!(s.total_liquidity, 100_000_000_000);
    assert_eq!(s.sold_tokens, 0);
}

#[test]
fn liquidity_purchase_moves_tokens() {
    let mut s = LiquidityState { total_liquidity: 100, sold_tokens: 0 };
    assert!(liquidity::purchase_tokens(&mut s, 30, 999).is_ok());
    assert_eq!(s.total_liquidity, 70);
    assert_eq!(s.sold_tokens, 30);
    assert!(liquidity::purchase_tokens(&mut s, 70, 1).is_ok());
    assert_eq!(s.total_liquidity, 0);
    assert_eq!(s.sold_tokens, 100);
    assert_eq!(s.total_liquidity + s.sold_tokens, 100);
}

#[test]
fn liquidity_purchase_beyond_pool_is_refused() {
    let mut s = LiquidityState { total_liquidity: 10, sold_tokens: 5 };
    let r = liquidity::purchase_tokens(&mut s, 11, 1);
    assert!(matches!(r, Err(liquidity::ErrorCode::InsufficientLiquidity)));
    assert_eq!(s.total_liquidity, 10);
    assert_eq!(s.sold_tokens, 5);
}

#[test]
fn presale_prices_by_tier() {
    assert_eq!(price_per_token(0), Some(100_000));
    assert_eq!(price_per_token(TIER_SIZE - 1), Some(100_000));
    assert_eq!(price_per_token(TIER_SIZE), Some(200_000));
    assert_eq!(price_per_token(2 * TIER_SIZE - 1), Some(200_000));
    assert_eq!(price_per_token(2 * TIER_SIZE), Some(300_000));
    assert_eq!(price_per_token(PRESALE_CAP - 1), Some(300_000));
    assert_eq!(price_per_token(PRESALE_CAP), None);
    assert_eq!(price_per_token(u64::MAX), None);
}

#[test]
fn presale_buy_counts_and_costs() {
    let mut p = PresaleAccount { total_sold: 0 };
    let r = buy_tokens(&mut p, 1_000).ok().unwrap();
    assert_eq!(r.tokens, 1_000);
    assert_eq!(r.cost_lamports, 100_000_000);
    assert_eq!(p.total_sold, 1_000);
    let mut p = PresaleAccount { total_sold: 120_000_000_000 };
    let r = buy_tokens(&mut p, 10).ok().unwrap();
    assert_eq!(r.cost_lamports, 3_000_000);
    assert_eq!(p.total_sold, 120_000_000_010);
}

#[test]
fn presale_never_sells_past_the_cap() {
    let mut p = PresaleAccount { total_sold: PRESALE_CAP - 1 };
    assert!(matches!(buy_tokens(&mut p, 10), Err(ErrorCode::PresaleEnded)));
    assert_eq!(p.total_sold, PRESALE_CAP - 1);
    assert!(matches!(buy_tokens(&mut p, u64::MAX), Err(ErrorCode::PresaleEnded)));
    let r = buy_tokens(&mut p, 1).ok().unwrap();
    assert_eq!(r.cost_lamports, 300_000);
    assert_eq!(p.total_sold, PRESALE_CAP);
    assert!(matches!(buy_tokens(&mut p, 1), Err(ErrorCode::PresaleEnded)));
    assert_eq!(p.total_sold, PRESALE_CAP);
}

#[test]
fn presale_refusals() {
    let mut p = PresaleAccount { total_sold: 10 };
    assert!(matches!(buy_tokens(&mut p, 0), Err(ErrorCode::InvalidAmount)));
    assert_eq!(p.total_sold, 10);
    let mut p = PresaleAccount { total_sold: PRESALE_CAP };
    assert!(matches!(buy_tokens(&mut p, 0), Err(ErrorCode::PresaleEnded)));
}

#[test]
fn token_initialize() {
    assert!(matches!(token::initialize(0), Err(token::ErrorCode::InvalidSupply)));
    let plan = token::initialize(1_000_000).ok().unwrap();
    assert_eq!(plan.decimals, MINT_DECIMALS);
    assert_eq!(plan.decimals, 9);
    assert_eq!(plan.supply, 1_000_000);
}
