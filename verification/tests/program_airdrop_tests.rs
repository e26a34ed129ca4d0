use mansa_musa::keys::Pubkey;
use mansa_musa::programs::airdrop::{
    distribute_airdrop, distribute_airdrop_at, initialize, whitelist_user, AirdropAccount, ErrorCode,
    AIRDROP_TOTAL_TOKENS,
};
use mansa_musa::runtime::Failure;
use mansa_musa::whitelist::Whitelist;

fn key(b: u8) -> Pubkey {
    Pubkey::new_from_array([b; 32])
}

fn blank() -> AirdropAccount {
    AirdropAccount {
        start_time: 7,
        end_time: 8,
        total_tokens: 9,
        distributed_tokens: 10,
        whitelisted: Whitelist::new(),
    }
}

#[test]
fn initialize_opens_airdrop() {
    let mut a = blank();
    a.whitelisted.insert(key(1));
    assert!(initialize(&mut a, 1_000, 500).is_ok());
    assert_eq!(a.start_time, 1_000);
    assert_eq!(a.end_time, 1_500);
    assert_eq!(a.total_tokens, AIRDROP_TOTAL_TOKENS);
    assert_eq!(a.distributed_tokens, 0);
    assert_eq!(a.whitelisted.len(), 0);
}

#[test]
fn claim_before_end_is_refused() {
    let mut a = blank();
    initialize(&mut a, 1_000, 500).unwrap();
    whitelist_user(&mut a, key(1)).unwrap();
    let r = distribute_airdrop_at(&mut a, &key(1), 1_499);
    assert!(matches!(r, Err(Failure::Program(ErrorCode::AirdropNotEnded))));
    assert_eq!(a.distributed_tokens, 0);
}

#[test]
fn claim_off_whitelist_is_refused() {
    let mut a = blank();
    initialize(&mut a, 1_000, 500).unwrap();
    whitelist_user(&mut a, key(1)).unwrap();
    let r = distribute_airdrop_at(&mut a, &key(2), 1_500);
    assert!(matches!(r, Err(Failure::Program(ErrorCode::NotWhitelisted))));
    assert_eq!(a.distributed_tokens, 0);
}

#[test]
fn claim_pays_even_share_and_counts_it() {
    let mut a = blank();
    initialize(&mut a, 0, 0).unwrap();
    whitelist_user(&mut a, key(1)).unwrap();
    whitelist_user(&mut a, key(2)).unwrap();
    whitelist_user(&mut a, key(3)).unwrap();
    let r = distribute_airdrop_at(&mut a, &key(2), 0);
    assert!(matches!(r, Ok(66_666_666_666)));
    assert_eq!(a.distributed_tokens, 66_666_666_666);
    let r = distribute_airdrop_at(&mut a, &key(3), 10);
    assert!(matches!(r, Ok(66_666_666_666)));
    assert_eq!(a.distributed_tokens, 133_333_333_332);
    assert!(66_666_666_666u64 * 3 <= AIRDROP_TOTAL_TOKENS);
}

#[test]
fn unreadable_clock_refuses_claim() {
    let mut a = blank();
    initialize(&mut a, 0, 0).unwrap();
    whitelist_user(&mut a, key(1)).unwrap();
    let r = distribute_airdrop(&mut a, &key(1));
    assert!(matches!(r, Err(Failure::Runtime(_))));
    assert_eq!(a.distributed_tokens, 0);
}

#[test]
fn claims_never_pay_out_more_than_the_total() {
    let mut a = blank();
    initialize(&mut a, 0, 0).unwrap();
    whitelist_user(&mut a, key(1)).unwrap();
    let r = distribute_airdrop_at(&mut a, &key(1), 0);
    assert!(matches!(r, Ok(200_000_000_000)));
    assert_eq!(a.distributed_tokens, AIRDROP_TOTAL_TOKENS);
    let r = distribute_airdrop_at(&mut a, &key(1), 1);
    assert!(matches!(r, Err(Failure::Program(ErrorCode::AirdropExhausted))));
    assert_eq!(a.distributed_tokens, AIRDROP_TOTAL_TOKENS);
}

#[test]
fn claim_past_the_total_is_refused_even_when_counts_are_off() {
    let mut a = blank();
    initialize(&mut a, 0, 0).unwrap();
    whitelist_user(&mut a, key(1)).unwrap();
    a.distributed_tokens = u64::MAX - 1;
    let r = distribute_airdrop_at(&mut a, &key(1), 0);
    assert!(matches!(r, Err(Failure::Program(ErrorCode::AirdropExhausted))));
    assert_eq!(a.distributed_tokens, u64::MAX - 1);
    // before the end the claim is refused as not ended
    let mut a2 = blank();
    initialize(&mut a2, 0, 100).unwrap();
    whitelist_user(&mut a2, key(1)).unwrap();
    a2.distributed_tokens = u64::MAX;
    let r = distribute_airdrop_at(&mut a2, &key(1), 50);
    assert!(matches!(r, Err(Failure::Program(ErrorCode::AirdropNotEnded))));
}
