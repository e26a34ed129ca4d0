use mansa_musa::airdrop::{
    process_instruction, process_instruction_at, Airdrop, AirdropError, AIRDROP_TOTAL_TOKENS, DISTRIBUTION_DELAY_SECS,
};
use mansa_musa::keys::Pubkey;
use mansa_musa::runtime::Failure;

fn key(b: u8) -> Pubkey {
    Pubkey::new_from_array([b; 32])
}

fn refused<T>(r: &Result<T, Failure<AirdropError>>) -> bool {
    matches!(r, Err(Failure::Program(AirdropError::InvalidInstructionData)))
}

#[test]
fn new_airdrop_is_empty() {
    let a = Airdrop::new(1_000);
    assert_eq!(a.total_tokens, 1_000);
    assert_eq!(a.distributed_tokens, 0);
    assert_eq!(a.distribution_time, 0);
    assert_eq!(a.whitelist.len(), 0);
    assert!(!a.is_whitelisted(&key(1)));
}

#[test]
fn whitelisting_and_time() {
    let mut a = Airdrop::new(1_000);
    a.add_to_whitelist(key(1));
    a.add_to_whitelist(key(1));
    assert!(a.is_whitelisted(&key(1)));
    assert!(!a.is_whitelisted(&key(2)));
    assert_eq!(a.whitelist.len(), 1);
    a.set_distribution_time(500);
    assert_eq!(a.distribution_time, 500);
}

#[test]
fn distribution_shares_evenly_rounding_down() {
    let mut a = Airdrop::new(1_000);
    a.add_to_whitelist(key(1));
    a.add_to_whitelist(key(2));
    a.add_to_whitelist(key(3));
    let r = a.distribute_tokens_at(0);
    assert!(matches!(r, Ok(333)));
    assert_eq!(a.distributed_tokens, 1_000);
    // 333 * 3 <= 1000: the shares stay within the total
    assert!(333 * 3 <= 1_000);
}

#[test]
fn distribution_happens_once() {
    let mut a = Airdrop::new(1_000);
    a.add_to_whitelist(key(1));
    assert!(matches!(a.distribute_tokens_at(10), Ok(1_000)));
    assert!(refused(&a.distribute_tokens_at(10)));
    assert!(refused(&a.distribute_tokens_at(u64::MAX)));
    assert!(refused(&a.distribute_tokens()));
    assert_eq!(a.distributed_tokens, 1_000);
}

#[test]
fn distribution_before_time_is_refused() {
    let mut a = Airdrop::new(1_000);
    a.add_to_whitelist(key(1));
    a.set_distribution_time(100);
    assert!(refused(&a.distribute_tokens_at(99)));
    assert_eq!(a.distributed_tokens, 0);
    assert!(matches!(a.distribute_tokens_at(100), Ok(1_000)));
}

#[test]
fn distribution_with_nobody_whitelisted_gives_nothing() {
    let mut a = Airdrop::new(1_000);
    assert!(matches!(a.distribute_tokens_at(5), Ok(0)));
    assert_eq!(a.distributed_tokens, 0);
    a.add_to_whitelist(key(9));
    assert!(matches!(a.distribute_tokens_at(5), Ok(1_000)));
}

#[test]
fn zero_total_can_be_distributed_again() {
    let mut a = Airdrop::new(0);
    a.add_to_whitelist(key(1));
    assert!(matches!(a.distribute_tokens_at(0), Ok(0)));
    assert!(matches!(a.distribute_tokens_at(0), Ok(0)));
}

#[test]
fn unreadable_clock_leaves_airdrop_unchanged() {
    let mut a = Airdrop::new(1_000);
    a.add_to_whitelist(key(1));
    let r = a.distribute_tokens();
    // Off chain the clock sysvar cannot be read.
    assert!(matches!(r, Err(Failure::Runtime(_))));
    assert_eq!(a.distributed_tokens, 0);
}

#[test]
fn entry_point_instructions() {
    assert!(process_instruction(key(1), &[1]).is_ok());
    assert!(process_instruction(key(1), &[0]).is_ok());
    assert!(process_instruction(key(1), &[3, 4]).is_ok());
    let r = process_instruction(key(1), &[2]);
    assert!(!matches!(r, Ok(())));
}

#[test]
fn entry_point_constants() {
    assert_eq!(AIRDROP_TOTAL_TOKENS, 200_000_000_000);
    assert_eq!(DISTRIBUTION_DELAY_SECS, 11 * 24 * 60 * 60);
}

#[test]
fn entry_point_with_given_readings() {
    assert!(process_instruction_at(key(1), &[1], 0, 0).is_ok());
    assert!(process_instruction_at(key(1), &[7], 5, 0).is_ok());
    let r = process_instruction_at(key(1), &[2], 1_000, 1_000 + 950_399);
    assert!(refused(&r));
    let r = process_instruction_at(key(1), &[2], 1_000, 1_000 + 950_400);
    assert!(matches!(r, Ok(())));
    let r = process_instruction_at(key(1), &[2], -1, i64::MAX);
    assert!(matches!(r, Err(Failure::Overflow)));
    let r = process_instruction_at(key(1), &[2], -950_401, -1);
    assert!(matches!(r, Ok(())));
}
