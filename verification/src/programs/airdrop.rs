use vstd::prelude::*;

use crate::keys::Pubkey;
use crate::runtime::{clock_unix_timestamp, Failure};
use crate::whitelist::Whitelist;

verus! {

/// Tokens allocated to the airdrop when it is initialized.
pub const AIRDROP_TOTAL_TOKENS: u64 = 200_000_000_000;

/// The airdrop program's refusals.
#[derive(Debug, Clone, Copy, PartialEq, Eq)]
pub enum ErrorCode {
    AirdropNotEnded,
    NotWhitelisted,
    AirdropExhausted,
}

/// The airdrop's on-chain state.
pub struct AirdropAccount {
    pub start_time: i64,
    pub end_time: i64,
    pub total_tokens: u64,
    pub distributed_tokens: u64,
    pub whitelisted: Whitelist,
}

/// The number of distinct whitelisted users.
pub open spec fn user_count(a: AirdropAccount) -> nat {
    a.whitelisted.members().len()
}

/// Each whitelisted user's share: the total split evenly, rounded down.
pub open spec fn share_per_user(a: AirdropAccount) -> nat {
    a.total_tokens as nat / user_count(a)
}

/// What a claim by `recipient` returns when the clock reads `now`: refused
/// before the end time, refused for a user off the whitelist, refused when
/// the share would take the tokens distributed past the airdrop's total,
/// and otherwise the share to transfer to the recipient.
pub open spec fn claim_result(a: AirdropAccount, recipient: Seq<u8>, now: i64) -> Result<u64, Failure<ErrorCode>> {
    if now < a.end_time {
        Err(Failure::Program(ErrorCode::AirdropNotEnded))
    } else if !a.whitelisted.members().contains(recipient) {
        Err(Failure::Program(ErrorCode::NotWhitelisted))
    } else if a.distributed_tokens + share_per_user(a) > a.total_tokens {
        Err(Failure::Program(ErrorCode::AirdropExhausted))
    } else {
        Ok(share_per_user(a) as u64)
    }
}

/// The account after such a claim: a granted claim adds the share to the
/// tokens distributed.
pub open spec fn claim_state(a: AirdropAccount, recipient: Seq<u8>, now: i64) -> AirdropAccount {
    if claim_result(a, recipient, now) is Ok {
        AirdropAccount { distributed_tokens: (a.distributed_tokens + share_per_user(a)) as u64, ..a }
    } else {
        a
    }
}

/// Opens the airdrop: it runs from `start_time` for `duration` seconds and
/// holds the full allocation, with nothing distributed and nobody
/// whitelisted.
pub fn initialize(airdrop_account: &mut AirdropAccount, start_time: i64, duration: i64) -> (r: Result<(), ErrorCode>)
    requires
        i64::MIN <= start_time + duration <= i64::MAX,
    ensures
        r is Ok,
        final(airdrop_account).start_time == start_time,
        final(airdrop_account).end_time == start_time + duration,
        final(airdrop_account).total_tokens == AIRDROP_TOTAL_TOKENS,
        final(airdrop_account).distributed_tokens == 0,
        final(airdrop_account).whitelisted.members() == Set::<Seq<u8>>::empty(),
{
    airdrop_account.start_time = start_time;
    airdrop_account.end_time = start_time + duration;
    airdrop_account.total_tokens = AIRDROP_TOTAL_TOKENS;
    airdrop_account.distributed_tokens = 0;
    airdrop_account.whitelisted = Whitelist::new();
    Ok(())
}

/// Puts `user` on the whitelist.
pub fn whitelist_user(airdrop_account: &mut AirdropAccount, user: Pubkey) -> (r: Result<(), ErrorCode>)
    ensures
        r is Ok,
        final(airdrop_account).whitelisted.members() == old(airdrop_account).whitelisted.members().insert(user@),
        final(airdrop_account).start_time == old(airdrop_account).start_time,
        final(airdrop_account).end_time == old(airdrop_account).end_time,
        final(airdrop_account).total_tokens == old(airdrop_account).total_tokens,
        final(airdrop_account).distributed_tokens == old(airdrop_account).distributed_tokens,
{
    airdrop_account.whitelisted.insert(user);
    Ok(())
}

/// A claim by `recipient` when the clock reads `now`. On success the
/// returned share is what the token program is to transfer from the
/// airdrop's token account to the recipient's.
pub fn distribute_airdrop_at(airdrop_account: &mut AirdropAccount, recipient: &Pubkey, now: i64) -> (r: Result<u64, Failure<ErrorCode>>)
    ensures
        r == claim_result(*old(airdrop_account), recipient@, now),
        *final(airdrop_account) == claim_state(*old(airdrop_account), recipient@, now),
        old(airdrop_account).distributed_tokens <= old(airdrop_account).total_tokens
            ==> final(airdrop_account).distributed_tokens <= final(airdrop_account).total_tokens,
        now < old(airdrop_account).end_time ==> r == Err::<u64, Failure<ErrorCode>>(
            Failure::Program(ErrorCode::AirdropNotEnded),
        ) && *final(airdrop_account) == *old(airdrop_account),
        r matches Ok(share) ==> now >= old(airdrop_account).end_time
            && old(airdrop_account).whitelisted.members().contains(recipient@)
            && final(airdrop_account).distributed_tokens == old(airdrop_account).distributed_tokens + share,
{
    if now < airdrop_account.end_time {
        return Err(Failure::Program(ErrorCode::AirdropNotEnded));
    }
    if !airdrop_account.whitelisted.contains(recipient) {
        return Err(Failure::Program(ErrorCode::NotWhitelisted));
    }
    let users = airdrop_account.whitelisted.len() as u64;
    proof {
        assert(airdrop_account.whitelisted.members().len() > 0) by {
            vstd::set_lib::lemma_set_empty_equivalency_len(airdrop_account.whitelisted.members());
        }
    }
    let tokens_per_user = airdrop_account.total_tokens / users;
    if airdrop_account.distributed_tokens > airdrop_account.total_tokens || tokens_per_user
        > airdrop_account.total_tokens - airdrop_account.distributed_tokens {
        return Err(Failure::Program(ErrorCode::AirdropExhausted));
    }
    airdrop_account.distributed_tokens = airdrop_account.distributed_tokens + tokens_per_user;
    Ok(tokens_per_user)
}

/// A claim by `recipient` at the time the cluster's clock gives. A clock
/// that cannot be read refuses the claim with the runtime's error and
/// leaves the account as it was; otherwise the outcome is that of
/// `distribute_airdrop_at` for the reading.
pub fn distribute_airdrop(airdrop_account: &mut AirdropAccount, recipient: &Pubkey) -> (r: Result<u64, Failure<ErrorCode>>)
    ensures
        old(airdrop_account).distributed_tokens <= old(airdrop_account).total_tokens
            ==> final(airdrop_account).distributed_tokens <= final(airdrop_account).total_tokens,
        r matches Err(Failure::Runtime(_)) ==> *final(airdrop_account) == *old(airdrop_account),
        r matches Err(Failure::Runtime(_)) || exists|now: i64|
            r == #[trigger] claim_result(*old(airdrop_account), recipient@, now) && *final(airdrop_account)
                == claim_state(*old(airdrop_account), recipient@, now),
{
    match clock_unix_timestamp() {
        Err(e) => Err(Failure::Runtime(e)),
        Ok(now) => distribute_airdrop_at(airdrop_account, recipient, now),
    }
}

/// A claim before the airdrop ends is refused as not ended and changes
/// nothing, whoever claims.
pub proof fn lemma_claim_before_end_refused(a: AirdropAccount, recipient: Seq<u8>, now: i64)
    requires
        now < a.end_time,
    ensures
        claim_result(a, recipient, now) == Err::<u64, Failure<ErrorCode>>(
            Failure::Program(ErrorCode::AirdropNotEnded),
        ),
        claim_state(a, recipient, now) == a,
{
}

/// After the end, a whitelisted user's claim that fits the total pays the
/// total split evenly among the distinct whitelisted users, rounded down,
/// and counts it as distributed.
pub proof fn lemma_claim_pays_even_share(a: AirdropAccount, recipient: Seq<u8>, now: i64)
    requires
        now >= a.end_time,
        a.whitelisted.members().contains(recipient),
        a.distributed_tokens + a.total_tokens as nat / a.whitelisted.members().len() <= a.total_tokens,
    ensures
        claim_result(a, recipient, now) == Ok::<u64, Failure<ErrorCode>>(
            (a.total_tokens as nat / a.whitelisted.members().len()) as u64,
        ),
        claim_state(a, recipient, now).distributed_tokens == a.distributed_tokens + a.total_tokens as nat
            / a.whitelisted.members().len(),
{
}

/// Claims never go through before the airdrop ends, and never for a user
/// off the whitelist.
pub proof fn lemma_claims_need_end_and_whitelist(a: AirdropAccount, recipient: Seq<u8>, now: i64)
    requires
        claim_result(a, recipient, now) is Ok,
    ensures
        now >= a.end_time,
        a.whitelisted.members().contains(recipient),
{
}

/// A granted claim adds exactly one share to the tokens distributed, and
/// that share times the number of users is at most the airdrop's total.
pub proof fn lemma_claim_share_bounded(a: AirdropAccount, recipient: Seq<u8>, now: i64)
    requires
        claim_result(a, recipient, now) is Ok,
    ensures
        claim_state(a, recipient, now).distributed_tokens == a.distributed_tokens
            + claim_result(a, recipient, now)->Ok_0,
        claim_result(a, recipient, now)->Ok_0 * user_count(a) <= a.total_tokens,
{
    let n = user_count(a);
    let t = a.total_tokens as nat;
    if n > 0 {
        assert((t / n) * n <= t) by (nonlinear_arith)
            requires
                n > 0,
        ;
    }
}

/// The airdrop never pays out more than it holds: an airdrop that has
/// distributed no more than its total still has not after any claim,
/// whoever claims, whenever, and however often.
pub proof fn lemma_claims_within_allocation(a: AirdropAccount, recipient: Seq<u8>, now: i64)
    requires
        a.distributed_tokens <= a.total_tokens,
    ensures
        claim_state(a, recipient, now).distributed_tokens <= claim_state(a, recipient, now).total_tokens,
{
}

} // verus!
