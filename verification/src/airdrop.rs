use vstd::prelude::*;

use crate::keys::Pubkey;
use crate::runtime::{clock_unix_timestamp, Failure};
use crate::whitelist::Whitelist;

verus! {

/// Tokens that the entry point's airdrop hands out.
pub const AIRDROP_TOTAL_TOKENS: u64 = 200_000_000_000;

/// Seconds between the moment the entry point schedules a distribution
/// and the moment it may run: eleven days.
pub const DISTRIBUTION_DELAY_SECS: u64 = 950_400;

/// The airdrop's own refusal.
#[derive(Debug, Clone, Copy, PartialEq, Eq)]
pub enum AirdropError {
    InvalidInstructionData,
}

/// An airdrop of a fixed number of tokens shared among whitelisted users.
pub struct Airdrop {
    pub whitelist: Whitelist,
    pub total_tokens: u64,
    pub distributed_tokens: u64,
    pub distribution_time: u64,
}

/// The number of distinct whitelisted users.
pub open spec fn user_count(a: Airdrop) -> nat {
    a.whitelist.members().len()
}

/// What a distribution returns when the clock reads `now`: refused if
/// tokens were already distributed or the distribution time has not come,
/// nothing to share when nobody is whitelisted, and otherwise each user's
/// equal share of the total, rounded down.
pub open spec fn distribution_result(a: Airdrop, now: u64) -> Result<u64, Failure<AirdropError>> {
    if a.distributed_tokens > 0 || now < a.distribution_time {
        Err(Failure::Program(AirdropError::InvalidInstructionData))
    } else if user_count(a) == 0 {
        Ok(0)
    } else {
        Ok((a.total_tokens as nat / user_count(a)) as u64)
    }
}

/// The airdrop after a distribution when the clock reads `now`: only a
/// distribution that shares among at least one user marks the whole
/// total as distributed.
pub open spec fn distribution_state(a: Airdrop, now: u64) -> Airdrop {
    if distribution_result(a, now) is Ok && user_count(a) > 0 {
        Airdrop { distributed_tokens: a.total_tokens, ..a }
    } else {
        a
    }
}

impl Airdrop {
    /// A fresh airdrop of `total_tokens`, with nobody whitelisted.
    pub fn new(total_tokens: u64) -> (a: Airdrop)
        ensures
            a.whitelist.members() == Set::<Seq<u8>>::empty(),
            a.total_tokens == total_tokens,
            a.distributed_tokens == 0,
            a.distribution_time == 0,
    {
        Airdrop { whitelist: Whitelist::new(), total_tokens, distributed_tokens: 0, distribution_time: 0 }
    }

    /// Puts `user` on the whitelist.
    pub fn add_to_whitelist(&mut self, user: Pubkey)
        ensures
            final(self).whitelist.members() == old(self).whitelist.members().insert(user@),
            final(self).total_tokens == old(self).total_tokens,
            final(self).distributed_tokens == old(self).distributed_tokens,
            final(self).distribution_time == old(self).distribution_time,
    {
        self.whitelist.insert(user);
    }

    /// Whether `user` is on the whitelist.
    pub fn is_whitelisted(&self, user: &Pubkey) -> (r: bool)
        ensures
            r == self.whitelist.members().contains(user@),
    {
        self.whitelist.contains(user)
    }

    /// Sets the earliest time at which tokens may be distributed.
    pub fn set_distribution_time(&mut self, time: u64)
        ensures
            final(self).distribution_time == time,
            final(self).whitelist == old(self).whitelist,
            final(self).total_tokens == old(self).total_tokens,
            final(self).distributed_tokens == old(self).distributed_tokens,
    {
        self.distribution_time = time;
    }

    /// Distributes the tokens as of the clock reading `current_time`:
    /// returns each user's share and marks the total as distributed.
    pub fn distribute_tokens_at(&mut self, current_time: u64) -> (r: Result<u64, Failure<AirdropError>>)
        ensures
            r == distribution_result(*old(self), current_time),
            *final(self) == distribution_state(*old(self), current_time),
            current_time < old(self).distribution_time ==> r == Err::<u64, Failure<AirdropError>>(
                Failure::Program(AirdropError::InvalidInstructionData),
            ) && *final(self) == *old(self),
            r matches Ok(share) ==> current_time >= old(self).distribution_time && old(self).distributed_tokens
                == 0 && share * old(self).whitelist.members().len() <= old(self).total_tokens,
    {
        if self.distributed_tokens > 0 {
            return Err(Failure::Program(AirdropError::InvalidInstructionData));
        }
        if current_time < self.distribution_time {
            return Err(Failure::Program(AirdropError::InvalidInstructionData));
        }
        let num_users = self.whitelist.len() as u64;
        if num_users == 0 {
            return Ok(0);
        }
        let tokens_per_user = self.total_tokens / num_users;
        assert(tokens_per_user * num_users <= self.total_tokens) by (nonlinear_arith)
            requires
                num_users > 0,
                tokens_per_user == self.total_tokens / num_users,
        ;
        self.distributed_tokens = self.total_tokens;
        Ok(tokens_per_user)
    }

    /// Distributes the tokens at the time the cluster's clock gives.
    /// A second distribution is refused before the clock is read; a clock
    /// that cannot be read refuses it with the runtime's error; otherwise
    /// the outcome is that of `distribute_tokens_at` for the reading.
    pub fn distribute_tokens(&mut self) -> (r: Result<u64, Failure<AirdropError>>)
        ensures
            old(self).distributed_tokens > 0 ==> r == Err::<u64, Failure<AirdropError>>(
                Failure::Program(AirdropError::InvalidInstructionData),
            ) && *final(self) == *old(self),
            r matches Err(Failure::Runtime(_)) ==> *final(self) == *old(self),
            r matches Err(Failure::Runtime(_)) || exists|now: u64|
                r == #[trigger] distribution_result(*old(self), now) && *final(self)
                    == distribution_state(*old(self), now),
    {
        if self.distributed_tokens > 0 {
            return Err(Failure::Program(AirdropError::InvalidInstructionData));
        }
        match clock_unix_timestamp() {
            Err(e) => Err(Failure::Runtime(e)),
            Ok(now) => self.distribute_tokens_at(now as u64),
        }
    }
}

/// The shares handed out never add up to more than the airdrop holds:
/// each user's share times the number of users is at most the total.
pub proof fn lemma_shares_within_total(a: Airdrop, now: u64)
    requires
        distribution_result(a, now) is Ok,
    ensures
        distribution_result(a, now)->Ok_0 * user_count(a) <= a.total_tokens,
{
    let n = user_count(a);
    if n > 0 {
        let t = a.total_tokens as nat;
        assert((t / n) * n <= t) by (nonlinear_arith)
            requires
                n > 0,
        ;
    }
}

/// Tokens are distributed once: after a distribution that shared a
/// non-zero total among at least one user, every later distribution is
/// refused, whenever it is tried.
pub proof fn lemma_distributes_once(a: Airdrop, now: u64, later: u64)
    requires
        distribution_result(a, now) is Ok,
        user_count(a) > 0,
        a.total_tokens > 0,
    ensures
        distribution_result(distribution_state(a, now), later) == Err::<u64, Failure<AirdropError>>(
            Failure::Program(AirdropError::InvalidInstructionData),
        ),
{
}

/// Nothing is distributed before the distribution time.
pub proof fn lemma_no_distribution_before_time(a: Airdrop, now: u64)
    requires
        now < a.distribution_time,
    ensures
        distribution_result(a, now) == Err::<u64, Failure<AirdropError>>(
            Failure::Program(AirdropError::InvalidInstructionData),
        ),
        distribution_state(a, now) == a,
{
}

/// A call on an airdrop.
pub enum AirdropCall {
    AddToWhitelist(Pubkey),
    SetDistributionTime(u64),
    DistributeTokens,
}

/// Whether `after` is an airdrop that `call` can leave of `before`, as the
/// contracts of `add_to_whitelist`, `set_distribution_time` and
/// `distribute_tokens` (or `distribute_tokens_at`) state it.
pub open spec fn call_step(before: Airdrop, call: AirdropCall, after: Airdrop) -> bool {
    match call {
        AirdropCall::AddToWhitelist(user) => {
            &&& after.whitelist.members() == before.whitelist.members().insert(user@)
            &&& after.total_tokens == before.total_tokens
            &&& after.distributed_tokens == before.distributed_tokens
            &&& after.distribution_time == before.distribution_time
        },
        AirdropCall::SetDistributionTime(time) => {
            &&& after.distribution_time == time
            &&& after.whitelist == before.whitelist
            &&& after.total_tokens == before.total_tokens
            &&& after.distributed_tokens == before.distributed_tokens
        },
        AirdropCall::DistributeTokens => after == before || exists|now: u64|
            after == #[trigger] distribution_state(before, now),
    }
}

/// The keys that a sequence of calls adds to the whitelist.
pub open spec fn added_keys(calls: Seq<AirdropCall>) -> Set<Seq<u8>>
    decreases calls.len(),
{
    if calls.len() == 0 {
        Set::empty()
    } else {
        let rest = added_keys(calls.drop_last());
        match calls.last() {
            AirdropCall::AddToWhitelist(user) => rest.insert(user@),
            _ => rest,
        }
    }
}

/// Whitelisting lasts: over any sequence of calls, the whitelist ends up
/// holding exactly what it held at the start and the keys that the calls
/// added. In particular a user once added stays whitelisted, and on an
/// airdrop fresh from `new` a user never added is never whitelisted.
pub proof fn lemma_whitelist_over_calls(states: Seq<Airdrop>, calls: Seq<AirdropCall>)
    requires
        states.len() == calls.len() + 1,
        forall|i: int| 0 <= i < calls.len() ==> call_step(states[i], #[trigger] calls[i], states[i + 1]),
    ensures
        states.last().whitelist.members() == states[0].whitelist.members().union(added_keys(calls)),
    decreases calls.len(),
{
    if calls.len() == 0 {
        assert(states[0].whitelist.members().union(Set::empty()) =~= states[0].whitelist.members());
    } else {
        let n = calls.len() - 1;
        let prefix = states.drop_last();
        let calls_prefix = calls.drop_last();
        assert forall|i: int| 0 <= i < calls_prefix.len() implies call_step(
            prefix[i],
            #[trigger] calls_prefix[i],
            prefix[i + 1],
        ) by {
            assert(calls_prefix[i] == calls[i]);
        }
        lemma_whitelist_over_calls(prefix, calls_prefix);
        let before = states[n];
        let after = states[n + 1];
        assert(call_step(before, calls[n], after));
        assert(prefix.last() == before);
        assert(states.last() == after);
        match calls[n] {
            AirdropCall::AddToWhitelist(user) => {
                assert(after.whitelist.members() =~= states[0].whitelist.members().union(added_keys(calls)));
            },
            AirdropCall::SetDistributionTime(_) => {
                assert(after.whitelist.members() =~= states[0].whitelist.members().union(added_keys(calls)));
            },
            AirdropCall::DistributeTokens => {
                if after != before {
                    let now = choose|now: u64| after == #[trigger] distribution_state(before, now);
                    assert(after.whitelist == before.whitelist);
                }
                assert(after.whitelist.members() =~= states[0].whitelist.members().union(added_keys(calls)));
            },
        }
    }
}

/// What the entry point answers to an instruction of the given kind when
/// the clock reads `scheduled_at` as the distribution is scheduled and
/// `distributed_at` as it runs: kinds other than `2` succeed; kind `2`
/// fails when eleven days after the first reading do not fit a `u64`, is
/// refused when the second reading comes before that time (the airdrop
/// is fresh, so nothing else can refuse it), and succeeds otherwise.
pub open spec fn instruction_outcome(kind: u8, scheduled_at: i64, distributed_at: i64) -> Result<(), Failure<AirdropError>> {
    if kind != 2 {
        Ok(())
    } else if scheduled_at as u64 + DISTRIBUTION_DELAY_SECS > u64::MAX {
        Err(Failure::Overflow)
    } else if (distributed_at as u64) < scheduled_at as u64 + DISTRIBUTION_DELAY_SECS {
        Err(Failure::Program(AirdropError::InvalidInstructionData))
    } else {
        Ok(())
    }
}

/// Instruction `2` distributes only eleven days after it schedules: when
/// the second clock reading comes before 950_400 seconds after the first,
/// it is refused; from then on it succeeds; and when those eleven days
/// do not fit a `u64` it fails as an overflow.
pub proof fn lemma_distribution_waits_eleven_days(scheduled_at: i64, distributed_at: i64)
    ensures
        scheduled_at as u64 + 950_400 > u64::MAX ==> instruction_outcome(2, scheduled_at, distributed_at)
            == Err::<(), Failure<AirdropError>>(Failure::Overflow),
        scheduled_at as u64 + 950_400 <= u64::MAX && (distributed_at as u64) < scheduled_at as u64 + 950_400
            ==> instruction_outcome(2, scheduled_at, distributed_at) == Err::<(), Failure<AirdropError>>(
            Failure::Program(AirdropError::InvalidInstructionData),
        ),
        scheduled_at as u64 + 950_400 <= distributed_at as u64 ==> instruction_outcome(
            2,
            scheduled_at,
            distributed_at,
        ) is Ok,
        forall|kind: u8| kind != 2 ==> #[trigger] instruction_outcome(kind, scheduled_at, distributed_at) is Ok,
{
}

/// The entry point's logic for the account `user` and the instruction
/// bytes, with the clock readings given: `1` whitelists the user on a
/// fresh airdrop; `2` schedules a distribution eleven days after
/// `scheduled_at` and runs it at `distributed_at`; anything else does
/// nothing.
pub fn process_instruction_at(
    user: Pubkey,
    instruction_data: &[u8],
    scheduled_at: i64,
    distributed_at: i64,
) -> (r: Result<(), Failure<AirdropError>>)
    requires
        instruction_data@.len() > 0,
    ensures
        r == instruction_outcome(instruction_data@[0], scheduled_at, distributed_at),
        instruction_data@[0] == 2 && scheduled_at as u64 + 950_400 <= u64::MAX && (distributed_at as u64)
            < scheduled_at as u64 + 950_400 ==> r == Err::<(), Failure<AirdropError>>(
            Failure::Program(AirdropError::InvalidInstructionData),
        ),
{
    let mut airdrop = Airdrop::new(AIRDROP_TOTAL_TOKENS);
    if instruction_data[0] == 1 {
        airdrop.add_to_whitelist(user);
    } else if instruction_data[0] == 2 {
        let start = match (scheduled_at as u64).checked_add(DISTRIBUTION_DELAY_SECS) {
            None => return Err(Failure::Overflow),
            Some(s) => s,
        };
        airdrop.set_distribution_time(start);
        proof {
            assert(user_count(airdrop) == 0);
        }
        match airdrop.distribute_tokens_at(distributed_at as u64) {
            Err(e) => return Err(e),
            Ok(_tokens_per_user) => {},
        }
    }
    Ok(())
}

/// The entry point's logic for the account `user` and the instruction
/// bytes, at the times the cluster's clock gives: for kind `2` the clock
/// is read as the distribution is scheduled and again as it runs (unless
/// the schedule overflows), and the outcome is `instruction_outcome` for
/// those readings, or the runtime's error when a reading fails; other
/// kinds succeed without reading the clock.
pub fn process_instruction(user: Pubkey, instruction_data: &[u8]) -> (r: Result<(), Failure<AirdropError>>)
    requires
        instruction_data@.len() > 0,
    ensures
        instruction_data@[0] != 2 ==> r is Ok,
        instruction_data@[0] == 2 ==> (r matches Err(Failure::Runtime(_)) || exists|s: i64, t: i64|
            r == #[trigger] instruction_outcome(instruction_data@[0], s, t)),
{
    if instruction_data[0] != 2 {
        return process_instruction_at(user, instruction_data, 0, 0);
    }
    let scheduled_at = match clock_unix_timestamp() {
        Err(e) => return Err(Failure::Runtime(e)),
        Ok(t) => t,
    };
    if (scheduled_at as u64).checked_add(DISTRIBUTION_DELAY_SECS).is_none() {
        let r = process_instruction_at(user, instruction_data, scheduled_at, 0);
        assert(r == instruction_outcome(instruction_data@[0], scheduled_at, 0));
        return r;
    }
    let distributed_at = match clock_unix_timestamp() {
        Err(e) => return Err(Failure::Runtime(e)),
        Ok(t) => t,
    };
    process_instruction_at(user, instruction_data, scheduled_at, distributed_at)
}

} // verus!
