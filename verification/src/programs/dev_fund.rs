use vstd::prelude::*;

use crate::runtime::{clock_unix_timestamp, Failure};

verus! {

/// Length of the vesting schedule, in months.
pub const VESTING_PERIOD_MONTHS: u64 = 24;

/// Tokens of the development fund: one hundred billion.
pub const DEV_FUND_TOTAL: u64 = 100_000_000_000;

/// Tokens that vest per month: the fund spread evenly over the schedule,
/// rounded down; the last month vests what rounding left over.
pub const TOKENS_PER_MONTH: u64 = DEV_FUND_TOTAL / VESTING_PERIOD_MONTHS;

/// Seconds in one month: a twelfth of 365 days.
pub const SECONDS_PER_PERIOD: i64 = 2_628_000;

/// The development fund's refusals.
#[derive(Debug, Clone, Copy, PartialEq, Eq)]
pub enum ErrorCode {
    InvalidAmount,
    NoTokensAvailable,
}

/// The fund's on-chain state.
pub struct FundAccount {
    pub total_allocated: u64,
    pub total_released: u64,
    pub vesting_start_time: i64,
}

/// Whole months elapsed from `start` to `now`, rounded toward zero.
pub open spec fn elapsed_periods(start: i64, now: i64) -> int {
    let d = now - start;
    if d >= 0 {
        d / (SECONDS_PER_PERIOD as int)
    } else {
        -((-d) / (SECONDS_PER_PERIOD as int))
    }
}

/// Tokens the schedule has vested after `months` whole months: nothing
/// before the first month, one share per month, and the whole fund once
/// the schedule is complete.
pub open spec fn scheduled(months: int) -> int {
    if months <= 0 {
        0
    } else if months >= VESTING_PERIOD_MONTHS {
        DEV_FUND_TOTAL as int
    } else {
        months * (TOKENS_PER_MONTH as int)
    }
}

/// Tokens the schedule has vested by `now` for vesting started at `start`.
pub open spec fn schedule(start: i64, now: i64) -> int {
    scheduled(elapsed_periods(start, now))
}

/// Tokens of the fund vested by `now`: what the schedule has vested, but
/// never more than was allocated.
pub open spec fn vested(f: FundAccount, now: i64) -> int {
    let s = schedule(f.vesting_start_time, now);
    if s < f.total_allocated { s } else { f.total_allocated as int }
}

/// What a release at `now` returns: refused when nothing has vested beyond
/// what was released, and otherwise the newly vested amount.
pub open spec fn release_result(f: FundAccount, now: i64) -> Result<u64, Failure<ErrorCode>> {
    if vested(f, now) <= f.total_released {
        Err(Failure::Program(ErrorCode::NoTokensAvailable))
    } else {
        Ok((vested(f, now) - f.total_released) as u64)
    }
}

/// The fund after a release at `now`: a granted release records all that
/// has vested as released.
pub open spec fn release_state(f: FundAccount, now: i64) -> FundAccount {
    if release_result(f, now) is Ok {
        FundAccount { total_released: vested(f, now) as u64, ..f }
    } else {
        f
    }
}

/// The fund right after `amount` is allocated to it at `now`: nothing
/// released, vesting from `now`.
pub open spec fn allocation(amount: u64, now: i64) -> FundAccount {
    FundAccount { total_allocated: amount, total_released: 0, vesting_start_time: now }
}

/// Whether the seconds from the start of vesting to `now` fit an `i64`.
pub open spec fn elapsed_fits(f: FundAccount, now: i64) -> bool {
    i64::MIN <= now - f.vesting_start_time <= i64::MAX
}

/// What a release at the clock reading `now` returns: an overflow when the
/// elapsed seconds do not fit an `i64`, and otherwise `release_result`.
pub open spec fn release_outcome(f: FundAccount, now: i64) -> Result<u64, Failure<ErrorCode>> {
    if elapsed_fits(f, now) {
        release_result(f, now)
    } else {
        Err(Failure::Overflow)
    }
}

/// The fund after a release at the clock reading `now`: unchanged on an
/// overflow, and otherwise `release_state`.
pub open spec fn release_outcome_state(f: FundAccount, now: i64) -> FundAccount {
    if elapsed_fits(f, now) {
        release_state(f, now)
    } else {
        f
    }
}

/// Allocates `amount` to the fund, vesting from `now`. A zero amount is
/// refused and leaves the fund as it was.
pub fn allocate_tokens_at(fund_account: &mut FundAccount, amount: u64, now: i64) -> (r: Result<(), Failure<ErrorCode>>)
    ensures
        amount == 0 ==> r == Err::<(), Failure<ErrorCode>>(Failure::Program(ErrorCode::InvalidAmount))
            && *final(fund_account) == *old(fund_account),
        amount != 0 ==> r is Ok && *final(fund_account) == allocation(amount, now),
{
    if amount == 0 {
        return Err(Failure::Program(ErrorCode::InvalidAmount));
    }
    fund_account.total_allocated = amount;
    fund_account.total_released = 0;
    fund_account.vesting_start_time = now;
    Ok(())
}

/// Allocates `amount` to the fund, vesting from the time the cluster's
/// clock gives. A zero amount is refused before the clock is read. The
/// allocation and the release count are reset before the clock is read;
/// when it cannot be read the start time is left as it was, and otherwise
/// the reading is handed to `allocate_tokens_at`, which stores it as the
/// start of vesting.
pub fn allocate_tokens(fund_account: &mut FundAccount, amount: u64) -> (r: Result<(), Failure<ErrorCode>>)
    ensures
        amount == 0 ==> r == Err::<(), Failure<ErrorCode>>(Failure::Program(ErrorCode::InvalidAmount))
            && *final(fund_account) == *old(fund_account),
        r matches Err(Failure::Runtime(_)) ==> amount != 0 && *final(fund_account) == (FundAccount {
            total_allocated: amount,
            total_released: 0,
            vesting_start_time: old(fund_account).vesting_start_time,
        }),
        r is Ok ==> amount != 0 && exists|now: i64|
            *final(fund_account) == #[trigger] allocation(amount, now),
        r is Ok || r matches Err(Failure::Runtime(_)) || amount == 0,
{
    if amount == 0 {
        return Err(Failure::Program(ErrorCode::InvalidAmount));
    }
    fund_account.total_allocated = amount;
    fund_account.total_released = 0;
    match clock_unix_timestamp() {
        Err(e) => Err(Failure::Runtime(e)),
        Ok(now) => {
            let r = allocate_tokens_at(fund_account, amount, now);
            assert(*fund_account == allocation(amount, now));
            r
        },
    }
}

/// Releases what has vested by `now` beyond what was released before; a
/// reading so far from the start of vesting that the elapsed seconds do
/// not fit an `i64` is refused as an overflow and changes nothing. On
/// success the returned amount is what the token program is to transfer
/// from the fund's token account to the recipient's.
pub fn release_tokens_at(fund_account: &mut FundAccount, now: i64) -> (r: Result<u64, Failure<ErrorCode>>)
    ensures
        r == release_outcome(*old(fund_account), now),
        *final(fund_account) == release_outcome_state(*old(fund_account), now),
        old(fund_account).total_released <= old(fund_account).total_allocated ==> final(fund_account).total_released
            <= final(fund_account).total_allocated,
        old(fund_account).vesting_start_time <= now < old(fund_account).vesting_start_time + 2_628_000 ==> r
            == Err::<u64, Failure<ErrorCode>>(Failure::Program(ErrorCode::NoTokensAvailable))
            && *final(fund_account) == *old(fund_account),
        r matches Ok(amount) ==> final(fund_account).total_released == old(fund_account).total_released
            + amount && amount > 0 && now - old(fund_account).vesting_start_time >= 2_628_000,
{
    let diff = match now.checked_sub(fund_account.vesting_start_time) {
        None => return Err(Failure::Overflow),
        Some(d) => d,
    };
    let ghost start = fund_account.vesting_start_time;
    if diff < 0 {
        return Err(Failure::Program(ErrorCode::NoTokensAvailable));
    }
    let elapsed_months: u64 = (diff as u64) / (SECONDS_PER_PERIOD as u64);
    let scheduled_amount: u64 = if elapsed_months >= VESTING_PERIOD_MONTHS {
        DEV_FUND_TOTAL
    } else {
        assert(elapsed_months * TOKENS_PER_MONTH <= 24 * 4_166_666_666) by (nonlinear_arith)
            requires
                elapsed_months <= 24,
                TOKENS_PER_MONTH == 4_166_666_666,
        ;
        elapsed_months * TOKENS_PER_MONTH
    };
    assert(scheduled_amount == schedule(start, now));
    let total_releasable: u64 = if scheduled_amount < fund_account.total_allocated {
        scheduled_amount
    } else {
        fund_account.total_allocated
    };
    if total_releasable <= fund_account.total_released {
        return Err(Failure::Program(ErrorCode::NoTokensAvailable));
    }
    let amount_to_release = total_releasable - fund_account.total_released;
    fund_account.total_released = fund_account.total_released + amount_to_release;
    Ok(amount_to_release)
}

/// Releases what has vested by the time the cluster's clock gives. A clock
/// that cannot be read refuses the release with the runtime's error and
/// leaves the fund as it was; otherwise the reading is handed to
/// `release_tokens_at`, and the outcome is its outcome for that reading.
pub fn release_tokens(fund_account: &mut FundAccount) -> (r: Result<u64, Failure<ErrorCode>>)
    ensures
        r matches Err(Failure::Runtime(_)) ==> *final(fund_account) == *old(fund_account),
        old(fund_account).total_released <= old(fund_account).total_allocated ==> final(fund_account).total_released
            <= final(fund_account).total_allocated,
        r matches Err(Failure::Runtime(_)) || exists|now: i64|
            r == #[trigger] release_outcome(*old(fund_account), now) && *final(fund_account)
                == release_outcome_state(*old(fund_account), now),
{
    match clock_unix_timestamp() {
        Err(e) => Err(Failure::Runtime(e)),
        Ok(now) => release_tokens_at(fund_account, now),
    }
}

/// Nothing is released in the first month: from the start of vesting
/// until a whole month has passed every release is refused and leaves the
/// fund as it was.
pub proof fn lemma_nothing_before_first_month(f: FundAccount, now: i64)
    requires
        f.vesting_start_time <= now < f.vesting_start_time + 2_628_000,
    ensures
        release_outcome(f, now) == Err::<u64, Failure<ErrorCode>>(Failure::Program(ErrorCode::NoTokensAvailable)),
        release_outcome_state(f, now) == f,
{
    let d = now - f.vesting_start_time;
    assert(d / 2_628_000 == 0) by (nonlinear_arith)
        requires
            0 <= d < 2_628_000,
    ;
}

/// After `m` whole months, short of the full schedule, a fund releases up
/// to `m` monthly shares of 4_166_666_666: when that is more than was
/// released and within the allocation, the release pays exactly the
/// difference and records `m` shares as released.
pub proof fn lemma_release_after_months(f: FundAccount, now: i64, m: int)
    requires
        0 < m < 24,
        f.vesting_start_time + m * 2_628_000 <= now < f.vesting_start_time + (m + 1) * 2_628_000,
        f.total_released < m * 4_166_666_666 <= f.total_allocated,
    ensures
        release_outcome(f, now) == Ok::<u64, Failure<ErrorCode>>((m * 4_166_666_666 - f.total_released) as u64),
        release_outcome_state(f, now).total_released == m * 4_166_666_666,
{
    let d = now - f.vesting_start_time;
    assert(d / 2_628_000 == m) by (nonlinear_arith)
        requires
            m * 2_628_000 <= d < (m + 1) * 2_628_000,
    ;
}

/// Nothing is released beyond the fund or the allocation: after a granted
/// release the tokens released are at most the hundred billion of the
/// fund and at most what was allocated, and strictly more than before.
pub proof fn lemma_release_within_schedule(f: FundAccount, now: i64)
    requires
        release_result(f, now) is Ok,
    ensures
        release_state(f, now).total_released <= DEV_FUND_TOTAL,
        release_state(f, now).total_released <= f.total_allocated,
        release_state(f, now).total_released > f.total_released,
{
    let p = elapsed_periods(f.vesting_start_time, now);
    if 0 < p < 24 {
        assert(p * 4_166_666_666 <= 24 * 4_166_666_666) by (nonlinear_arith)
            requires
                p <= 24,
        ;
    }
}

/// Releases never exceed the allocation: a fund that has released no more
/// than was allocated still has not after any release, whatever the clock
/// reads and whether the release is granted or not.
pub proof fn lemma_releases_within_allocation(f: FundAccount, now: i64)
    requires
        f.total_released <= f.total_allocated,
    ensures
        release_outcome_state(f, now).total_released <= release_outcome_state(f, now).total_allocated,
{
}

/// The whole fund vests: from twenty-four months after the start on, the
/// schedule has vested the full hundred billion.
pub proof fn lemma_full_vesting(start: i64, now: i64)
    requires
        now - start >= VESTING_PERIOD_MONTHS * SECONDS_PER_PERIOD,
    ensures
        schedule(start, now) == DEV_FUND_TOTAL,
{
    let d = now - start;
    let s = SECONDS_PER_PERIOD as int;
    assert(d / s >= 24) by (nonlinear_arith)
        requires
            d >= 24 * s,
            s > 0,
    ;
}

/// A release right after a granted one, at the same clock reading, is
/// refused: what vested has all been released.
pub proof fn lemma_release_once_per_reading(f: FundAccount, now: i64)
    requires
        release_result(f, now) is Ok,
    ensures
        release_result(release_state(f, now), now) == Err::<u64, Failure<ErrorCode>>(
            Failure::Program(ErrorCode::NoTokensAvailable),
        ),
{
}

/// Vesting never goes backwards: a later clock reading has at least as
/// much vested.
pub proof fn lemma_vesting_monotone(start: i64, t1: i64, t2: i64)
    requires
        t1 <= t2,
    ensures
        schedule(start, t1) <= schedule(start, t2),
{
    let d1 = t1 - start;
    let d2 = t2 - start;
    let s = SECONDS_PER_PERIOD as int;
    let p1 = elapsed_periods(start, t1);
    let p2 = elapsed_periods(start, t2);
    assert(p1 <= p2) by {
        if d1 >= 0 {
            assert(d1 / s <= d2 / s) by (nonlinear_arith)
                requires
                    0 <= d1 <= d2,
                    s > 0,
            ;
        } else if d2 >= 0 {
            assert((-d1) / s >= 0) by (nonlinear_arith)
                requires
                    -d1 > 0,
                    s > 0,
            ;
            assert(d2 / s >= 0) by (nonlinear_arith)
                requires
                    d2 >= 0,
                    s > 0,
            ;
        } else {
            assert((-d2) / s <= (-d1) / s) by (nonlinear_arith)
                requires
                    0 < -d2 <= -d1,
                    s > 0,
            ;
        }
    }
    if 0 < p1 && p1 < 24 && 0 < p2 && p2 < 24 {
        assert(p1 * 4_166_666_666 <= p2 * 4_166_666_666) by (nonlinear_arith)
            requires
                p1 <= p2,
        ;
    }
    if 0 < p1 && p1 < 24 {
        assert(p1 * 4_166_666_666 <= 24 * 4_166_666_666) by (nonlinear_arith)
            requires
                p1 <= 24,
        ;
    }
}

} // verus!
