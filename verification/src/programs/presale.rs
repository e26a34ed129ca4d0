use vstd::prelude::*;

verus! {

/// Tokens sold at each price before the next price applies.
pub const TIER_SIZE: u64 = 50_000_000_000;

/// Tokens the presale sells in all: three tiers of fifty billion.
pub const PRESALE_CAP: u64 = 150_000_000_000;

/// The presale's refusals.
#[derive(Debug, Clone, Copy, PartialEq, Eq)]
pub enum ErrorCode {
    PresaleEnded,
    InvalidAmount,
}

/// The presale's state.
pub struct PresaleAccount {
    pub total_sold: u64,
}

/// A granted purchase: the tokens to mint to the buyer, and their cost in
/// lamports at the price of the tier the purchase starts in.
#[derive(Debug, Clone, Copy, PartialEq, Eq)]
pub struct Purchase {
    pub tokens: u64,
    pub cost_lamports: u128,
}

/// The price of a token in lamports once `total_sold` tokens are sold:
/// 0.0001 SOL for the first fifty billion, 0.0002 SOL for the next fifty
/// billion, 0.0003 SOL for the last fifty billion, and none after that.
pub open spec fn tier_price(total_sold: u64) -> Option<u64> {
    if total_sold < 50_000_000_000 {
        Some(100_000)
    } else if total_sold < 100_000_000_000 {
        Some(200_000)
    } else if total_sold < 150_000_000_000 {
        Some(300_000)
    } else {
        None
    }
}

/// The current price of a token in lamports, or `None` once the presale
/// has sold out.
pub fn price_per_token(total_sold: u64) -> (p: Option<u64>)
    ensures
        p == tier_price(total_sold),
{
    if total_sold < TIER_SIZE {
        Some(100_000)
    } else if total_sold < 2 * TIER_SIZE {
        Some(200_000)
    } else if total_sold < PRESALE_CAP {
        Some(300_000)
    } else {
        None
    }
}

/// What a purchase of `amount` tokens returns once `total_sold` are sold:
/// refused when the presale has sold out, then for a zero amount, then
/// when the purchase would take the tokens sold past the cap; otherwise
/// the tokens to mint and their cost at the price of the tier the
/// purchase starts in.
pub open spec fn purchase_result(total_sold: u64, amount: u64) -> Result<Purchase, ErrorCode> {
    match tier_price(total_sold) {
        None => Err(ErrorCode::PresaleEnded),
        Some(price) => if amount == 0 {
            Err(ErrorCode::InvalidAmount)
        } else if total_sold + amount > PRESALE_CAP {
            Err(ErrorCode::PresaleEnded)
        } else {
            Ok(Purchase { tokens: amount, cost_lamports: (amount * price) as u128 })
        },
    }
}

/// Buys `amount` tokens. A granted purchase adds the amount to the tokens
/// sold and returns what to mint and what it costs; a refused one changes
/// nothing.
pub fn buy_tokens(presale_account: &mut PresaleAccount, amount: u64) -> (r: Result<Purchase, ErrorCode>)
    ensures
        r == purchase_result(old(presale_account).total_sold, amount),
        r is Ok ==> final(presale_account).total_sold == old(presale_account).total_sold + amount,
        r is Err ==> *final(presale_account) == *old(presale_account),
        old(presale_account).total_sold <= PRESALE_CAP ==> final(presale_account).total_sold <= PRESALE_CAP,
        r matches Ok(p) ==> p.tokens == amount && p.cost_lamports == amount * (if old(presale_account).total_sold
            < 50_000_000_000 {
            100_000int
        } else if old(presale_account).total_sold < 100_000_000_000 {
            200_000int
        } else {
            300_000int
        }),
{
    let price = match price_per_token(presale_account.total_sold) {
        None => return Err(ErrorCode::PresaleEnded),
        Some(p) => p,
    };
    if amount == 0 {
        return Err(ErrorCode::InvalidAmount);
    }
    if amount > PRESALE_CAP - presale_account.total_sold {
        return Err(ErrorCode::PresaleEnded);
    }
    assert(amount * price <= u64::MAX * 300_000) by (nonlinear_arith)
        requires
            price <= 300_000,
    ;
    let total_cost: u128 = (amount as u128) * (price as u128);
    presale_account.total_sold = presale_account.total_sold + amount;
    Ok(Purchase { tokens: amount, cost_lamports: total_cost })
}

/// Prices never fall as the presale sells: a later tier costs at least as
/// much as an earlier one, and a sold-out presale stays sold out.
pub proof fn lemma_price_never_falls(sold_before: u64, sold_after: u64)
    requires
        sold_before <= sold_after,
    ensures
        tier_price(sold_after) is Some ==> tier_price(sold_before) is Some && tier_price(sold_before)->Some_0
            <= tier_price(sold_after)->Some_0,
        tier_price(sold_before) is None ==> tier_price(sold_after) is None,
{
}

/// What a granted purchase costs: the amount times the price of the tier
/// it starts in, 0.0001 SOL (100_000 lamports) per token below fifty
/// billion sold, 0.0002 SOL below a hundred billion, 0.0003 SOL below a
/// hundred and fifty billion.
pub proof fn lemma_purchase_cost(total_sold: u64, amount: u64)
    requires
        purchase_result(total_sold, amount) is Ok,
    ensures
        purchase_result(total_sold, amount)->Ok_0.tokens == amount,
        total_sold < 50_000_000_000 ==> purchase_result(total_sold, amount)->Ok_0.cost_lamports
            == amount * 100_000,
        50_000_000_000 <= total_sold < 100_000_000_000 ==> purchase_result(total_sold, amount)->Ok_0.cost_lamports
            == amount * 200_000,
        100_000_000_000 <= total_sold ==> purchase_result(total_sold, amount)->Ok_0.cost_lamports
            == amount * 300_000,
{
    assert(amount * 300_000 <= u64::MAX * 300_000) by (nonlinear_arith);
}

/// Buying more never costs less: within one tier, a larger purchase
/// costs at least as much, and the same purchase in a later tier costs at
/// least as much as in an earlier one.
pub proof fn lemma_cost_monotone(sold1: u64, amount1: u64, sold2: u64, amount2: u64)
    requires
        purchase_result(sold1, amount1) is Ok,
        purchase_result(sold2, amount2) is Ok,
        sold1 <= sold2,
        amount1 <= amount2,
    ensures
        purchase_result(sold1, amount1)->Ok_0.cost_lamports <= purchase_result(sold2, amount2)->Ok_0.cost_lamports,
{
    lemma_purchase_cost(sold1, amount1);
    lemma_purchase_cost(sold2, amount2);
    let p1: int = if sold1 < 50_000_000_000 { 100_000 } else if sold1 < 100_000_000_000 { 200_000 } else { 300_000 };
    let p2: int = if sold2 < 50_000_000_000 { 100_000 } else if sold2 < 100_000_000_000 { 200_000 } else { 300_000 };
    assert(amount1 * p1 <= amount2 * p2) by (nonlinear_arith)
        requires
            0 <= amount1 <= amount2,
            0 <= p1 <= p2,
    ;
}

/// Nothing is sold past the cap: a granted purchase keeps the tokens sold
/// within the hundred and fifty billion of the three tiers, and once the
/// cap is reached every purchase is refused.
pub proof fn lemma_sales_within_cap(total_sold: u64, amount: u64)
    ensures
        purchase_result(total_sold, amount) is Ok ==> total_sold + amount <= PRESALE_CAP,
        total_sold >= PRESALE_CAP ==> purchase_result(total_sold, amount) == Err::<Purchase, ErrorCode>(
            ErrorCode::PresaleEnded,
        ),
{
}

} // verus!
