use vstd::prelude::*;

verus! {

/// The liquidity pool's state.
pub struct LiquidityState {
    pub total_liquidity: u64,
    pub sold_tokens: u64,
}

/// The liquidity program's refusal.
#[derive(Debug, Clone, Copy, PartialEq, Eq)]
pub enum ErrorCode {
    InsufficientLiquidity,
}

/// The pool after a purchase of `amount`: unchanged when the pool holds
/// less than that, and otherwise with the tokens moved from the pool to
/// the sold count.
pub open spec fn purchase_state(s: LiquidityState, amount: u64) -> LiquidityState {
    if s.total_liquidity < amount {
        s
    } else {
        LiquidityState {
            total_liquidity: (s.total_liquidity - amount) as u64,
            sold_tokens: (s.sold_tokens + amount) as u64,
        }
    }
}

/// Opens the pool with `total_liquidity` tokens and nothing sold.
pub fn initialize(state: &mut LiquidityState, total_liquidity: u64) -> (r: Result<(), ErrorCode>)
    ensures
        r is Ok,
        final(state).total_liquidity == total_liquidity,
        final(state).sold_tokens == 0,
{
    state.total_liquidity = total_liquidity;
    state.sold_tokens = 0;
    Ok(())
}

/// Sells `amount` tokens from the pool. The price is taken and not used.
/// A purchase larger than the pool is refused and changes nothing;
/// otherwise the tokens move from the pool to the sold count.
pub fn purchase_tokens(state: &mut LiquidityState, amount: u64, price: u64) -> (r: Result<(), ErrorCode>)
    requires
        amount <= old(state).total_liquidity ==> old(state).sold_tokens + amount <= u64::MAX,
    ensures
        old(state).total_liquidity < amount ==> r == Err::<(), ErrorCode>(ErrorCode::InsufficientLiquidity),
        amount <= old(state).total_liquidity ==> r is Ok,
        *final(state) == purchase_state(*old(state), amount),
{
    if state.total_liquidity < amount {
        return Err(ErrorCode::InsufficientLiquidity);
    }
    state.total_liquidity = state.total_liquidity - amount;
    state.sold_tokens = state.sold_tokens + amount;
    Ok(())
}

/// A purchase neither creates nor destroys tokens: the pool plus the sold
/// count is the same before and after, whether the purchase goes through
/// or not.
pub proof fn lemma_purchase_conserves_tokens(s: LiquidityState, amount: u64)
    requires
        amount <= s.total_liquidity ==> s.sold_tokens + amount <= u64::MAX,
    ensures
        purchase_state(s, amount).total_liquidity + purchase_state(s, amount).sold_tokens
            == s.total_liquidity + s.sold_tokens,
{
}

/// Nothing is sold beyond the pool: the tokens sold by a purchase never
/// exceed what the pool held.
pub proof fn lemma_purchase_within_pool(s: LiquidityState, amount: u64)
    requires
        amount <= s.total_liquidity ==> s.sold_tokens + amount <= u64::MAX,
    ensures
        purchase_state(s, amount).sold_tokens - s.sold_tokens <= s.total_liquidity,
{
}

} // verus!
