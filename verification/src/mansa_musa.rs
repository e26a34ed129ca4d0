use vstd::prelude::*;

use crate::keys::Pubkey;
use crate::whitelist::Whitelist;

verus! {

/// Tokens set aside for the airdrop: two hundred billion.
pub const AIRDROP_AMOUNT: u64 = 200_000_000_000;

/// Tokens set aside for liquidity: one hundred billion.
pub const LIQUIDITY_AMOUNT: u64 = 100_000_000_000;

/// Tokens set aside for the development fund: one hundred billion.
pub const DEV_FUND_AMOUNT: u64 = 100_000_000_000;

/// The token program's state.
pub struct State {
    pub total_supply: u64,
    pub airdrop_amount: u64,
    pub liquidity: u64,
    pub dev_fund: u64,
    pub whitelisted: Whitelist,
}

/// The token program's refusals.
#[derive(Debug, Clone, Copy, PartialEq, Eq)]
pub enum ErrorCode {
    NotWhitelisted,
    InsufficientLiquidity,
}

/// Sets up the state: the given total supply, the fixed allocations for
/// the airdrop, liquidity and the development fund, and an empty
/// whitelist.
pub fn initialize(state: &mut State, total_supply: u64) -> (r: Result<(), ErrorCode>)
    ensures
        r is Ok,
        final(state).total_supply == total_supply,
        final(state).airdrop_amount == AIRDROP_AMOUNT,
        final(state).liquidity == LIQUIDITY_AMOUNT,
        final(state).dev_fund == DEV_FUND_AMOUNT,
        final(state).whitelisted.members() == Set::<Seq<u8>>::empty(),
{
    state.total_supply = total_supply;
    state.airdrop_amount = AIRDROP_AMOUNT;
    state.liquidity = LIQUIDITY_AMOUNT;
    state.dev_fund = DEV_FUND_AMOUNT;
    state.whitelisted = Whitelist::new();
    Ok(())
}

/// Puts `user` on the whitelist.
pub fn whitelist_user(state: &mut State, user: Pubkey) -> (r: Result<(), ErrorCode>)
    ensures
        r is Ok,
        final(state).whitelisted.members() == old(state).whitelisted.members().insert(user@),
        final(state).total_supply == old(state).total_supply,
        final(state).airdrop_amount == old(state).airdrop_amount,
        final(state).liquidity == old(state).liquidity,
        final(state).dev_fund == old(state).dev_fund,
{
    state.whitelisted.insert(user);
    Ok(())
}

/// An airdrop of `amount` to the token account owned by `recipient_owner`:
/// refused unless the owner is whitelisted, and otherwise the amount that
/// the token program is to transfer. The state is not changed.
pub fn distribute_airdrop(state: &State, recipient_owner: &Pubkey, amount: u64) -> (r: Result<u64, ErrorCode>)
    ensures
        !state.whitelisted.members().contains(recipient_owner@) ==> r == Err::<u64, ErrorCode>(
            ErrorCode::NotWhitelisted,
        ),
        state.whitelisted.members().contains(recipient_owner@) ==> r == Ok::<u64, ErrorCode>(amount),
{
    if !state.whitelisted.contains(recipient_owner) {
        return Err(ErrorCode::NotWhitelisted);
    }
    Ok(amount)
}

/// Sells `amount` tokens from the liquidity allocation. The price is taken
/// and not used. A purchase larger than the allocation is refused and
/// changes nothing; otherwise the allocation shrinks by the amount.
pub fn purchase_tokens(state: &mut State, amount: u64, price: u64) -> (r: Result<(), ErrorCode>)
    ensures
        old(state).liquidity < amount ==> r == Err::<(), ErrorCode>(ErrorCode::InsufficientLiquidity)
            && *final(state) == *old(state),
        amount <= old(state).liquidity ==> r is Ok && *final(state) == (State {
            liquidity: (old(state).liquidity - amount) as u64,
            ..*old(state)
        }),
{
    if state.liquidity < amount {
        return Err(ErrorCode::InsufficientLiquidity);
    }
    state.liquidity = state.liquidity - amount;
    Ok(())
}

/// Releases development funds: no release schedule is applied, and the
/// call always succeeds without changing the state.
pub fn release_dev_funds(state: &State) -> (r: Result<(), ErrorCode>)
    ensures
        r is Ok,
{
    Ok(())
}

} // verus!
