use vstd::prelude::*;

verus! {

/// Decimal places of the token's mint.
pub const MINT_DECIMALS: u8 = 9;

/// The token program's refusal.
#[derive(Debug, Clone, Copy, PartialEq, Eq)]
pub enum ErrorCode {
    InvalidSupply,
}

/// The mint to create and the supply to mint to the authority's token
/// account. The mint has no freeze authority.
#[derive(Debug, Clone, Copy, PartialEq, Eq)]
pub struct MintPlan {
    pub decimals: u8,
    pub supply: u64,
}

/// Plans the token's creation: a zero supply is refused; otherwise a mint
/// of nine decimals, with the whole supply minted at once.
pub fn initialize(total_supply: u64) -> (r: Result<MintPlan, ErrorCode>)
    ensures
        total_supply == 0 ==> r == Err::<MintPlan, ErrorCode>(ErrorCode::InvalidSupply),
        total_supply != 0 ==> r == Ok::<MintPlan, ErrorCode>(MintPlan { decimals: MINT_DECIMALS, supply: total_supply }),
{
    if total_supply == 0 {
        return Err(ErrorCode::InvalidSupply);
    }
    Ok(MintPlan { decimals: MINT_DECIMALS, supply: total_supply })
}

} // verus!
