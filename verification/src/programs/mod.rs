pub mod airdrop;
pub mod dev_fund;
pub mod liquidity;
pub mod presale;
pub mod token;
