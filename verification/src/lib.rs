//! Verified rules of a set of Solana token programs.

pub mod airdrop;
pub mod keys;
pub mod mansa_musa;
pub mod programs;
pub mod runtime;
pub mod whitelist;
