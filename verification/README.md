# mansa_musa

Verified logic of a set of Solana token programs: a token mint, an airdrop
(both a native program and an Anchor one), a presale, a liquidity pool and
a vested development fund.

- `src/` is the verified library. Each program's rules are a
  function over plain values (account state, keys as 32 bytes, clock
  readings) with a contract; the clock sysvar is read through one trusted
  wrapper in `src/runtime.rs`, and every function that reads it has a
  companion taking the reading as an argument.
- `app/` holds the on-chain side: account contexts and layouts, entry
  points and the token-program calls (transfers, mints) that the library's
  results ask for.
- `tests/` exercises the library on concrete values.
