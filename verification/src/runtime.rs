use vstd::prelude::*;

use solana_program::clock::Clock;
use solana_program::program_error::ProgramError;
#[allow(deprecated)]
use solana_program::sysvar::Sysvar;

verus! {

/// The runtime's error type, carried through unchanged.
#[verifier::external_type_specification]
#[verifier::external_body]
pub struct ExProgramError(ProgramError);

/// Why an instruction was refused: a rule of the program (`Program`),
/// the runtime (`Runtime`, such as a clock that cannot be read), or an
/// arithmetic result that does not fit its type (`Overflow`).
#[derive(Debug)]
pub enum Failure<E> {
    Program(E),
    Runtime(ProgramError),
    Overflow,
}

/// Reads the unix timestamp of the clock sysvar through
/// `solana_program::clock::Clock::get`. The value is whatever the
/// cluster's clock says when the call is made, or the runtime's error
/// when the sysvar cannot be read; nothing is promised of either.
#[verifier::external_body]
pub(crate) fn clock_unix_timestamp() -> (r: Result<i64, ProgramError>) {
    Clock::get().map(|clock| clock.unix_timestamp)
}

} // verus!
