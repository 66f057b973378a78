//! What the ledger takes from the host: its clock and its error type.

use solana_program::clock::Clock;
use solana_program::program_error::ProgramError;
use solana_program::sysvar::Sysvar;
use vstd::prelude::*;

verus! {

/// `solana_program::program_error::ProgramError`, carried through as an opaque
/// value: nothing is claimed of what one holds.
#[verifier::external_type_specification]
#[verifier::external_body]
pub struct ExProgramError(ProgramError);

/// Reads the host clock through `Clock::get` and hands out its
/// `unix_timestamp`, or the error that the host gave. The reading depends on
/// the host, so nothing is claimed of it.
#[verifier::external_body]
pub(crate) fn unix_timestamp() -> (r: Result<i64, ProgramError>) {
    match Clock::get() {
        Ok(clock) => Ok(clock.unix_timestamp),
        Err(e) => Err(e),
    }
}

} // verus!
