//! The time at which a decision is logged.
//!
//! The timestamp of a record is not the caller's to choose: it is read from
//! the cluster's clock at the moment of logging.

use vstd::prelude::*;
use anchor_lang::solana_program::clock::Clock;
use anchor_lang::solana_program::program_error::ProgramError;
use anchor_lang::solana_program::sysvar::Sysvar;

verus! {

/// The error type of the Solana program library, carried through unread.
#[verifier::external_type_specification]
#[verifier::external_body]
pub struct ExProgramError(ProgramError);

/// Reads the Unix timestamp of the cluster's clock with `Clock::get`.
///
/// Trusted, and nothing is claimed of the outcome: the time is the
/// environment's, and where no clock is served (off chain, unless one has
/// been installed) the call fails.
#[verifier::external_body]
pub(crate) fn unix_timestamp() -> (now: Result<i64, ProgramError>) {
    match Clock::get() {
        Ok(clock) => Ok(clock.unix_timestamp),
        Err(error) => Err(error),
    }
}

} // verus!
