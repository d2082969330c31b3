//! The one call that the host makes.

use vstd::prelude::*;
use crate::account::Account;
use crate::error::ProgramError;
use crate::processor::{process, processed, touched, Dispatch};
use crate::pubkey::Pubkey;

verus! {

/// Runs one instruction for the program `program_id` on the accounts that
/// the host passes, the game account first, and reports what was done or
/// why nothing was.
pub fn process_instruction(
    program_id: &Pubkey,
    accounts: &mut [Account],
    instruction_data: &[u8],
) -> (r: Result<Dispatch, ProgramError>)
    ensures
        r == processed(*program_id, old(accounts)@, instruction_data@),
        touched(*program_id, old(accounts)@, final(accounts)@, instruction_data@),
{
    match process(program_id, accounts, instruction_data) {
        Ok(done) => Ok(done),
        Err(error) => Err(error),
    }
}

} // verus!
