//! Decodes an instruction and hands it to the part of the program it is for.

use vstd::prelude::*;
use crate::account::Account;
use crate::error::{DecodeError, ProcessError, ProgramError};
use crate::instruction::MyInstruction;
use crate::pubkey::Pubkey;
use crate::rps::{answer, moved, process_rps_set, Notice};

verus! {

/// What became of an instruction that was decoded.
#[derive(Clone, Copy, Debug, PartialEq, Eq, Structural)]
pub enum Dispatch {
    /// A greeting. The game does not serve it and has touched no account:
    /// the host passes it on to the greeting counter.
    Greeting { id: u32 },
    /// A move. It was submitted to the round, with this notice.
    Game(Notice),
}

/// What `process` answers to `input`, given the accounts as they were.
pub open spec fn processed(program_id: Pubkey, accounts: Seq<Account>, input: Seq<u8>) -> Result<
    Dispatch,
    ProgramError,
> {
    match MyInstruction::unpacked(input) {
        None => Err(ProgramError::Decode(DecodeError::Malformed)),
        Some(MyInstruction::Greeting { id }) => Ok(Dispatch::Greeting { id }),
        Some(MyInstruction::RPSSet { sender, .. }) => match answer(program_id, accounts, sender) {
            Ok(notice) => Ok(Dispatch::Game(notice)),
            Err(e) => Err(ProgramError::Process(e)),
        },
    }
}

/// How the accounts `after` a call of `process` on `input` relate to those
/// `before` it: a move does to them what `moved` says, anything else leaves
/// them alone.
pub open spec fn touched(
    program_id: Pubkey,
    before: Seq<Account>,
    after: Seq<Account>,
    input: Seq<u8>,
) -> bool {
    match MyInstruction::unpacked(input) {
        Some(MyInstruction::RPSSet { sender, rps_move }) => moved(
            program_id,
            before,
            after,
            rps_move,
            sender,
        ),
        _ => after == before,
    }
}

/// Decodes `input` and carries the instruction out.
///
/// Input that does not decode is refused before any account is looked at. A
/// move goes to the round in the first account. A greeting is handed back to
/// the caller untouched.
pub fn process(program_id: &Pubkey, accounts: &mut [Account], input: &[u8]) -> (r: Result<
    Dispatch,
    ProgramError,
>)
    ensures
        r == processed(*program_id, old(accounts)@, input@),
        touched(*program_id, old(accounts)@, final(accounts)@, input@),
{
    let instruction = match MyInstruction::unpack(input) {
        Ok(instruction) => instruction,
        Err(e) => {
            return Err(ProgramError::Decode(e));
        },
    };
    match instruction {
        MyInstruction::Greeting { id } => Ok(Dispatch::Greeting { id }),
        MyInstruction::RPSSet { rps_move, sender } => {
            match process_rps_set(program_id, accounts, rps_move, sender) {
                Ok(notice) => Ok(Dispatch::Game(notice)),
                Err(e) => Err(ProgramError::Process(e)),
            }
        },
    }
}

/// Whatever the instruction, an account that the executing program does not
/// own is never written to: a move is refused with `IncorrectOwner`, and
/// nothing else writes at all.
pub proof fn lemma_foreign_account_is_untouched(
    program_id: Pubkey,
    before: Seq<Account>,
    after: Seq<Account>,
    input: Seq<u8>,
)
    requires
        before.len() > 0,
        before[0].owner != program_id,
        touched(program_id, before, after, input),
    ensures
        after == before,
        MyInstruction::unpacked(input) matches Some(MyInstruction::RPSSet { .. }) ==> processed(
            program_id,
            before,
            input,
        ) == Err::<Dispatch, ProgramError>(ProgramError::Process(ProcessError::IncorrectOwner)),
{
}

} // verus!
