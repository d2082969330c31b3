//! What can go wrong with an instruction.

use vstd::prelude::*;

verus! {

/// Why instruction bytes were rejected.
#[derive(Clone, Copy, Debug, PartialEq, Eq, Structural)]
pub enum DecodeError {
    /// The leading tag names no instruction, a field is cut short, or a field
    /// holds a value outside its range.
    Malformed,
}

/// Why a move could not be applied to the game account.
#[derive(Clone, Copy, Debug, PartialEq, Eq, Structural)]
pub enum ProcessError {
    /// The game account is not owned by the executing program.
    IncorrectOwner,
    /// The account data does not hold a game state.
    CorruptState,
    /// No account was supplied.
    MissingAccount,
}

/// What the entry point reports when an instruction fails.
#[derive(Clone, Copy, Debug, PartialEq, Eq, Structural)]
pub enum ProgramError {
    /// The instruction bytes could not be decoded.
    Decode(DecodeError),
    /// The instruction was decoded but could not be carried out.
    Process(ProcessError),
}

} // verus!
