//! The stored form of a round: how a state is laid out in the data of the
//! game account.
//!
//! The state takes the first 34 bytes of the account's data, whatever it is:
//!
//! ```text
//! byte 0       : 0 = Nil, 1 = OneMoveStored, 2 = Outcome
//! OneMoveStored
//!   byte 1       : stored move (0 = Rock, 1 = Paper, 2 = Scissors)
//!   bytes 2..34  : stored account
//! Outcome
//!   byte 1       : 0 = Winner, 1 = Draw
//!   bytes 2..34  : winner, where there is one
//! ```
//!
//! Bytes that the state does not use are written as zeros and ignored when
//! read.

use vstd::prelude::*;
use crate::bytes::{put_zeros, zero_padded, zeros};
use crate::error::ProcessError;
use crate::pubkey::Pubkey;
use crate::rps::{RPSState, RockPaperScissorsMove, RockPaperScissorsOutcome};

verus! {

/// Number of bytes that a stored game state takes, whatever the state: a tag,
/// a second tag and an identity.
pub const STATE_BYTES: usize = 34;

impl RockPaperScissorsOutcome {
    /// The outcome's tag, and behind it the winner's identity where there is
    /// one.
    pub open spec fn encoded(self) -> Seq<u8> {
        match self {
            RockPaperScissorsOutcome::Winner { account } => seq![0u8] + account@,
            RockPaperScissorsOutcome::Draw => seq![1u8],
        }
    }
}

impl RPSState {
    /// The state's tag followed by its fields, without padding.
    pub open spec fn encoded(self) -> Seq<u8> {
        match self {
            RPSState::Nil => seq![0u8],
            RPSState::OneMoveStored { stored_move, stored_account } => seq![
                1u8,
                stored_move.tag(),
            ] + stored_account@,
            RPSState::Outcome { outcome } => seq![2u8] + outcome.encoded(),
        }
    }

    /// The bytes that the state is stored as: its encoding, then zeros up to
    /// `STATE_BYTES`.
    pub open spec fn packed(self) -> Seq<u8> {
        zero_padded(self.encoded(), STATE_BYTES as nat)
    }

    /// The state that `data` holds in its first `STATE_BYTES` bytes, if it
    /// holds one.
    ///
    /// Shorter data holds none. Bytes behind the fields of the state that the
    /// tag names are padding and are not looked at, and neither is anything
    /// behind the first `STATE_BYTES` bytes.
    pub open spec fn unpacked(data: Seq<u8>) -> Option<RPSState> {
        if data.len() < STATE_BYTES {
            None
        } else if data[0] == 0 {
            Some(RPSState::Nil)
        } else if data[0] == 1 {
            match RockPaperScissorsMove::of_tag(data[1]) {
                Some(stored_move) => Some(
                    RPSState::OneMoveStored {
                        stored_move,
                        stored_account: Pubkey::of(data.subrange(2, 34)),
                    },
                ),
                None => None,
            }
        } else if data[0] == 2 {
            if data[1] == 0 {
                Some(
                    RPSState::Outcome {
                        outcome: RockPaperScissorsOutcome::Winner {
                            account: Pubkey::of(data.subrange(2, 34)),
                        },
                    },
                )
            } else if data[1] == 1 {
                Some(RPSState::Outcome { outcome: RockPaperScissorsOutcome::Draw })
            } else {
                None
            }
        } else {
            None
        }
    }

    /// `data` with its first `STATE_BYTES` bytes replaced by the stored form of
    /// the state.
    pub open spec fn stored_in(self, data: Seq<u8>) -> Seq<u8>
        recommends
            data.len() >= STATE_BYTES,
    {
        self.packed() + data.subrange(STATE_BYTES as int, data.len() as int)
    }

    /// The stored form of the state.
    pub fn pack(&self) -> (out: Vec<u8>)
        ensures
            out@ == self.packed(),
            out@.len() == STATE_BYTES,
    {
        let mut out: Vec<u8> = Vec::with_capacity(STATE_BYTES);
        match *self {
            RPSState::Nil => {
                out.push(0u8);
                put_zeros(&mut out, STATE_BYTES - 1);
            },
            RPSState::OneMoveStored { stored_move, stored_account } => {
                out.push(1u8);
                out.push(stored_move.to_tag());
                stored_account.write(&mut out);
            },
            RPSState::Outcome { outcome: RockPaperScissorsOutcome::Winner { account } } => {
                out.push(2u8);
                out.push(0u8);
                account.write(&mut out);
            },
            RPSState::Outcome { outcome: RockPaperScissorsOutcome::Draw } => {
                out.push(2u8);
                out.push(1u8);
                put_zeros(&mut out, STATE_BYTES - 2);
            },
        }
        assert(out@ =~= self.packed());
        out
    }

    /// Reads the state that `data` holds: the one whose tag and fields `data`
    /// begins with, if `data` has `STATE_BYTES` bytes or more. Data that is
    /// shorter, or begins with the tag and fields of no state, is corrupt.
    pub fn unpack(data: &[u8]) -> (r: Result<RPSState, ProcessError>)
        ensures
            r == match RPSState::unpacked(data@) {
                Some(state) => Ok::<RPSState, ProcessError>(state),
                None => Err(ProcessError::CorruptState),
            },
            forall|state: RPSState|
                r == Ok::<RPSState, ProcessError>(state) <==> data@.len() >= STATE_BYTES
                    && #[trigger] state.encoded().is_prefix_of(data@),
    {
        proof {
            assert forall|state: RPSState|
                RPSState::unpacked(data@) == Some(state) <==> data@.len() >= STATE_BYTES
                    && #[trigger] state.encoded().is_prefix_of(data@) by {
                lemma_reads_what_it_starts_with(data@, state);
            }
        }
        if data.len() < STATE_BYTES {
            return Err(ProcessError::CorruptState);
        }
        let tag: u8 = data[0];
        if tag == 0 {
            Ok(RPSState::Nil)
        } else if tag == 1 {
            match RockPaperScissorsMove::from_tag(data[1]) {
                Some(stored_move) => Ok(
                    RPSState::OneMoveStored { stored_move, stored_account: Pubkey::read(data, 2) },
                ),
                None => Err(ProcessError::CorruptState),
            }
        } else if tag == 2 {
            let kind: u8 = data[1];
            if kind == 0 {
                Ok(
                    RPSState::Outcome {
                        outcome: RockPaperScissorsOutcome::Winner { account: Pubkey::read(data, 2) },
                    },
                )
            } else if kind == 1 {
                Ok(RPSState::Outcome { outcome: RockPaperScissorsOutcome::Draw })
            } else {
                Err(ProcessError::CorruptState)
            }
        } else {
            Err(ProcessError::CorruptState)
        }
    }

    /// The data of a fresh game account: the stored form of the empty round,
    /// which is all zeros.
    pub fn default_as_vec() -> (data: Vec<u8>)
        ensures
            data@ == RPSState::Nil.packed(),
            data@ == zeros(STATE_BYTES as nat),
    {
        let data = RPSState::default().pack();
        assert(data@ =~= zeros(STATE_BYTES as nat));
        data
    }
}

/// A stored state takes `STATE_BYTES` bytes and is read back as the state it
/// stores.
pub proof fn lemma_state_round_trip(state: RPSState)
    ensures
        state.packed().len() == STATE_BYTES,
        RPSState::unpacked(state.packed()) == Some(state),
{
    let data = state.packed();
    match state {
        RPSState::Nil => {},
        RPSState::OneMoveStored { stored_move, stored_account } => {
            stored_account.lemma_of_view();
            assert(data.subrange(2, 34) =~= stored_account@);
        },
        RPSState::Outcome { outcome: RockPaperScissorsOutcome::Winner { account } } => {
            account.lemma_of_view();
            assert(data.subrange(2, 34) =~= account@);
        },
        RPSState::Outcome { outcome: RockPaperScissorsOutcome::Draw } => {},
    }
}

/// Data holds a state exactly when it is long enough and starts with the
/// state's tag and fields. So no data holds two states, and what follows the
/// fields decides nothing.
pub proof fn lemma_reads_what_it_starts_with(data: Seq<u8>, state: RPSState)
    ensures
        RPSState::unpacked(data) == Some(state) <==> data.len() >= STATE_BYTES
            && state.encoded().is_prefix_of(data),
{
    let bytes = state.encoded();
    if data.len() >= STATE_BYTES {
        match state {
            RPSState::Nil => {
                if bytes.is_prefix_of(data) {
                    assert(data[0] == bytes[0]);
                }
            },
            RPSState::OneMoveStored { stored_move, stored_account } => {
                stored_account.lemma_of_view();
                if bytes.is_prefix_of(data) {
                    assert(data[0] == bytes[0]);
                    assert(data[1] == bytes[1]);
                    assert(data.subrange(2, 34) =~= stored_account@) by {
                        assert forall|k: int| 0 <= k < 32 implies data.subrange(2, 34)[k]
                            == stored_account@[k] by {
                            assert(data[k + 2] == bytes[k + 2]);
                        }
                    }
                }
                if RPSState::unpacked(data) == Some(state) {
                    Pubkey::lemma_view_of(data.subrange(2, 34));
                    assert(bytes =~= data.subrange(0, 34));
                }
            },
            RPSState::Outcome { outcome: RockPaperScissorsOutcome::Winner { account } } => {
                account.lemma_of_view();
                if bytes.is_prefix_of(data) {
                    assert(data[0] == bytes[0]);
                    assert(data[1] == bytes[1]);
                    assert(data.subrange(2, 34) =~= account@) by {
                        assert forall|k: int| 0 <= k < 32 implies data.subrange(2, 34)[k]
                            == account@[k] by {
                            assert(data[k + 2] == bytes[k + 2]);
                        }
                    }
                }
                if RPSState::unpacked(data) == Some(state) {
                    Pubkey::lemma_view_of(data.subrange(2, 34));
                    assert(bytes =~= data.subrange(0, 34));
                }
            },
            RPSState::Outcome { outcome: RockPaperScissorsOutcome::Draw } => {
                if bytes.is_prefix_of(data) {
                    assert(data[0] == bytes[0]);
                    assert(data[1] == bytes[1]);
                }
                if RPSState::unpacked(data) == Some(state) {
                    assert(bytes =~= data.subrange(0, 2));
                }
            },
        }
    }
}

/// What is stored into an account's data is read back from it, and storing
/// changes neither the length of the data nor what lies behind the state.
pub proof fn lemma_stored_state_is_read_back(state: RPSState, data: Seq<u8>)
    requires
        data.len() >= STATE_BYTES,
    ensures
        state.stored_in(data).len() == data.len(),
        state.stored_in(data).subrange(0, STATE_BYTES as int) == state.packed(),
        state.stored_in(data).subrange(STATE_BYTES as int, data.len() as int) == data.subrange(
            STATE_BYTES as int,
            data.len() as int,
        ),
        RPSState::unpacked(state.stored_in(data)) == Some(state),
{
    lemma_state_round_trip(state);
    let stored = state.stored_in(data);
    assert(stored.subrange(0, 34) =~= state.packed());
    assert(stored.subrange(34, data.len() as int) =~= data.subrange(34, data.len() as int));
    assert(stored.subrange(2, 34) =~= state.packed().subrange(2, 34));
    assert(stored[0] == state.packed()[0]);
    assert(stored[1] == state.packed()[1]);
}

/// A state with a stored move or a winner has no padding, so data that holds
/// such a state holds exactly its stored form, and storing it again changes
/// no byte.
pub proof fn lemma_full_state_has_one_form(state: RPSState, data: Seq<u8>)
    requires
        RPSState::unpacked(data) == Some(state),
        state.encoded().len() == STATE_BYTES,
    ensures
        data.subrange(0, STATE_BYTES as int) == state.packed(),
        state.stored_in(data) == data,
{
    lemma_reads_what_it_starts_with(data, state);
    assert(data.subrange(0, 34) =~= state.packed());
    assert(state.stored_in(data) =~= data);
}

} // verus!
