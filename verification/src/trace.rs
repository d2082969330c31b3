//! Whole games: what a sequence of submitted moves leads to, from the empty
//! round on, and what holds of every such sequence.

use vstd::prelude::*;
use crate::account::Account;
use crate::layout::{lemma_state_round_trip, lemma_stored_state_is_read_back, STATE_BYTES};
use crate::pubkey::Pubkey;
use crate::rps::{lemma_decided_round_is_final, lemma_stage_never_falls, moved, RPSState,
    RockPaperScissorsMove};

verus! {

/// The round that a sequence of submitted moves leads to from the empty
/// round, each move given with its sender.
pub open spec fn replay(moves: Seq<(RockPaperScissorsMove, Pubkey)>) -> RPSState
    decreases moves.len(),
{
    if moves.len() == 0 {
        RPSState::Nil
    } else {
        replay(moves.drop_last()).after_move(moves.last().0, moves.last().1)
    }
}

/// The data of a game account after the moves have been submitted to it one
/// by one, each move given with its sender. Data that holds no round stays
/// as it is.
pub open spec fn played(data: Seq<u8>, moves: Seq<(RockPaperScissorsMove, Pubkey)>) -> Seq<u8>
    decreases moves.len(),
{
    if moves.len() == 0 {
        data
    } else {
        let before = played(data, moves.drop_last());
        match RPSState::unpacked(before) {
            Some(state) => state.after_move(moves.last().0, moves.last().1).stored_in(before),
            None => before,
        }
    }
}

/// A move submitted to a game account that the executing program owns
/// continues the game: if the account's data was what `moves` had made of
/// `data`, it then is what `moves` and this move make of it.
pub proof fn lemma_move_continues_the_game(
    program_id: Pubkey,
    before: Seq<Account>,
    after: Seq<Account>,
    sent_move: RockPaperScissorsMove,
    sender: Pubkey,
    data: Seq<u8>,
    moves: Seq<(RockPaperScissorsMove, Pubkey)>,
)
    requires
        before.len() > 0,
        before[0].owner == program_id,
        before[0].data@ == played(data, moves),
        moved(program_id, before, after, sent_move, sender),
    ensures
        after[0].data@ == played(data, moves.push((sent_move, sender))),
{
    let longer = moves.push((sent_move, sender));
    assert(longer.drop_last() =~= moves);
    assert(longer.last() == (sent_move, sender));
}

/// From the empty round on, the stage never falls: after more moves the
/// round is at least as far as it was after fewer.
pub proof fn lemma_progress_is_monotonic(
    moves: Seq<(RockPaperScissorsMove, Pubkey)>,
    fewer: int,
    more: int,
)
    requires
        0 <= fewer <= more <= moves.len(),
    ensures
        replay(moves.take(fewer)).stage() <= replay(moves.take(more)).stage(),
    decreases more - fewer,
{
    if fewer < more {
        lemma_progress_is_monotonic(moves, fewer, more - 1);
        let longer = moves.take(more);
        assert(longer.drop_last() =~= moves.take(more - 1));
        lemma_stage_never_falls(replay(moves.take(more - 1)), longer.last().0, longer.last().1);
    }
}

/// From the empty round on, a decided round stays what it is: once some
/// moves have decided it, any further moves lead to the same round.
pub proof fn lemma_decided_round_stays(
    moves: Seq<(RockPaperScissorsMove, Pubkey)>,
    fewer: int,
    more: int,
)
    requires
        0 <= fewer <= more <= moves.len(),
        replay(moves.take(fewer)) is Outcome,
    ensures
        replay(moves.take(more)) == replay(moves.take(fewer)),
    decreases more - fewer,
{
    if fewer < more {
        lemma_decided_round_stays(moves, fewer, more - 1);
        let longer = moves.take(more);
        assert(longer.drop_last() =~= moves.take(more - 1));
    }
}

/// Data that starts with the stored form of the empty round holds, after any
/// moves, the stored form of the round that those moves lead to, and is
/// unchanged behind it.
pub proof fn lemma_played_from_empty(data: Seq<u8>, moves: Seq<(RockPaperScissorsMove, Pubkey)>)
    requires
        data.len() >= STATE_BYTES,
        data.subrange(0, STATE_BYTES as int) == RPSState::Nil.packed(),
    ensures
        played(data, moves).len() == data.len(),
        played(data, moves).subrange(0, STATE_BYTES as int) == replay(moves).packed(),
        played(data, moves).subrange(STATE_BYTES as int, data.len() as int) == data.subrange(
            STATE_BYTES as int,
            data.len() as int,
        ),
        RPSState::unpacked(played(data, moves)) == Some(replay(moves)),
    decreases moves.len(),
{
    if moves.len() == 0 {
        lemma_state_round_trip(RPSState::Nil);
        assert(data[0] == RPSState::Nil.packed()[0]) by {
            assert(data.subrange(0, STATE_BYTES as int)[0] == data[0]);
        }
    } else {
        lemma_played_from_empty(data, moves.drop_last());
        let before = played(data, moves.drop_last());
        lemma_stored_state_is_read_back(replay(moves), before);
        assert(played(data, moves).subrange(STATE_BYTES as int, data.len() as int)
            =~= data.subrange(STATE_BYTES as int, data.len() as int));
    }
}

/// From the stored form of the empty round on, a decided round keeps its
/// bytes: once some moves have decided it, further moves change no byte of the
/// data.
pub proof fn lemma_decided_bytes_stay(
    data: Seq<u8>,
    moves: Seq<(RockPaperScissorsMove, Pubkey)>,
    fewer: int,
    more: int,
)
    requires
        data.len() >= STATE_BYTES,
        data.subrange(0, STATE_BYTES as int) == RPSState::Nil.packed(),
        0 <= fewer <= more <= moves.len(),
        replay(moves.take(fewer)) is Outcome,
    ensures
        played(data, moves.take(more)) == played(data, moves.take(fewer)),
    decreases more - fewer,
{
    if fewer < more {
        lemma_decided_bytes_stay(data, moves, fewer, more - 1);
        lemma_decided_round_stays(moves, fewer, more - 1);
        let longer = moves.take(more);
        assert(longer.drop_last() =~= moves.take(more - 1));
        let before = played(data, moves.take(more - 1));
        let state = replay(moves.take(more - 1));
        lemma_played_from_empty(data, moves.take(more - 1));
        lemma_decided_round_is_final(state, longer.last().0, longer.last().1, before);
    }
}

} // verus!
