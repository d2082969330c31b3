//! The round itself: moves, the state kept in the game account, and what a
//! submitted move does to it.

use vstd::prelude::*;
use vstd::std_specs::cmp::PartialEqSpecImpl;
use crate::account::Account;
use crate::error::ProcessError;
use crate::layout::{lemma_full_state_has_one_form, STATE_BYTES};
use crate::pubkey::Pubkey;

verus! {

/// What a player can play.
#[derive(Clone, Copy, Debug, PartialEq, Eq, Structural)]
pub enum RockPaperScissorsMove {
    Rock,
    Paper,
    Scissors,
}

/// How a round ended.
#[derive(Clone, Copy, Debug, Eq)]
pub enum RockPaperScissorsOutcome {
    /// The player with this identity won.
    Winner { account: Pubkey },
    /// Both players played the same move.
    Draw,
}

/// The state of one round.
///
/// A round starts at `Nil`, holds the first player's move until a second
/// player moves, and ends with an outcome that no later move changes.
#[derive(Clone, Copy, Debug, Eq)]
pub enum RPSState {
    /// No move has been submitted.
    Nil,
    /// One player has moved; the round waits for another.
    OneMoveStored { stored_move: RockPaperScissorsMove, stored_account: Pubkey },
    /// Two players have moved. The round accepts no further move.
    Outcome { outcome: RockPaperScissorsOutcome },
}

/// What a submitted move did to the round. The host may log it; nothing
/// depends on it.
#[derive(Clone, Copy, Debug, PartialEq, Eq, Structural)]
pub enum Notice {
    /// The round was empty and now holds this move.
    FirstMoveStored,
    /// The sender's earlier move stands; the round waits for the opponent.
    AlreadyPlayed,
    /// The second player moved and the round has its outcome.
    RoundDecided,
    /// The round had its outcome already and was left alone.
    RoundAlreadyPlayed,
}

impl PartialEq for RockPaperScissorsOutcome {
    fn eq(&self, other: &Self) -> (r: bool) {
        match (*self, *other) {
            (
                RockPaperScissorsOutcome::Winner { account: a },
                RockPaperScissorsOutcome::Winner { account: b },
            ) => a == b,
            (RockPaperScissorsOutcome::Draw, RockPaperScissorsOutcome::Draw) => true,
            _ => false,
        }
    }
}

impl PartialEqSpecImpl for RockPaperScissorsOutcome {
    open spec fn obeys_eq_spec() -> bool {
        true
    }

    open spec fn eq_spec(&self, other: &Self) -> bool {
        *self == *other
    }
}

impl PartialEq for RPSState {
    fn eq(&self, other: &Self) -> (r: bool) {
        match (*self, *other) {
            (RPSState::Nil, RPSState::Nil) => true,
            (
                RPSState::OneMoveStored { stored_move: m, stored_account: a },
                RPSState::OneMoveStored { stored_move: n, stored_account: b },
            ) => m == n && a == b,
            (RPSState::Outcome { outcome: o }, RPSState::Outcome { outcome: p }) => o == p,
            _ => false,
        }
    }
}

impl PartialEqSpecImpl for RPSState {
    open spec fn obeys_eq_spec() -> bool {
        true
    }

    open spec fn eq_spec(&self, other: &Self) -> bool {
        *self == *other
    }
}

impl Default for RPSState {
    /// The empty round.
    fn default() -> (state: Self)
        ensures
            state == RPSState::Nil,
    {
        RPSState::Nil
    }
}

impl Notice {
    /// The line that the host logs for the notice, if it logs one.
    pub open spec fn text(self) -> Option<Seq<char>> {
        match self {
            Notice::FirstMoveStored => Some("Storing first move"@),
            Notice::AlreadyPlayed => Some(
                "You've played already, wait until the other player plays"@,
            ),
            Notice::RoundDecided => None,
            Notice::RoundAlreadyPlayed => Some(
                "This round has already been played. Pass reset to start a new one"@,
            ),
        }
    }

    /// The line to log for the notice. A round that was just decided logs
    /// nothing.
    pub fn message(self) -> (line: Option<&'static str>)
        ensures
            match line {
                Some(s) => self.text() == Some(s@),
                None => self.text() is None,
            },
    {
        match self {
            Notice::FirstMoveStored => Some("Storing first move"),
            Notice::AlreadyPlayed => Some(
                "You've played already, wait until the other player plays",
            ),
            Notice::RoundDecided => None,
            Notice::RoundAlreadyPlayed => Some(
                "This round has already been played. Pass reset to start a new one",
            ),
        }
    }
}

impl RockPaperScissorsMove {
    /// The byte that stands for the move in an instruction and in a stored
    /// state.
    pub open spec fn tag(self) -> u8 {
        match self {
            RockPaperScissorsMove::Rock => 0,
            RockPaperScissorsMove::Paper => 1,
            RockPaperScissorsMove::Scissors => 2,
        }
    }

    /// The move that `b` stands for, if it stands for one.
    pub open spec fn of_tag(b: u8) -> Option<RockPaperScissorsMove> {
        if b == 0 {
            Some(RockPaperScissorsMove::Rock)
        } else if b == 1 {
            Some(RockPaperScissorsMove::Paper)
        } else if b == 2 {
            Some(RockPaperScissorsMove::Scissors)
        } else {
            None
        }
    }

    /// Paper beats rock, scissors beat paper, rock beats scissors.
    pub open spec fn beats(self, other: RockPaperScissorsMove) -> bool {
        ||| self is Paper && other is Rock
        ||| self is Scissors && other is Paper
        ||| self is Rock && other is Scissors
    }

    /// The move's tag.
    pub fn to_tag(self) -> (b: u8)
        ensures
            b == self.tag(),
    {
        match self {
            RockPaperScissorsMove::Rock => 0,
            RockPaperScissorsMove::Paper => 1,
            RockPaperScissorsMove::Scissors => 2,
        }
    }

    /// The move that `b` stands for; none for a byte above 2.
    pub fn from_tag(b: u8) -> (r: Option<RockPaperScissorsMove>)
        ensures
            r == RockPaperScissorsMove::of_tag(b),
    {
        if b == 0 {
            Some(RockPaperScissorsMove::Rock)
        } else if b == 1 {
            Some(RockPaperScissorsMove::Paper)
        } else if b == 2 {
            Some(RockPaperScissorsMove::Scissors)
        } else {
            None
        }
    }
}

/// The outcome of a round in which `stored_account` played `stored_move`
/// first and `sender` then played `sent_move`.
pub open spec fn decided(
    stored_move: RockPaperScissorsMove,
    stored_account: Pubkey,
    sent_move: RockPaperScissorsMove,
    sender: Pubkey,
) -> RockPaperScissorsOutcome {
    if sent_move == stored_move {
        RockPaperScissorsOutcome::Draw
    } else if sent_move.beats(stored_move) {
        RockPaperScissorsOutcome::Winner { account: sender }
    } else {
        RockPaperScissorsOutcome::Winner { account: stored_account }
    }
}

/// Decides a round between the first player's stored move and the second
/// player's move.
pub fn resolve(
    stored_move: RockPaperScissorsMove,
    stored_account: Pubkey,
    sent_move: RockPaperScissorsMove,
    sender: Pubkey,
) -> (outcome: RockPaperScissorsOutcome)
    ensures
        outcome == decided(stored_move, stored_account, sent_move, sender),
{
    match (stored_move, sent_move) {
        (RockPaperScissorsMove::Paper, RockPaperScissorsMove::Paper)
        | (RockPaperScissorsMove::Rock, RockPaperScissorsMove::Rock)
        | (RockPaperScissorsMove::Scissors, RockPaperScissorsMove::Scissors) => {
            RockPaperScissorsOutcome::Draw
        },
        (RockPaperScissorsMove::Rock, RockPaperScissorsMove::Paper)
        | (RockPaperScissorsMove::Paper, RockPaperScissorsMove::Scissors)
        | (RockPaperScissorsMove::Scissors, RockPaperScissorsMove::Rock) => {
            RockPaperScissorsOutcome::Winner { account: sender }
        },
        _ => RockPaperScissorsOutcome::Winner { account: stored_account },
    }
}

/// Each pair of moves has its outcome, and only one: a draw exactly when the
/// moves are equal, the second player where the second move beats the first,
/// the first player where the first move beats the second. Of any pair of
/// moves exactly one of the three holds.
pub proof fn lemma_resolution_is_total(
    stored_move: RockPaperScissorsMove,
    stored_account: Pubkey,
    sent_move: RockPaperScissorsMove,
    sender: Pubkey,
)
    ensures
        sent_move == stored_move <==> decided(stored_move, stored_account, sent_move, sender)
            is Draw,
        sent_move.beats(stored_move) ==> decided(stored_move, stored_account, sent_move, sender)
            == (RockPaperScissorsOutcome::Winner { account: sender }),
        stored_move.beats(sent_move) ==> decided(stored_move, stored_account, sent_move, sender)
            == (RockPaperScissorsOutcome::Winner { account: stored_account }),
        decided(stored_move, stored_account, sent_move, sender) is Draw || decided(
            stored_move,
            stored_account,
            sent_move,
            sender,
        ) == (RockPaperScissorsOutcome::Winner { account: sender }) || decided(
            stored_move,
            stored_account,
            sent_move,
            sender,
        ) == (RockPaperScissorsOutcome::Winner { account: stored_account }),
        sent_move == stored_move || sent_move.beats(stored_move) || stored_move.beats(sent_move),
        !(sent_move == stored_move && sent_move.beats(stored_move)),
        !(sent_move == stored_move && stored_move.beats(sent_move)),
        !(sent_move.beats(stored_move) && stored_move.beats(sent_move)),
{
}

impl RPSState {
    /// How far the round has come: 0 with no move, 1 with one, 2 when decided.
    pub open spec fn stage(self) -> nat {
        match self {
            RPSState::Nil => 0,
            RPSState::OneMoveStored { .. } => 1,
            RPSState::Outcome { .. } => 2,
        }
    }

    /// The state of the round once `sender` has submitted `sent_move`.
    pub open spec fn after_move(self, sent_move: RockPaperScissorsMove, sender: Pubkey) -> RPSState {
        match self {
            RPSState::Nil => RPSState::OneMoveStored {
                stored_move: sent_move,
                stored_account: sender,
            },
            RPSState::OneMoveStored { stored_move, stored_account } => if stored_account == sender {
                self
            } else {
                RPSState::Outcome {
                    outcome: decided(stored_move, stored_account, sent_move, sender),
                }
            },
            RPSState::Outcome { .. } => self,
        }
    }

    /// What a move submitted by `sender` in this state is answered with.
    pub open spec fn notice_for(self, sender: Pubkey) -> Notice {
        match self {
            RPSState::Nil => Notice::FirstMoveStored,
            RPSState::OneMoveStored { stored_account, .. } => if stored_account == sender {
                Notice::AlreadyPlayed
            } else {
                Notice::RoundDecided
            },
            RPSState::Outcome { .. } => Notice::RoundAlreadyPlayed,
        }
    }

    /// Advances the round by one submitted move.
    pub fn play(self, sent_move: RockPaperScissorsMove, sender: Pubkey) -> (r: (RPSState, Notice))
        ensures
            r.0 == self.after_move(sent_move, sender),
            r.1 == self.notice_for(sender),
    {
        match self {
            RPSState::Nil => (
                RPSState::OneMoveStored { stored_move: sent_move, stored_account: sender },
                Notice::FirstMoveStored,
            ),
            RPSState::OneMoveStored { stored_move, stored_account } => {
                if stored_account == sender {
                    (self, Notice::AlreadyPlayed)
                } else {
                    let outcome = resolve(stored_move, stored_account, sent_move, sender);
                    (RPSState::Outcome { outcome }, Notice::RoundDecided)
                }
            },
            RPSState::Outcome { .. } => (self, Notice::RoundAlreadyPlayed),
        }
    }
}

/// A move never takes the round back, and takes it at most one stage on.
pub proof fn lemma_stage_never_falls(
    state: RPSState,
    sent_move: RockPaperScissorsMove,
    sender: Pubkey,
)
    ensures
        state.stage() <= state.after_move(sent_move, sender).stage() <= state.stage() + 1,
{
}

/// A decided round is final: no move by anyone changes it, and storing it
/// again over its own stored form changes no byte.
pub proof fn lemma_decided_round_is_final(
    state: RPSState,
    sent_move: RockPaperScissorsMove,
    sender: Pubkey,
    data: Seq<u8>,
)
    requires
        state is Outcome,
    ensures
        state.after_move(sent_move, sender) == state,
        state.notice_for(sender) == Notice::RoundAlreadyPlayed,
        data.len() >= STATE_BYTES && data.subrange(0, STATE_BYTES as int) == state.packed()
            ==> state.after_move(sent_move, sender).stored_in(data) == data,
{
    if data.len() >= STATE_BYTES && data.subrange(0, STATE_BYTES as int) == state.packed() {
        assert(state.stored_in(data) =~= data.subrange(0, 34) + data.subrange(
            34,
            data.len() as int,
        ));
        assert(state.stored_in(data) =~= data);
    }
}

/// A second move by the player whose move is stored changes nothing,
/// whatever the move: the round stays as it is, and so does every byte of
/// data that holds it.
pub proof fn lemma_same_sender_changes_nothing(
    stored_move: RockPaperScissorsMove,
    stored_account: Pubkey,
    sent_move: RockPaperScissorsMove,
    data: Seq<u8>,
)
    ensures
        (RPSState::OneMoveStored { stored_move, stored_account }).after_move(
            sent_move,
            stored_account,
        ) == (RPSState::OneMoveStored { stored_move, stored_account }),
        (RPSState::OneMoveStored { stored_move, stored_account }).notice_for(stored_account)
            == Notice::AlreadyPlayed,
        RPSState::unpacked(data) == Some(RPSState::OneMoveStored { stored_move, stored_account })
            ==> (RPSState::OneMoveStored { stored_move, stored_account }).after_move(
            sent_move,
            stored_account,
        ).stored_in(data) == data,
{
    let state = RPSState::OneMoveStored { stored_move, stored_account };
    if RPSState::unpacked(data) == Some(state) {
        stored_account.lemma_of_view();
        lemma_full_state_has_one_form(state, data);
    }
}

/// The round that the game account holds, once the account has been found
/// and its owner checked, in that order and before any byte of it is read.
pub open spec fn round_of(program_id: Pubkey, accounts: Seq<Account>) -> Result<
    RPSState,
    ProcessError,
> {
    if accounts.len() == 0 {
        Err(ProcessError::MissingAccount)
    } else if accounts[0].owner != program_id {
        Err(ProcessError::IncorrectOwner)
    } else {
        match RPSState::unpacked(accounts[0].data@) {
            Some(state) => Ok(state),
            None => Err(ProcessError::CorruptState),
        }
    }
}

/// What a move submitted by `sender` is answered with: the notice of the
/// round that the game account holds, or the reason why there is none.
pub open spec fn answer(program_id: Pubkey, accounts: Seq<Account>, sender: Pubkey) -> Result<
    Notice,
    ProcessError,
> {
    match round_of(program_id, accounts) {
        Ok(state) => Ok(state.notice_for(sender)),
        Err(e) => Err(e),
    }
}

/// How the accounts `after` a submitted move relate to those `before` it.
///
/// Where the game account holds a round, its data is that round advanced by
/// the move, stored over the first `STATE_BYTES` bytes; its owner and what
/// lies behind those bytes stay. Where it holds none, nothing changes. No
/// other account changes in either case.
pub open spec fn moved(
    program_id: Pubkey,
    before: Seq<Account>,
    after: Seq<Account>,
    sent_move: RockPaperScissorsMove,
    sender: Pubkey,
) -> bool {
    &&& after.len() == before.len()
    &&& forall|k: int| 1 <= k < before.len() ==> after[k] == before[k]
    &&& match round_of(program_id, before) {
        Ok(state) => {
            &&& after[0].owner == before[0].owner
            &&& after[0].data@ == state.after_move(sent_move, sender).stored_in(before[0].data@)
        },
        Err(_) => after == before,
    }
}

/// Replaces the first `STATE_BYTES` bytes of `data` by `bytes`.
fn overwrite(data: &mut Vec<u8>, bytes: &Vec<u8>)
    requires
        old(data).len() >= STATE_BYTES,
        bytes.len() == STATE_BYTES,
    ensures
        final(data)@ == bytes@ + old(data)@.subrange(STATE_BYTES as int, old(data).len() as int),
{
    let mut i: usize = 0;
    while i < STATE_BYTES
        invariant
            i <= STATE_BYTES,
            bytes.len() == STATE_BYTES,
            data.len() == old(data).len(),
            data.len() >= STATE_BYTES,
            forall|k: int| 0 <= k < i ==> data[k] == bytes[k],
            forall|k: int| i <= k < data.len() ==> data[k] == old(data)[k],
        decreases STATE_BYTES - i,
    {
        data[i] = bytes[i];
        i += 1;
    }
    assert(data@ =~= bytes@ + old(data)@.subrange(STATE_BYTES as int, old(data).len() as int));
}

/// Submits `sent_move` for `sender` to the round kept in the first account.
///
/// The account must be there, be owned by `program_id` and hold a game state,
/// checked in that order. If a check fails, nothing is written. Otherwise the
/// round advances by the move and is stored over the first `STATE_BYTES` bytes
/// of the account's data in one piece at the end, also where the move left
/// the round as it was.
pub fn process_rps_set(
    program_id: &Pubkey,
    accounts: &mut [Account],
    sent_move: RockPaperScissorsMove,
    sender: Pubkey,
) -> (r: Result<Notice, ProcessError>)
    ensures
        r == answer(*program_id, old(accounts)@, sender),
        moved(*program_id, old(accounts)@, final(accounts)@, sent_move, sender),
        old(accounts)@.len() > 0 && old(accounts)@[0].owner != *program_id ==> r == Err::<
            Notice,
            ProcessError,
        >(ProcessError::IncorrectOwner) && final(accounts)@ == old(accounts)@,
{
    if accounts.len() == 0 {
        return Err(ProcessError::MissingAccount);
    }
    if accounts[0].owner != *program_id {
        return Err(ProcessError::IncorrectOwner);
    }
    let state = match RPSState::unpack(accounts[0].data.as_slice()) {
        Ok(state) => state,
        Err(e) => {
            return Err(e);
        },
    };
    let (next, notice) = state.play(sent_move, sender);
    let bytes = next.pack();
    overwrite(&mut accounts[0].data, &bytes);
    Ok(notice)
}

} // verus!
