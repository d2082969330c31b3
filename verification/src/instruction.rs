//! The instructions that the program takes, their bytes on the wire, and the
//! requests that a client sends them in.
//!
//! An instruction is a tag byte followed by its fields, nothing between them:
//!
//! ```text
//! byte 0       : 0 = Greeting, 1 = RPSSet
//! Greeting
//!   bytes 1..5   : id, least significant byte first
//! RPSSet
//!   bytes 1..33  : sender
//!   byte 33      : move (0 = Rock, 1 = Paper, 2 = Scissors)
//! ```

use vstd::prelude::*;
use vstd::std_specs::cmp::PartialEqSpecImpl;
use crate::bytes::{get_u32_le, lemma_u32_le_round_trip, lemma_u32_of_le_round_trip, put_u32_le,
    u32_le, u32_of_le};
use crate::error::{DecodeError, ProgramError};
use crate::pubkey::Pubkey;
use crate::rps::RockPaperScissorsMove;

verus! {

/// One instruction: a tag byte, then the fields in the order written here.
#[derive(Clone, Copy, Debug, Eq)]
pub enum MyInstruction {
    /// Greets the account; served by the greeting counter, not by the game.
    Greeting { id: u32 },
    /// Submits `rps_move` for `sender` to the round in the first account.
    RPSSet { sender: Pubkey, rps_move: RockPaperScissorsMove },
}

impl PartialEq for MyInstruction {
    fn eq(&self, other: &Self) -> (r: bool) {
        match (*self, *other) {
            (MyInstruction::Greeting { id: a }, MyInstruction::Greeting { id: b }) => a == b,
            (
                MyInstruction::RPSSet { sender: a, rps_move: m },
                MyInstruction::RPSSet { sender: b, rps_move: n },
            ) => a == b && m == n,
            _ => false,
        }
    }
}

impl PartialEqSpecImpl for MyInstruction {
    open spec fn obeys_eq_spec() -> bool {
        true
    }

    open spec fn eq_spec(&self, other: &Self) -> bool {
        *self == *other
    }
}

impl MyInstruction {
    /// The instruction's bytes: tag 0 and the id, least significant byte
    /// first, or tag 1, the sender's 32 bytes and the move's tag.
    pub open spec fn packed(self) -> Seq<u8> {
        match self {
            MyInstruction::Greeting { id } => seq![0u8] + u32_le(id),
            MyInstruction::RPSSet { sender, rps_move } => seq![1u8] + sender@ + seq![
                rps_move.tag(),
            ],
        }
    }

    /// The instruction that `input` starts with, if it starts with one.
    ///
    /// Bytes behind the instruction are not looked at. There is none where
    /// the tag names no instruction, where the input ends before the
    /// instruction does, or where the move's tag names no move.
    pub open spec fn unpacked(input: Seq<u8>) -> Option<MyInstruction> {
        if input.len() == 0 {
            None
        } else if input[0] == 0 {
            if input.len() >= 5 {
                Some(MyInstruction::Greeting { id: u32_of_le(input.subrange(1, 5)) })
            } else {
                None
            }
        } else if input[0] == 1 {
            if input.len() >= 34 {
                match RockPaperScissorsMove::of_tag(input[33]) {
                    Some(rps_move) => Some(
                        MyInstruction::RPSSet {
                            sender: Pubkey::of(input.subrange(1, 33)),
                            rps_move,
                        },
                    ),
                    None => None,
                }
            } else {
                None
            }
        } else {
            None
        }
    }

    /// Encodes the instruction. This never fails.
    pub fn pack(&self) -> (out: Vec<u8>)
        ensures
            out@ == self.packed(),
    {
        let mut out: Vec<u8> = Vec::new();
        match *self {
            MyInstruction::Greeting { id } => {
                out.push(0u8);
                put_u32_le(&mut out, id);
            },
            MyInstruction::RPSSet { sender, rps_move } => {
                out.push(1u8);
                sender.write(&mut out);
                out.push(rps_move.to_tag());
            },
        }
        assert(out@ =~= self.packed());
        out
    }

    /// Decodes the instruction that `input` starts with: the one whose bytes
    /// `input` begins with, whatever follows them. Input that begins with the
    /// bytes of no instruction is malformed.
    pub fn unpack(input: &[u8]) -> (r: Result<MyInstruction, DecodeError>)
        ensures
            r == match MyInstruction::unpacked(input@) {
                Some(instruction) => Ok::<MyInstruction, DecodeError>(instruction),
                None => Err(DecodeError::Malformed),
            },
            forall|instruction: MyInstruction|
                r == Ok::<MyInstruction, DecodeError>(instruction)
                    <==> #[trigger] instruction.packed().is_prefix_of(input@),
    {
        proof {
            assert forall|instruction: MyInstruction|
                MyInstruction::unpacked(input@) == Some(instruction)
                    <==> #[trigger] instruction.packed().is_prefix_of(input@) by {
                lemma_decodes_what_it_starts_with(input@, instruction);
            }
        }
        if input.len() == 0 {
            return Err(DecodeError::Malformed);
        }
        let tag: u8 = input[0];
        if tag == 0 {
            if input.len() < 5 {
                return Err(DecodeError::Malformed);
            }
            Ok(MyInstruction::Greeting { id: get_u32_le(input, 1) })
        } else if tag == 1 {
            if input.len() < 34 {
                return Err(DecodeError::Malformed);
            }
            match RockPaperScissorsMove::from_tag(input[33]) {
                Some(rps_move) => Ok(
                    MyInstruction::RPSSet { sender: Pubkey::read(input, 1), rps_move },
                ),
                None => Err(DecodeError::Malformed),
            }
        } else {
            Err(DecodeError::Malformed)
        }
    }
}

/// Decoding what was encoded gives the instruction back.
pub proof fn lemma_instruction_round_trip(instruction: MyInstruction)
    ensures
        MyInstruction::unpacked(instruction.packed()) == Some(instruction),
{
    lemma_decodes_what_it_starts_with(instruction.packed(), instruction);
}

/// The input decodes to an instruction exactly when it starts with the
/// bytes of that instruction: what follows them is ignored, and an input that
/// ends before them, or starts with the bytes of no instruction, decodes to
/// nothing.
pub proof fn lemma_decodes_what_it_starts_with(input: Seq<u8>, instruction: MyInstruction)
    ensures
        MyInstruction::unpacked(input) == Some(instruction) <==> instruction.packed().is_prefix_of(
            input,
        ),
{
    let bytes = instruction.packed();
    match instruction {
        MyInstruction::Greeting { id } => {
            lemma_u32_le_round_trip(id);
            if bytes.is_prefix_of(input) {
                assert(input[0] == bytes[0]);
                assert(input.subrange(1, 5) =~= u32_le(id)) by {
                    assert forall|k: int| 0 <= k < 4 implies input.subrange(1, 5)[k] == u32_le(
                        id,
                    )[k] by {
                        assert(input[k + 1] == bytes[k + 1]);
                    }
                }
            }
            if MyInstruction::unpacked(input) == Some(instruction) {
                lemma_u32_of_le_round_trip(input.subrange(1, 5));
                assert(bytes =~= input.subrange(0, 5));
            }
        },
        MyInstruction::RPSSet { sender, rps_move } => {
            sender.lemma_of_view();
            if bytes.is_prefix_of(input) {
                assert(input[0] == bytes[0]);
                assert(input[33] == bytes[33]);
                assert(input.subrange(1, 33) =~= sender@) by {
                    assert forall|k: int| 0 <= k < 32 implies input.subrange(1, 33)[k]
                        == sender@[k] by {
                        assert(input[k + 1] == bytes[k + 1]);
                    }
                }
            }
            if MyInstruction::unpacked(input) == Some(instruction) {
                Pubkey::lemma_view_of(input.subrange(1, 33));
                assert(bytes =~= input.subrange(0, 34));
            }
        },
    }
}

/// An account that an instruction names, and how it may use it.
#[derive(Clone, Copy, Debug, PartialEq, Eq)]
pub struct AccountMeta {
    pub pubkey: Pubkey,
    /// Whether the account must have signed the request.
    pub is_signer: bool,
    /// Whether the program may change the account's data.
    pub is_writable: bool,
}

impl AccountMeta {
    /// Names an account that the program may write to.
    pub fn new(pubkey: Pubkey, is_signer: bool) -> (meta: AccountMeta)
        ensures
            meta == (AccountMeta { pubkey, is_signer, is_writable: true }),
    {
        AccountMeta { pubkey, is_signer, is_writable: true }
    }
}

/// A request to a program: the accounts it may touch and the encoded
/// instruction.
#[derive(Debug, PartialEq, Eq)]
pub struct Instruction {
    pub program_id: Pubkey,
    pub accounts: Vec<AccountMeta>,
    pub data: Vec<u8>,
}

impl Clone for Instruction {
    fn clone(&self) -> (copy: Self)
        ensures
            copy.program_id == self.program_id,
            copy.accounts@ == self.accounts@,
            copy.data@ == self.data@,
    {
        Instruction {
            program_id: self.program_id,
            accounts: self.accounts.clone(),
            data: self.data.clone(),
        }
    }
}

/// Whether `request` asks `program_id` to carry out `instruction` on the one
/// account `account`, writable and unsigned.
pub open spec fn requests(
    request: Instruction,
    program_id: Pubkey,
    account: Pubkey,
    instruction: MyInstruction,
) -> bool {
    &&& request.program_id == program_id
    &&& request.accounts@ == seq![
        AccountMeta { pubkey: account, is_signer: false, is_writable: true },
    ]
    &&& request.data@ == instruction.packed()
}

fn request(program_id: &Pubkey, account: &Pubkey, instruction: MyInstruction) -> (r: Instruction)
    ensures
        requests(r, *program_id, *account, instruction),
{
    let mut accounts: Vec<AccountMeta> = Vec::with_capacity(1);
    accounts.push(AccountMeta::new(*account, false));
    let r = Instruction { program_id: *program_id, accounts, data: instruction.pack() };
    assert(r.accounts@ =~= seq![
        AccountMeta { pubkey: *account, is_signer: false, is_writable: true },
    ]);
    r
}

/// The request that greets `greeted_pubkey` with `id`.
pub fn greeting(program_id: &Pubkey, greeted_pubkey: &Pubkey, id: u32) -> (r: Result<
    Instruction,
    ProgramError,
>)
    ensures
        r is Ok,
        requests(r->Ok_0, *program_id, *greeted_pubkey, (MyInstruction::Greeting { id })),
{
    Ok(request(program_id, greeted_pubkey, MyInstruction::Greeting { id }))
}

/// The request that submits `rps_move` for `sender` to the round kept in
/// `greeted_pubkey`.
pub fn rps_send(
    program_id: &Pubkey,
    greeted_pubkey: &Pubkey,
    rps_move: RockPaperScissorsMove,
    sender: &Pubkey,
) -> (r: Result<Instruction, ProgramError>)
    ensures
        r is Ok,
        requests(
            r->Ok_0,
            *program_id,
            *greeted_pubkey,
            (MyInstruction::RPSSet { sender: *sender, rps_move }),
        ),
{
    Ok(request(program_id, greeted_pubkey, MyInstruction::RPSSet { sender: *sender, rps_move }))
}

} // verus!
