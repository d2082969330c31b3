use rock_paper_scissors::error::DecodeError;
use rock_paper_scissors::instruction::{greeting, rps_send, AccountMeta, MyInstruction};
use rock_paper_scissors::pubkey::Pubkey;
use rock_paper_scissors::rps::RockPaperScissorsMove;

fn key(byte: u8) -> Pubkey {
    Pubkey::new_from_array([byte; 32])
}

fn move_bytes(sender: u8, tag: u8) -> Vec<u8> {
    let mut bytes = vec![1u8];
    bytes.extend_from_slice(&[sender; 32]);
    bytes.push(tag);
    bytes
}

#[test]
fn greeting_bytes() {
    assert_eq!(MyInstruction::Greeting { id: 0 }.pack(), vec![0, 0, 0, 0, 0]);
    assert_eq!(MyInstruction::Greeting { id: 0x0a0b_0c0d }.pack(), vec![0, 0x0d, 0x0c, 0x0b, 0x0a]);
    assert_eq!(
        MyInstruction::unpack(&[0, 0x0d, 0x0c, 0x0b, 0x0a]),
        Ok(MyInstruction::Greeting { id: 0x0a0b_0c0d })
    );
}

#[test]
fn move_instruction_bytes() {
    let instruction =
        MyInstruction::RPSSet { sender: key(7), rps_move: RockPaperScissorsMove::Scissors };
    assert_eq!(instruction.pack(), move_bytes(7, 2));
    assert_eq!(instruction.pack().len(), 34);
    assert_eq!(MyInstruction::unpack(&move_bytes(7, 2)), Ok(instruction));
    assert_eq!(
        MyInstruction::unpack(&move_bytes(8, 0)),
        Ok(MyInstruction::RPSSet { sender: key(8), rps_move: RockPaperScissorsMove::Rock })
    );
    assert_eq!(
        MyInstruction::unpack(&move_bytes(8, 1)),
        Ok(MyInstruction::RPSSet { sender: key(8), rps_move: RockPaperScissorsMove::Paper })
    );
}

#[test]
fn instructions_round_trip() {
    let mut mixed = [0u8; 32];
    for (i, b) in mixed.iter_mut().enumerate() {
        *b = (i * 7 + 3) as u8;
    }
    let instructions = [
        MyInstruction::Greeting { id: 0 },
        MyInstruction::Greeting { id: 1 },
        MyInstruction::Greeting { id: 65_536 },
        MyInstruction::Greeting { id: u32::MAX },
        MyInstruction::RPSSet { sender: key(0), rps_move: RockPaperScissorsMove::Rock },
        MyInstruction::RPSSet { sender: key(255), rps_move: RockPaperScissorsMove::Paper },
        MyInstruction::RPSSet {
            sender: Pubkey::new_from_array(mixed),
            rps_move: RockPaperScissorsMove::Scissors,
        },
    ];
    for instruction in instructions {
        assert_eq!(MyInstruction::unpack(&instruction.pack()), Ok(instruction));
    }
}

#[test]
fn truncated_instructions_fail() {
    assert_eq!(MyInstruction::unpack(&[]), Err(DecodeError::Malformed));
    assert_eq!(MyInstruction::unpack(&[0]), Err(DecodeError::Malformed));
    assert_eq!(MyInstruction::unpack(&[0, 1, 2, 3]), Err(DecodeError::Malformed));
    assert_eq!(MyInstruction::unpack(&[1]), Err(DecodeError::Malformed));
    assert_eq!(MyInstruction::unpack(&move_bytes(7, 2)[..33]), Err(DecodeError::Malformed));
    assert_eq!(MyInstruction::unpack(&move_bytes(7, 2)[..5]), Err(DecodeError::Malformed));
}

#[test]
fn over_long_instructions_ignore_the_tail() {
    assert_eq!(
        MyInstruction::unpack(&[0, 5, 0, 0, 0, 0xff, 0xff]),
        Ok(MyInstruction::Greeting { id: 5 })
    );
    let mut long = move_bytes(7, 1);
    long.extend_from_slice(&[3, 3, 3]);
    assert_eq!(
        MyInstruction::unpack(&long),
        Ok(MyInstruction::RPSSet { sender: key(7), rps_move: RockPaperScissorsMove::Paper })
    );
}

#[test]
fn unknown_tags_fail() {
    assert_eq!(MyInstruction::unpack(&[2, 0, 0, 0, 0]), Err(DecodeError::Malformed));
    assert_eq!(MyInstruction::unpack(&[255u8; 40]), Err(DecodeError::Malformed));
    assert_eq!(MyInstruction::unpack(&move_bytes(7, 3)), Err(DecodeError::Malformed));
    assert_eq!(MyInstruction::unpack(&move_bytes(7, 255)), Err(DecodeError::Malformed));
}

#[test]
fn account_meta_is_writable() {
    assert_eq!(
        AccountMeta::new(key(1), false),
        AccountMeta { pubkey: key(1), is_signer: false, is_writable: true }
    );
    assert_eq!(
        AccountMeta::new(key(2), true),
        AccountMeta { pubkey: key(2), is_signer: true, is_writable: true }
    );
}

#[test]
fn greeting_request() {
    let request = greeting(&key(10), &key(11), 3).unwrap();
    assert_eq!(request.program_id, key(10));
    assert_eq!(
        request.accounts,
        vec![AccountMeta { pubkey: key(11), is_signer: false, is_writable: true }]
    );
    assert_eq!(request.data, vec![0, 3, 0, 0, 0]);
}

#[test]
fn move_request() {
    let request = rps_send(&key(10), &key(11), RockPaperScissorsMove::Paper, &key(12)).unwrap();
    assert_eq!(request.program_id, key(10));
    assert_eq!(
        request.accounts,
        vec![AccountMeta { pubkey: key(11), is_signer: false, is_writable: true }]
    );
    assert_eq!(request.data, move_bytes(12, 1));
    assert_eq!(
        MyInstruction::unpack(&request.data),
        Ok(MyInstruction::RPSSet { sender: key(12), rps_move: RockPaperScissorsMove::Paper })
    );
}
