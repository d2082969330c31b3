use rock_paper_scissors::account::Account;
use rock_paper_scissors::entrypoint::process_instruction;
use rock_paper_scissors::error::{DecodeError, ProcessError, ProgramError};
use rock_paper_scissors::instruction::{greeting, rps_send, MyInstruction};
use rock_paper_scissors::processor::{process, Dispatch};
use rock_paper_scissors::pubkey::Pubkey;
use rock_paper_scissors::rps::{
    Notice, RPSState, RockPaperScissorsMove, RockPaperScissorsOutcome,
};

fn key(byte: u8) -> Pubkey {
    Pubkey::new_from_array([byte; 32])
}

#[test]
fn processor_test_sanity() {
    let program_id = Pubkey::default();
    let data = vec![0; std::mem::size_of::<u32>()];
    let owner = Pubkey::default();
    let account = Account::new(owner, data);

    let instruction_data: Vec<u8> = MyInstruction::Greeting { id: 0 }.pack();

    let mut accounts = vec![account];

    process(&program_id, &mut accounts, &instruction_data).unwrap();
}

#[test]
fn entrypoint_test_sanity() {
    let program_id = Pubkey::default();
    let data = vec![0; std::mem::size_of::<u32>()];
    let owner = Pubkey::default();
    let account = Account::new(owner, data);

    let instruction_data: Vec<u8> = MyInstruction::Greeting { id: 0 }.pack();

    let mut accounts = vec![account];

    process_instruction(&program_id, &mut accounts, &instruction_data).unwrap();
}

#[test]
fn test_rps() {
    let program_id = key(100);
    let greeted_pubkey = key(101);
    let alice = key(1);
    let bob = key(2);
    let mut accounts = vec![Account::new(program_id, RPSState::default_as_vec())];

    assert_eq!(RPSState::unpack(&accounts[0].data).unwrap(), RPSState::Nil);

    let request =
        rps_send(&program_id, &greeted_pubkey, RockPaperScissorsMove::Paper, &alice).unwrap();
    let res = process_instruction(&request.program_id, &mut accounts, &request.data);
    println!("{:?}", res);
    res.unwrap();

    assert_eq!(
        RPSState::unpack(&accounts[0].data).unwrap(),
        RPSState::OneMoveStored {
            stored_move: RockPaperScissorsMove::Paper,
            stored_account: alice,
        }
    );

    let request =
        rps_send(&program_id, &greeted_pubkey, RockPaperScissorsMove::Scissors, &bob).unwrap();
    process_instruction(&request.program_id, &mut accounts, &request.data).unwrap();

    assert_eq!(
        RPSState::unpack(&accounts[0].data).unwrap(),
        RPSState::Outcome {
            outcome: RockPaperScissorsOutcome::Winner { account: bob }
        }
    );
}

#[test]
fn greeting_is_handed_back_and_touches_nothing() {
    let program_id = key(100);
    let mut accounts = vec![Account::new(key(3), vec![1, 2, 3, 4])];
    let before = accounts.clone();
    let request = greeting(&program_id, &key(101), 77).unwrap();

    let r = process(&program_id, &mut accounts, &request.data);

    assert_eq!(r, Ok(Dispatch::Greeting { id: 77 }));
    assert_eq!(accounts, before);

    let mut none: Vec<Account> = Vec::new();
    assert_eq!(process(&program_id, &mut none, &request.data), Ok(Dispatch::Greeting { id: 77 }));
}

#[test]
fn moves_are_routed_to_the_round() {
    let program_id = key(100);
    let mut accounts = vec![Account::new(program_id, RPSState::default_as_vec())];
    let first = rps_send(&program_id, &key(101), RockPaperScissorsMove::Rock, &key(1)).unwrap();
    let second = rps_send(&program_id, &key(101), RockPaperScissorsMove::Rock, &key(2)).unwrap();

    assert_eq!(
        process(&program_id, &mut accounts, &first.data),
        Ok(Dispatch::Game(Notice::FirstMoveStored))
    );
    assert_eq!(
        process(&program_id, &mut accounts, &first.data),
        Ok(Dispatch::Game(Notice::AlreadyPlayed))
    );
    assert_eq!(
        process(&program_id, &mut accounts, &second.data),
        Ok(Dispatch::Game(Notice::RoundDecided))
    );
    assert_eq!(
        process(&program_id, &mut accounts, &first.data),
        Ok(Dispatch::Game(Notice::RoundAlreadyPlayed))
    );
    assert_eq!(
        RPSState::unpack(&accounts[0].data),
        Ok(RPSState::Outcome { outcome: RockPaperScissorsOutcome::Draw })
    );
}

#[test]
fn malformed_input_is_refused_before_accounts_are_looked_at() {
    let program_id = key(100);
    let mut none: Vec<Account> = Vec::new();
    assert_eq!(
        process(&program_id, &mut none, &[]),
        Err(ProgramError::Decode(DecodeError::Malformed))
    );
    assert_eq!(
        process_instruction(&program_id, &mut none, &[9, 9, 9]),
        Err(ProgramError::Decode(DecodeError::Malformed))
    );

    let mut accounts = vec![Account::new(key(3), RPSState::default_as_vec())];
    let before = accounts.clone();
    assert_eq!(
        process(&program_id, &mut accounts, &[1, 2, 3]),
        Err(ProgramError::Decode(DecodeError::Malformed))
    );
    assert_eq!(accounts, before);
}

#[test]
fn move_errors_pass_through_the_entry_point() {
    let program_id = key(100);
    let request = rps_send(&program_id, &key(101), RockPaperScissorsMove::Rock, &key(1)).unwrap();

    let mut none: Vec<Account> = Vec::new();
    assert_eq!(
        process_instruction(&program_id, &mut none, &request.data),
        Err(ProgramError::Process(ProcessError::MissingAccount))
    );

    let mut foreign = vec![Account::new(key(3), RPSState::default_as_vec())];
    let before = foreign.clone();
    assert_eq!(
        process_instruction(&program_id, &mut foreign, &request.data),
        Err(ProgramError::Process(ProcessError::IncorrectOwner))
    );
    assert_eq!(foreign, before);

    let mut corrupt = vec![Account::new(program_id, vec![5u8; 34])];
    let before = corrupt.clone();
    assert_eq!(
        process_instruction(&program_id, &mut corrupt, &request.data),
        Err(ProgramError::Process(ProcessError::CorruptState))
    );
    assert_eq!(corrupt, before);
}

#[test]
fn trailing_instruction_bytes_do_not_matter() {
    let program_id = key(100);
    let mut accounts = vec![Account::new(program_id, RPSState::default_as_vec())];
    let mut data =
        rps_send(&program_id, &key(101), RockPaperScissorsMove::Scissors, &key(1)).unwrap().data;
    data.extend_from_slice(&[1, 2, 3, 4]);

    assert_eq!(
        process_instruction(&program_id, &mut accounts, &data),
        Ok(Dispatch::Game(Notice::FirstMoveStored))
    );
    assert_eq!(
        RPSState::unpack(&accounts[0].data),
        Ok(RPSState::OneMoveStored {
            stored_move: RockPaperScissorsMove::Scissors,
            stored_account: key(1)
        })
    );
}
