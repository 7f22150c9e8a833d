use vault::account::Account;
use vault::address::Address;
use vault::error::ProgramError;
use vault::logging::{
    process, process_log_rust_location, process_setup_log, try_from_slice_checked, LogError,
    LogInstruction, LogSetup, MAX_LOG_SETUP_LEN,
};

fn accounts_with_log(data: Vec<u8>) -> Vec<Account> {
    let payer = Account {
        key: Address::new([1u8; 32]),
        owner: Address::new([0u8; 32]),
        lamports: 10,
        data: vec![],
        is_signer: true,
        is_writable: true,
    };
    let log = Account {
        key: Address::new([2u8; 32]),
        owner: Address::new([7u8; 32]),
        lamports: 1,
        data,
        is_signer: false,
        is_writable: true,
    };
    vec![payer, log]
}

#[test]
fn new_log_setup_is_blank() {
    let s = LogSetup::new();
    assert!(!s.is_initialized);
    assert_eq!(s.times_invoked, 0);
    assert_eq!(s.to_bytes(), vec![0, 0, 0, 0, 0]);
}

#[test]
fn log_setup_encoding_round_trips() {
    let s = LogSetup { is_initialized: true, times_invoked: 0x0403_0201 };
    let b = s.to_bytes();
    assert_eq!(b, vec![1, 1, 2, 3, 4]);
    assert_eq!(try_from_slice_checked(&b, MAX_LOG_SETUP_LEN), Ok(s));
}

#[test]
fn log_setup_rejects_wrong_size_and_bad_flag() {
    assert_eq!(try_from_slice_checked(&[0, 0, 0, 0], MAX_LOG_SETUP_LEN), Err(ProgramError::Custom(1)));
    assert_eq!(try_from_slice_checked(&[2, 0, 0, 0, 0], MAX_LOG_SETUP_LEN), Err(ProgramError::BorshIoError));
}

#[test]
fn log_error_codes() {
    assert_eq!(ProgramError::from(LogError::InstructionUnpackError), ProgramError::Custom(0));
    assert_eq!(ProgramError::from(LogError::DataTypeMismatch), ProgramError::Custom(1));
    assert_eq!(LogError::type_of(), "Log Error");
}

#[test]
fn log_instruction_codec() {
    assert_eq!(LogInstruction::SetupLog.pack(), vec![0]);
    assert_eq!(LogInstruction::LogRustLocation.pack(), vec![1]);
    assert_eq!(LogInstruction::unpack(&[1]), Ok(LogInstruction::LogRustLocation));
    assert_eq!(LogInstruction::unpack(&[2]), Err(ProgramError::BorshIoError));
    assert_eq!(LogInstruction::unpack(&[0, 0]), Err(ProgramError::BorshIoError));
}

#[test]
fn setup_log_sets_up_once() {
    let mut accounts = accounts_with_log(LogSetup::new().to_bytes());
    assert_eq!(process(&mut accounts, &LogInstruction::SetupLog.pack()), Ok(()));
    assert_eq!(accounts[1].data, vec![1, 0, 0, 0, 0]);
    assert_eq!(accounts[1].lamports, 1);
    assert_eq!(accounts[1].key, Address::new([2u8; 32]));
    assert_eq!(
        process_setup_log(&mut accounts),
        Err(ProgramError::AccountAlreadyInitialized)
    );
    assert_eq!(accounts[1].data, vec![1, 0, 0, 0, 0]);
}

#[test]
fn setup_log_on_empty_or_wrong_data() {
    let mut empty = accounts_with_log(vec![]);
    assert_eq!(process_setup_log(&mut empty), Err(ProgramError::BorshIoError));
    let mut long = accounts_with_log(vec![0; 6]);
    assert_eq!(process_setup_log(&mut long), Err(ProgramError::Custom(1)));
    assert_eq!(long[1].data, vec![0; 6]);
}

#[test]
fn log_rust_location_reads_state() {
    let accounts = accounts_with_log(LogSetup::new().to_bytes());
    assert_eq!(process_log_rust_location(&accounts), Ok(LogSetup::new()));
    let mut accounts = accounts;
    assert_eq!(process(&mut accounts, &[1]), Ok(()));
    let mut one = vec![accounts[0].clone()];
    assert_eq!(process(&mut one, &[1]), Err(ProgramError::NotEnoughAccountKeys));
    let mut bad = accounts_with_log(vec![0; 4]);
    assert_eq!(process(&mut bad, &[1]), Err(ProgramError::Custom(1)));
    let mut bad_flag = accounts_with_log(vec![7, 0, 0, 0, 0]);
    assert_eq!(process(&mut bad_flag, &[1]), Err(ProgramError::BorshIoError));
    assert_eq!(process(&mut bad_flag, &[0]), Err(ProgramError::BorshIoError));
    assert_eq!(bad_flag[1].data, vec![7, 0, 0, 0, 0]);
}
