//! The logging program: an account that is set up once and then read.
use crate::account::Account;
use crate::codec::{le_u32, read_bool_at, read_u32_at};
use crate::error::ProgramError;
use vstd::prelude::*;

verus! {

/// Size in bytes of an encoded `LogSetup`: one flag byte and a four-byte count.
pub const MAX_LOG_SETUP_LEN: usize = 5;

/// The logging program's own errors, returned to the host as custom codes.
#[derive(Clone, Copy, Debug, PartialEq, Eq, Structural)]
pub enum LogError {
    InstructionUnpackError,
    DataTypeMismatch,
}

impl LogError {
    /// The custom error code of this error.
    pub open spec fn code_spec(&self) -> u32 {
        match self {
            LogError::InstructionUnpackError => 0,
            LogError::DataTypeMismatch => 1,
        }
    }

    /// The custom error code of this error, as the host reports it.
    pub fn code(&self) -> (r: u32)
        ensures
            r == self.code_spec(),
    {
        match self {
            LogError::InstructionUnpackError => 0,
            LogError::DataTypeMismatch => 1,
        }
    }

    /// The error's name.
    pub fn type_of() -> (r: &'static str) {
        "Log Error"
    }
}

impl From<LogError> for ProgramError {
    fn from(e: LogError) -> (r: ProgramError) {
        ProgramError::Custom(e.code())
    }
}

impl vstd::std_specs::convert::FromSpecImpl<LogError> for ProgramError {
    open spec fn obeys_from_spec() -> bool {
        true
    }

    open spec fn from_spec(e: LogError) -> ProgramError {
        ProgramError::Custom(e.code_spec())
    }
}

/// An instruction of the logging program, encoded as one tag byte.
#[derive(Clone, Copy, Debug, PartialEq, Eq, Structural)]
pub enum LogInstruction {
    /// Sets up the log account given second, once.
    SetupLog,
    /// Reads the log account given second and reports where the program stands.
    LogRustLocation,
}

impl LogInstruction {
    /// The tag byte of this instruction.
    pub open spec fn tag(&self) -> u8 {
        match self {
            LogInstruction::SetupLog => 0,
            LogInstruction::LogRustLocation => 1,
        }
    }

    /// The encoding of this instruction: its tag byte alone.
    pub fn pack(&self) -> (r: Vec<u8>)
        ensures
            r@ == seq![self.tag()],
    {
        let t: u8 = match self {
            LogInstruction::SetupLog => 0,
            LogInstruction::LogRustLocation => 1,
        };
        let r: Vec<u8> = vec![t];
        proof {
            assert(r@ =~= seq![self.tag()]);
        }
        r
    }

    /// Decodes an instruction: exactly one byte, 0 or 1.
    pub fn unpack(b: &[u8]) -> (r: Result<LogInstruction, ProgramError>)
        ensures
            b@.len() == 1 && b@[0] == 0 ==> r == Ok::<LogInstruction, ProgramError>(
                LogInstruction::SetupLog,
            ),
            b@.len() == 1 && b@[0] == 1 ==> r == Ok::<LogInstruction, ProgramError>(
                LogInstruction::LogRustLocation,
            ),
            !(b@.len() == 1 && b@[0] <= 1) ==> r == Err::<LogInstruction, ProgramError>(
                ProgramError::BorshIoError,
            ),
    {
        if b.len() != 1 {
            Err(ProgramError::BorshIoError)
        } else if b[0] == 0 {
            Ok(LogInstruction::SetupLog)
        } else if b[0] == 1 {
            Ok(LogInstruction::LogRustLocation)
        } else {
            Err(ProgramError::BorshIoError)
        }
    }
}

/// The state held in a log account.
#[derive(Clone, Copy, Debug, PartialEq, Eq, Structural)]
pub struct LogSetup {
    pub is_initialized: bool,
    pub times_invoked: u32,
}

/// The state that `b` encodes, where it encodes one: a flag byte that is 0 or
/// 1, then the count, least significant byte first.
pub open spec fn log_setup_of(b: Seq<u8>) -> Option<LogSetup> {
    if b.len() >= 5 && b[0] <= 1 {
        Some(LogSetup { is_initialized: b[0] == 1, times_invoked: le_u32(b.subrange(1, 5)) as u32 })
    } else {
        None
    }
}

/// Reads a `LogSetup` from a buffer that must be exactly `data_size` bytes
/// long (else `DataTypeMismatch`); a buffer that holds no valid state is a
/// `BorshIoError`.
pub fn try_from_slice_checked(data: &[u8], data_size: usize) -> (r: Result<
    LogSetup,
    ProgramError,
>)
    ensures
        data@.len() != data_size ==> r == Err::<LogSetup, ProgramError>(
            ProgramError::Custom(LogError::DataTypeMismatch.code_spec()),
        ),
        data@.len() == data_size ==> r == (match log_setup_of(data@) {
            Some(s) => Ok(s),
            None => Err(ProgramError::BorshIoError),
        }),
{
    if data.len() != data_size {
        return Err(ProgramError::from(LogError::DataTypeMismatch));
    }
    let is_initialized = match read_bool_at(data, 0) {
        Some(v) => v,
        None => {
            return Err(ProgramError::BorshIoError);
        },
    };
    let times_invoked = match read_u32_at(data, 1) {
        Some(v) => v,
        None => {
            return Err(ProgramError::BorshIoError);
        },
    };
    Ok(LogSetup { is_initialized, times_invoked })
}

impl LogSetup {
    /// A state that is not yet set up.
    pub fn new() -> (r: LogSetup)
        ensures
            r == (LogSetup { is_initialized: false, times_invoked: 0 }),
    {
        LogSetup { is_initialized: false, times_invoked: 0 }
    }

    /// Reads the state from a log account, whose data must be exactly
    /// `MAX_LOG_SETUP_LEN` bytes long.
    pub fn from_account_info(a: &Account) -> (r: Result<LogSetup, ProgramError>)
        ensures
            a.data@.len() != MAX_LOG_SETUP_LEN ==> r == Err::<LogSetup, ProgramError>(
                ProgramError::Custom(LogError::DataTypeMismatch.code_spec()),
            ),
            a.data@.len() == MAX_LOG_SETUP_LEN ==> r == (match log_setup_of(a.data@) {
                Some(s) => Ok(s),
                None => Err(ProgramError::BorshIoError),
            }),
    {
        try_from_slice_checked(a.data.as_slice(), MAX_LOG_SETUP_LEN)
    }

    /// The encoding of this state: the flag byte, then the count, least
    /// significant byte first.
    pub fn to_bytes(&self) -> (r: Vec<u8>)
        ensures
            r@.len() == 5,
            log_setup_of(r@) == Some(*self),
    {
        let n: u32 = self.times_invoked;
        let b1: u8 = (n % 0x100) as u8;
        let b2: u8 = ((n / 0x100) % 0x100) as u8;
        let b3: u8 = ((n / 0x1_0000) % 0x100) as u8;
        let b4: u8 = (n / 0x100_0000) as u8;
        let flag: u8 = if self.is_initialized { 1 } else { 0 };
        let r: Vec<u8> = vec![flag, b1, b2, b3, b4];
        proof {
            assert(r@.subrange(1, 5) =~= seq![b1, b2, b3, b4]);
            assert(le_u32(r@.subrange(1, 5)) == n);
        }
        r
    }
}

/// `SetupLog` on accounts `[payer, log]`: the log's data must be empty or an
/// encoded state that is not yet set up; it becomes a state that is set up with
/// a count of 0. The encoding is written over the front of the data, so empty
/// data cannot take it.
pub fn process_setup_log(accounts: &mut Vec<Account>) -> (r: Result<(), ProgramError>)
    ensures
        final(accounts)@.len() == old(accounts)@.len(),
        old(accounts)@.len() < 2 ==> r == Err::<(), ProgramError>(
            ProgramError::NotEnoughAccountKeys,
        ),
        old(accounts)@.len() >= 2 ==> r == setup_log_check(old(accounts)@[1].data@),
        r is Err ==> final(accounts)@ == old(accounts)@,
        r is Ok ==> final(accounts)@ == old(accounts)@.update(
            1,
            (Account { data: final(accounts)@[1].data, ..old(accounts)@[1] }),
        ),
        r is Ok ==> final(accounts)@[1].data@ == seq![1u8, 0u8, 0u8, 0u8, 0u8],
{
    if accounts.len() < 2 {
        return Err(ProgramError::NotEnoughAccountKeys);
    }
    if accounts[1].data.len() == 0 {
        return Err(ProgramError::BorshIoError);
    }
    let current = match LogSetup::from_account_info(&accounts[1]) {
        Ok(s) => s,
        Err(e) => {
            return Err(e);
        },
    };
    if current.is_initialized {
        return Err(ProgramError::AccountAlreadyInitialized);
    }
    let bytes = LogSetup { is_initialized: true, times_invoked: 0 }.to_bytes();
    let mut i: usize = 0;
    while i < 5
        invariant
            i <= 5,
            old(accounts)@.len() >= 2,
            accounts@.len() == old(accounts)@.len(),
            accounts@ == old(accounts)@.update(
                1,
                (Account { data: accounts@[1].data, ..old(accounts)@[1] }),
            ),
            accounts@[1].data@.len() == 5,
            bytes@ == seq![1u8, 0u8, 0u8, 0u8, 0u8],
            forall|k: int| 0 <= k < i ==> accounts@[1].data@[k] == bytes@[k],
        decreases 5 - i,
    {
        accounts[1].data.set(i, bytes[i]);
        i += 1;
    }
    proof {
        assert(accounts@[1].data@ =~= seq![1u8, 0u8, 0u8, 0u8, 0u8]);
    }
    Ok(())
}

/// The outcome of `SetupLog` on a log account whose data is `d`.
pub open spec fn setup_log_check(d: Seq<u8>) -> Result<(), ProgramError> {
    if d.len() == 0 {
        Err(ProgramError::BorshIoError)
    } else if d.len() != MAX_LOG_SETUP_LEN {
        Err(ProgramError::Custom(LogError::DataTypeMismatch.code_spec()))
    } else {
        match log_setup_of(d) {
            None => Err(ProgramError::BorshIoError),
            Some(s) => if s.is_initialized {
                Err(ProgramError::AccountAlreadyInitialized)
            } else {
                Ok(())
            },
        }
    }
}

/// `LogRustLocation` on accounts `[payer, log]`: succeeds where the log holds a
/// valid state, and changes nothing.
pub fn process_log_rust_location(accounts: &Vec<Account>) -> (r: Result<LogSetup, ProgramError>)
    ensures
        accounts@.len() < 2 ==> r == Err::<LogSetup, ProgramError>(
            ProgramError::NotEnoughAccountKeys,
        ),
        accounts@.len() >= 2 ==> r == log_location_check(accounts@[1].data@),
{
    if accounts.len() < 2 {
        return Err(ProgramError::NotEnoughAccountKeys);
    }
    LogSetup::from_account_info(&accounts[1])
}

/// The outcome of `LogRustLocation` on a log account whose data is `d`: the
/// state that it holds.
pub open spec fn log_location_check(d: Seq<u8>) -> Result<LogSetup, ProgramError> {
    if d.len() != MAX_LOG_SETUP_LEN {
        Err(ProgramError::Custom(LogError::DataTypeMismatch.code_spec()))
    } else {
        match log_setup_of(d) {
            Some(s) => Ok(s),
            None => Err(ProgramError::BorshIoError),
        }
    }
}

/// The logging program's entry: decodes `data` and runs the instruction.
pub fn process(accounts: &mut Vec<Account>, data: &[u8]) -> (r: Result<(), ProgramError>)
    ensures
        !(data@.len() == 1 && data@[0] <= 1) ==> r == Err::<(), ProgramError>(
            ProgramError::BorshIoError,
        ),
        data@ == seq![0u8] && old(accounts)@.len() < 2 ==> r == Err::<(), ProgramError>(
            ProgramError::NotEnoughAccountKeys,
        ),
        data@ == seq![0u8] && old(accounts)@.len() >= 2 ==> r == setup_log_check(
            old(accounts)@[1].data@,
        ),
        data@ == seq![0u8] && r is Ok ==> final(accounts)@ == old(accounts)@.update(
            1,
            (Account { data: final(accounts)@[1].data, ..old(accounts)@[1] }),
        ),
        data@ == seq![0u8] && r is Ok ==> final(accounts)@[1].data@ == seq![
            1u8,
            0u8,
            0u8,
            0u8,
            0u8,
        ],
        data@ == seq![1u8] && old(accounts)@.len() < 2 ==> r == Err::<(), ProgramError>(
            ProgramError::NotEnoughAccountKeys,
        ),
        data@ == seq![1u8] && old(accounts)@.len() >= 2 ==> r == (match log_location_check(
            old(accounts)@[1].data@,
        ) {
            Ok(_) => Ok::<(), ProgramError>(()),
            Err(e) => Err(e),
        }),
        data@ != seq![0u8] || r is Err ==> final(accounts)@ == old(accounts)@,
{
    proof {
        if data@.len() == 1 && data@[0] == 0 {
            assert(data@ =~= seq![0u8]);
        }
        if data@.len() == 1 && data@[0] == 1 {
            assert(data@ =~= seq![1u8]);
        }
    }
    match LogInstruction::unpack(data) {
        Err(e) => Err(e),
        Ok(LogInstruction::SetupLog) => process_setup_log(accounts),
        Ok(LogInstruction::LogRustLocation) => match process_log_rust_location(accounts) {
            Ok(_) => Ok(()),
            Err(e) => Err(e),
        },
    }
}

} // verus!
