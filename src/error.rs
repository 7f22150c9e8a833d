//! The errors that the programs return to the host.
use vstd::prelude::*;

verus! {

/// An error returned to the host; any of them rolls back the whole transaction.
#[derive(Clone, Copy, Debug, PartialEq, Eq, Structural)]
pub enum ProgramError {
    /// A program-specific error code.
    Custom(u32),
    InvalidArgument,
    InvalidInstructionData,
    InvalidAccountData,
    AccountDataTooSmall,
    InsufficientFunds,
    IncorrectProgramId,
    MissingRequiredSignature,
    AccountAlreadyInitialized,
    UninitializedAccount,
    NotEnoughAccountKeys,
    AccountBorrowFailed,
    MaxSeedLengthExceeded,
    InvalidSeeds,
    BorshIoError,
    AccountNotRentExempt,
    IllegalOwner,
    ArithmeticOverflow,
    /// An error of the host that has no name here, by the host's error code;
    /// it is passed back to the host as it came.
    Host(u64),
}

} // verus!
