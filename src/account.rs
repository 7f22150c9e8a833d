//! The host's account records, as a program sees them during one invocation.
use crate::address::Address;
use vstd::prelude::*;

verus! {

/// An account handed to a program: its address, the program that owns it, its
/// balance in the smallest native unit, its data buffer, and whether it signed
/// the transaction and may be written.
#[derive(Clone, Debug)]
pub struct Account {
    pub key: Address,
    pub owner: Address,
    pub lamports: u64,
    pub data: Vec<u8>,
    pub is_signer: bool,
    pub is_writable: bool,
}

/// `a` with its balance set to `lamports`, the rest kept.
pub open spec fn with_lamports(a: Account, lamports: u64) -> Account {
    Account { lamports, ..a }
}

} // verus!
