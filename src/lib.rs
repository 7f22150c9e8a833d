//! A custody program for a replicated ledger: a vault account whose address is
//! derived from its owner's address, created and funded once, and drained only
//! by that owner. A small logging program lives beside it.
pub mod account;
pub mod address;
pub mod codec;
pub mod error;
pub mod logging;
pub mod vault;
