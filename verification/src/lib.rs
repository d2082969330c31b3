//! A two-player rock-paper-scissors round kept in a caller-owned byte buffer.
//!
//! The host hands over the identity of the executing program, the accounts
//! an instruction may touch and the raw instruction bytes. The instruction is
//! decoded, the first account is checked for ownership, the round advances by
//! one move and the new state is written back into the account's data.

pub mod account;
pub mod bytes;
pub mod entrypoint;
pub mod error;
pub mod instruction;
pub mod layout;
pub mod processor;
pub mod pubkey;
pub mod rps;
pub mod trace;
