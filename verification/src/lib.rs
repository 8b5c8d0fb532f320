//! A single-account balance ledger: the account record and its byte layout,
//! the instruction wire format, and the validate-then-apply state machine
//! that processes one instruction against one account.

pub mod bytes;
pub mod error;
pub mod identity;
pub mod instruction;
pub mod ledger;
pub mod record;
pub mod retry;
pub mod subscriber;
