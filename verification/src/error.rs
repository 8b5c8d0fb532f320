use vstd::prelude::*;

verus! {

/// Why an instruction was refused. Every kind is terminal for the instruction
/// that caused it: nothing is persisted when one is returned.
#[derive(Debug, Clone, Copy, PartialEq, Eq, Structural)]
pub enum LedgerError {
    /// The target account was not marked writable by the caller.
    NotWritable,
    /// The account is not controlled by the identity the instruction runs
    /// under, or the owner claimed in the instruction is not the account's.
    IncorrectOwner,
    /// A deposit or withdrawal of zero.
    InvalidParameters,
    /// A withdrawal larger than the balance.
    InsufficientFunds,
    /// A deposit that would take the balance past `u64::MAX`.
    ArithmeticOverflow,
    /// The instruction bytes are not a well-formed instruction.
    MalformedInstruction,
    /// The account's stored bytes are neither empty nor a well-formed record.
    MalformedRecord,
    /// The account list is empty.
    MissingAccount,
}

} // verus!
