//! The commands of the ledger and the wire format of an instruction: a
//! four-byte little-endian tag that names the command, the command's amount
//! in eight little-endian bytes where it has one, and the 32 bytes of the
//! identity that the caller claims owns the account. Nothing may follow.

use crate::bytes::{
    le_bytes, le_value, lemma_le_bytes_len, lemma_le_bytes_of_le_value, lemma_le_value_bound,
    lemma_le_value_of_le_bytes, lemma_pow256_values, read_u32, read_u64, write_u32, write_u64,
};
use crate::error::LedgerError;
use crate::identity::{Identity, IDENTITY_LEN};
use vstd::prelude::*;

verus! {

/// The width of the tag that names the command.
pub const TAG_LEN: usize = 4;

/// The width of an amount.
pub const AMOUNT_LEN: usize = 8;

/// The tag of `Command::Deposit`.
pub const DEPOSIT_TAG: u32 = 0;

/// The tag of `Command::Withdraw`.
pub const WITHDRAW_TAG: u32 = 1;

/// The tag of `Command::CheckBalance`.
pub const CHECK_BALANCE_TAG: u32 = 2;

/// What an instruction asks the ledger to do.
#[derive(Debug, Clone, Copy, PartialEq, Eq, Structural)]
pub enum Command {
    /// Add `amount` to the balance.
    Deposit { amount: u64 },
    /// Take `amount` from the balance.
    Withdraw { amount: u64 },
    /// Report the balance and change nothing.
    CheckBalance,
}

/// One request: a command, and the identity that the caller claims controls
/// the target account.
#[derive(Debug, Clone, Copy, PartialEq, Eq)]
pub struct CommandInstruction {
    pub command: Command,
    /// The claimed owner; the instruction proceeds only if it is the
    /// account's recorded owner.
    pub program_id: Identity,
}

/// An instruction as a mathematical value.
pub struct InstructionView {
    pub command: Command,
    pub program_id: Seq<u8>,
}

impl View for CommandInstruction {
    type V = InstructionView;

    open spec fn view(&self) -> InstructionView {
        InstructionView { command: self.command, program_id: self.program_id@ }
    }
}

/// The tag that names `command` on the wire.
pub open spec fn command_tag(command: Command) -> nat {
    match command {
        Command::Deposit { .. } => DEPOSIT_TAG as nat,
        Command::Withdraw { .. } => WITHDRAW_TAG as nat,
        Command::CheckBalance => CHECK_BALANCE_TAG as nat,
    }
}

/// The bytes that carry the parameters of `command`.
pub open spec fn command_payload(command: Command) -> Seq<u8> {
    match command {
        Command::Deposit { amount } => le_bytes(amount as nat, AMOUNT_LEN as nat),
        Command::Withdraw { amount } => le_bytes(amount as nat, AMOUNT_LEN as nat),
        Command::CheckBalance => Seq::empty(),
    }
}

/// The wire form of an instruction.
pub open spec fn instruction_bytes(instruction: InstructionView) -> Seq<u8> {
    le_bytes(command_tag(instruction.command), TAG_LEN as nat) + command_payload(
        instruction.command,
    ) + instruction.program_id
}

/// The instruction that `bytes` carry, if they are the wire form of one: the
/// tag must be known, and the length must be exactly that of the tagged
/// command.
pub open spec fn parse_instruction(bytes: Seq<u8>) -> Option<InstructionView> {
    if bytes.len() < TAG_LEN {
        None
    } else {
        let tag = le_value(bytes.subrange(0, TAG_LEN as int));
        let with_amount = TAG_LEN + AMOUNT_LEN + IDENTITY_LEN;
        let without_amount = TAG_LEN + IDENTITY_LEN;
        let amount = le_value(bytes.subrange(TAG_LEN as int, TAG_LEN + AMOUNT_LEN)) as u64;
        if tag == DEPOSIT_TAG && bytes.len() == with_amount {
            Some(
                InstructionView {
                    command: Command::Deposit { amount },
                    program_id: bytes.subrange(TAG_LEN + AMOUNT_LEN, with_amount),
                },
            )
        } else if tag == WITHDRAW_TAG && bytes.len() == with_amount {
            Some(
                InstructionView {
                    command: Command::Withdraw { amount },
                    program_id: bytes.subrange(TAG_LEN + AMOUNT_LEN, with_amount),
                },
            )
        } else if tag == CHECK_BALANCE_TAG && bytes.len() == without_amount {
            Some(
                InstructionView {
                    command: Command::CheckBalance,
                    program_id: bytes.subrange(TAG_LEN as int, without_amount),
                },
            )
        } else {
            None
        }
    }
}

/// Decoding the wire form of an instruction gives the instruction back.
pub proof fn lemma_instruction_round_trip(instruction: InstructionView)
    requires
        instruction.program_id.len() == IDENTITY_LEN,
    ensures
        parse_instruction(instruction_bytes(instruction)) == Some(instruction),
{
    let tag = le_bytes(command_tag(instruction.command), TAG_LEN as nat);
    let payload = command_payload(instruction.command);
    let bytes = instruction_bytes(instruction);
    lemma_pow256_values();
    lemma_le_bytes_len(command_tag(instruction.command), TAG_LEN as nat);
    lemma_le_value_of_le_bytes(command_tag(instruction.command), TAG_LEN as nat);
    assert(bytes.subrange(0, TAG_LEN as int) =~= tag);
    match instruction.command {
        Command::Deposit { amount } => {
            lemma_le_bytes_len(amount as nat, AMOUNT_LEN as nat);
            lemma_le_value_of_le_bytes(amount as nat, AMOUNT_LEN as nat);
            assert(bytes.subrange(TAG_LEN as int, TAG_LEN + AMOUNT_LEN) =~= payload);
            assert(bytes.subrange(TAG_LEN + AMOUNT_LEN, TAG_LEN + AMOUNT_LEN + IDENTITY_LEN)
                =~= instruction.program_id);
        },
        Command::Withdraw { amount } => {
            lemma_le_bytes_len(amount as nat, AMOUNT_LEN as nat);
            lemma_le_value_of_le_bytes(amount as nat, AMOUNT_LEN as nat);
            assert(bytes.subrange(TAG_LEN as int, TAG_LEN + AMOUNT_LEN) =~= payload);
            assert(bytes.subrange(TAG_LEN + AMOUNT_LEN, TAG_LEN + AMOUNT_LEN + IDENTITY_LEN)
                =~= instruction.program_id);
        },
        Command::CheckBalance => {
            assert(bytes.subrange(TAG_LEN as int, TAG_LEN + IDENTITY_LEN)
                =~= instruction.program_id);
        },
    }
}

/// An instruction has one wire form only: bytes that decode to an
/// instruction are the bytes that the instruction encodes to.
pub proof fn lemma_instruction_bytes_canonical(bytes: Seq<u8>)
    requires
        parse_instruction(bytes) is Some,
    ensures
        instruction_bytes(parse_instruction(bytes)->Some_0) == bytes,
{
    let instruction = parse_instruction(bytes)->Some_0;
    let tag = bytes.subrange(0, TAG_LEN as int);
    lemma_le_bytes_of_le_value(tag);
    match instruction.command {
        Command::CheckBalance => {
            assert(tag + Seq::<u8>::empty() + instruction.program_id =~= bytes);
        },
        _ => {
            let amount = bytes.subrange(TAG_LEN as int, TAG_LEN + AMOUNT_LEN);
            lemma_pow256_values();
            lemma_le_value_bound(amount);
            lemma_le_bytes_of_le_value(amount);
            assert(tag + amount + instruction.program_id =~= bytes);
        },
    }
}

/// Decodes the wire form of an instruction. Bytes with an unknown tag, a
/// truncated payload or anything after the claimed owner are refused.
pub fn decode_instruction(bytes: &[u8]) -> (result: Result<CommandInstruction, LedgerError>)
    ensures
        match parse_instruction(bytes@) {
            Some(instruction) => result matches Ok(decoded) && decoded@ == instruction,
            None => result == Err::<CommandInstruction, LedgerError>(
                LedgerError::MalformedInstruction,
            ),
        },
{
    let len: usize = bytes.len();
    let tag: u32 = match read_u32(bytes, 0) {
        Some(tag) => tag,
        None => {
            return Err(LedgerError::MalformedInstruction);
        },
    };
    if (tag == DEPOSIT_TAG || tag == WITHDRAW_TAG) && len == TAG_LEN + AMOUNT_LEN + IDENTITY_LEN {
        let amount: u64 = match read_u64(bytes, TAG_LEN) {
            Some(amount) => amount,
            None => {
                return Err(LedgerError::MalformedInstruction);
            },
        };
        let program_id = Identity::read(bytes, TAG_LEN + AMOUNT_LEN);
        let command = if tag == DEPOSIT_TAG {
            Command::Deposit { amount }
        } else {
            Command::Withdraw { amount }
        };
        Ok(CommandInstruction { command, program_id })
    } else if tag == CHECK_BALANCE_TAG && len == TAG_LEN + IDENTITY_LEN {
        let program_id = Identity::read(bytes, TAG_LEN);
        Ok(CommandInstruction { command: Command::CheckBalance, program_id })
    } else {
        Err(LedgerError::MalformedInstruction)
    }
}

/// Encodes an instruction to its wire form.
pub fn encode_instruction(instruction: &CommandInstruction) -> (bytes: Vec<u8>)
    ensures
        bytes@ == instruction_bytes(instruction@),
{
    let mut bytes: Vec<u8> = Vec::new();
    match instruction.command {
        Command::Deposit { amount } => {
            write_u32(&mut bytes, DEPOSIT_TAG);
            write_u64(&mut bytes, amount);
        },
        Command::Withdraw { amount } => {
            write_u32(&mut bytes, WITHDRAW_TAG);
            write_u64(&mut bytes, amount);
        },
        Command::CheckBalance => {
            write_u32(&mut bytes, CHECK_BALANCE_TAG);
        },
    }
    instruction.program_id.write(&mut bytes);
    assert(bytes@ =~= instruction_bytes(instruction@));
    bytes
}

} // verus!
