//! The ledger state machine: one instruction is checked against one account,
//! applied to the account's record, and the record is stored back. Every
//! check comes before any change, so a refused instruction leaves the account
//! as it was.

use crate::error::LedgerError;
use crate::identity::Identity;
use crate::instruction::{decode_instruction, parse_instruction, Command, CommandInstruction};
use crate::record::{
    decode_record, encode_record, lemma_record_round_trip, parse_record, record_bytes, Data,
};
use vstd::prelude::*;

verus! {

/// An account as the host hands it over: whether the caller marked it
/// writable, the identity that controls it, and its storage slot.
#[derive(Debug, Clone, PartialEq, Eq)]
pub struct Account {
    pub is_writable: bool,
    pub owner: Identity,
    pub data: Vec<u8>,
}

/// An account as a mathematical value.
pub struct AccountView {
    pub is_writable: bool,
    pub owner: Seq<u8>,
    pub data: Seq<u8>,
}

impl View for Account {
    type V = AccountView;

    open spec fn view(&self) -> AccountView {
        AccountView { is_writable: self.is_writable, owner: self.owner@, data: self.data@ }
    }
}

/// Whether `command` carries parameters that the ledger accepts: a deposit
/// or a withdrawal must move a positive amount.
pub open spec fn valid_parameters(command: Command) -> bool {
    match command {
        Command::Deposit { amount } => amount > 0,
        Command::Withdraw { amount } => amount > 0,
        Command::CheckBalance => true,
    }
}

/// The record after `command`, or why the command is refused.
pub open spec fn apply_spec(record: Data, command: Command) -> Result<Data, LedgerError> {
    match command {
        Command::Deposit { amount } => if amount == 0 {
            Err(LedgerError::InvalidParameters)
        } else if record.balance + amount > u64::MAX {
            Err(LedgerError::ArithmeticOverflow)
        } else {
            Ok(Data { number: record.number, balance: (record.balance + amount) as u64 })
        },
        Command::Withdraw { amount } => if amount == 0 {
            Err(LedgerError::InvalidParameters)
        } else if amount > record.balance {
            Err(LedgerError::InsufficientFunds)
        } else {
            Ok(Data { number: record.number, balance: (record.balance - amount) as u64 })
        },
        Command::CheckBalance => Ok(record),
    }
}

/// What an accepted instruction reports back: the amount moved, if any, and
/// the balance that the account then holds. The caller may log it; it is no
/// part of the account's state.
#[derive(Debug, Clone, Copy, PartialEq, Eq, Structural)]
pub enum Report {
    Deposited { amount: u64, balance: u64 },
    Withdrew { amount: u64, balance: u64 },
    Balance { balance: u64 },
}

/// The report on `command` once it has made `updated` of the record.
pub open spec fn report_spec(command: Command, updated: Data) -> Report {
    match command {
        Command::Deposit { amount } => Report::Deposited { amount, balance: updated.balance },
        Command::Withdraw { amount } => Report::Withdrew { amount, balance: updated.balance },
        Command::CheckBalance => Report::Balance { balance: updated.balance },
    }
}

/// What an accepted instruction comes to: the bytes that the slot then
/// holds, and the report.
pub struct Outcome {
    pub data: Seq<u8>,
    pub report: Report,
}

/// What processing `instruction` under `program_id` comes to, or why the
/// instruction is refused. The checks run in this order: the account is
/// writable; it is controlled by `program_id`; the instruction is
/// well-formed; its parameters are valid; the owner it claims is the
/// account's; the slot holds a record; the command applies to it. A
/// deposit or a withdrawal stores the new record; a balance check leaves
/// the slot untouched.
pub open spec fn process_spec(program_id: Seq<u8>, account: AccountView, instruction: Seq<u8>)
    -> Result<Outcome, LedgerError> {
    if !account.is_writable {
        Err(LedgerError::NotWritable)
    } else if account.owner != program_id {
        Err(LedgerError::IncorrectOwner)
    } else {
        match parse_instruction(instruction) {
            None => Err(LedgerError::MalformedInstruction),
            Some(decoded) => if !valid_parameters(decoded.command) {
                Err(LedgerError::InvalidParameters)
            } else if decoded.program_id != account.owner {
                Err(LedgerError::IncorrectOwner)
            } else {
                match parse_record(account.data) {
                    None => Err(LedgerError::MalformedRecord),
                    Some(record) => match apply_spec(record, decoded.command) {
                        Err(refusal) => Err(refusal),
                        Ok(updated) => Ok(
                            Outcome {
                                data: if decoded.command is CheckBalance {
                                    account.data
                                } else {
                                    record_bytes(updated)
                                },
                                report: report_spec(decoded.command, updated),
                            },
                        ),
                    },
                }
            },
        }
    }
}

/// Whether `after` and `result` are what processing `instruction` under
/// `program_id` makes of the account `before`: the flag and the owner stay;
/// an accepted instruction leaves in the slot what `process_spec` says and
/// returns its report; a refused one returns the refusal and leaves the slot
/// as it was.
pub open spec fn processed(
    program_id: Seq<u8>,
    before: AccountView,
    instruction: Seq<u8>,
    after: AccountView,
    result: Result<Report, LedgerError>,
) -> bool {
    &&& after.is_writable == before.is_writable
    &&& after.owner == before.owner
    &&& match process_spec(program_id, before, instruction) {
        Ok(outcome) => result == Ok::<Report, LedgerError>(outcome.report) && after.data
            == outcome.data,
        Err(refusal) => result == Err::<Report, LedgerError>(refusal) && after.data
            == before.data,
    }
}

/// Checks the parameters of `command`.
pub fn validate_command(command: &Command) -> (result: Result<(), LedgerError>)
    ensures
        valid_parameters(*command) ==> result is Ok,
        !valid_parameters(*command) ==> result == Err::<(), LedgerError>(
            LedgerError::InvalidParameters,
        ),
{
    match command {
        Command::Deposit { amount } => {
            if *amount == 0 {
                return Err(LedgerError::InvalidParameters);
            }
        },
        Command::Withdraw { amount } => {
            if *amount == 0 {
                return Err(LedgerError::InvalidParameters);
            }
        },
        Command::CheckBalance => {},
    }
    Ok(())
}

/// Applies `command` to `record`. A deposit adds to the balance and fails
/// rather than wraps; a withdrawal takes from it and fails rather than goes
/// below zero; a balance check returns the record as it is. The counter is
/// never changed.
pub fn apply_command(record: Data, command: Command) -> (result: Result<Data, LedgerError>)
    ensures
        result == apply_spec(record, command),
        result matches Ok(updated) ==> updated.number == record.number,
        command is CheckBalance ==> result == Ok::<Data, LedgerError>(record),
        !valid_parameters(command) ==> result == Err::<Data, LedgerError>(
            LedgerError::InvalidParameters,
        ),
        command matches Command::Deposit { amount } ==> amount > 0 ==> {
            if record.balance + amount <= u64::MAX {
                result matches Ok(updated) && updated.balance == record.balance + amount
            } else {
                result == Err::<Data, LedgerError>(LedgerError::ArithmeticOverflow)
            }
        },
        command matches Command::Withdraw { amount } ==> amount > 0 ==> {
            if amount <= record.balance {
                result matches Ok(updated) && updated.balance == record.balance - amount
            } else {
                result == Err::<Data, LedgerError>(LedgerError::InsufficientFunds)
            }
        },
{
    match command {
        Command::Deposit { amount } => {
            if amount == 0 {
                return Err(LedgerError::InvalidParameters);
            }
            match record.balance.checked_add(amount) {
                Some(balance) => Ok(Data { number: record.number, balance }),
                None => Err(LedgerError::ArithmeticOverflow),
            }
        },
        Command::Withdraw { amount } => {
            if amount == 0 {
                return Err(LedgerError::InvalidParameters);
            }
            if amount > record.balance {
                return Err(LedgerError::InsufficientFunds);
            }
            Ok(Data { number: record.number, balance: record.balance - amount })
        },
        Command::CheckBalance => Ok(record),
    }
}

/// The report on `command` once it has made `updated` of the record.
pub fn report(command: &Command, updated: &Data) -> (report: Report)
    ensures
        report == report_spec(*command, *updated),
{
    match command {
        Command::Deposit { amount } => Report::Deposited {
            amount: *amount,
            balance: updated.balance,
        },
        Command::Withdraw { amount } => Report::Withdrew {
            amount: *amount,
            balance: updated.balance,
        },
        Command::CheckBalance => Report::Balance { balance: updated.balance },
    }
}

/// Processes one instruction against one account: validates, applies,
/// stores the new record and returns the report. On refusal the account is
/// left as it was.
pub fn process_account(program_id: &Identity, account: &mut Account, instruction_data: &[u8]) -> (result:
    Result<Report, LedgerError>)
    ensures
        processed(program_id@, old(account)@, instruction_data@, final(account)@, result),
        !old(account).is_writable ==> result == Err::<Report, LedgerError>(
            LedgerError::NotWritable,
        ),
        result is Err ==> final(account)@ == old(account)@,
        parse_instruction(instruction_data@) matches Some(decoded) ==> decoded.command
            is CheckBalance ==> final(account)@ == old(account)@,
{
    if !account.is_writable {
        return Err(LedgerError::NotWritable);
    }
    if account.owner != *program_id {
        return Err(LedgerError::IncorrectOwner);
    }
    let instruction: CommandInstruction = match decode_instruction(instruction_data) {
        Ok(instruction) => instruction,
        Err(refusal) => {
            return Err(refusal);
        },
    };
    match validate_command(&instruction.command) {
        Ok(()) => {},
        Err(refusal) => {
            return Err(refusal);
        },
    }
    if instruction.program_id != account.owner {
        return Err(LedgerError::IncorrectOwner);
    }
    let record: Data = match decode_record(account.data.as_slice()) {
        Ok(record) => record,
        Err(refusal) => {
            return Err(refusal);
        },
    };
    let updated: Data = match apply_command(record, instruction.command) {
        Ok(updated) => updated,
        Err(refusal) => {
            return Err(refusal);
        },
    };
    match instruction.command {
        Command::CheckBalance => {},
        _ => {
            account.data = encode_record(&updated);
        },
    }
    Ok(report(&instruction.command, &updated))
}

/// The entry point: processes `instruction_data` against the first account
/// of `accounts`, the only one this ledger looks at. An empty list is
/// refused; the other accounts are never touched.
pub fn process_instruction(
    program_id: &Identity,
    accounts: &mut [Account],
    instruction_data: &[u8],
) -> (result: Result<Report, LedgerError>)
    ensures
        final(accounts)@.len() == old(accounts)@.len(),
        forall|i: int| 1 <= i < old(accounts)@.len() ==> final(accounts)@[i] == old(accounts)@[i],
        old(accounts)@.len() == 0 ==> result == Err::<Report, LedgerError>(
            LedgerError::MissingAccount,
        ),
        old(accounts)@.len() > 0 ==> processed(
            program_id@,
            old(accounts)@[0]@,
            instruction_data@,
            final(accounts)@[0]@,
            result,
        ),
        old(accounts)@.len() > 0 && !old(accounts)@[0].is_writable ==> result == Err::<
            Report,
            LedgerError,
        >(LedgerError::NotWritable),
{
    match accounts.first_mut() {
        None => Err(LedgerError::MissingAccount),
        Some(account) => process_account(program_id, account, instruction_data),
    }
}

/// An account that is not writable is refused as such whatever else is wrong
/// with the account or the instruction: no other check runs before this one.
pub proof fn lemma_not_writable_comes_first(
    program_id: Seq<u8>,
    account: AccountView,
    instruction: Seq<u8>,
)
    requires
        !account.is_writable,
    ensures
        process_spec(program_id, account, instruction) == Err::<Outcome, LedgerError>(
            LedgerError::NotWritable,
        ),
{
}

/// On a writable account that `program_id` controls, a well-formed deposit
/// or withdrawal of zero is refused for its parameters, whoever it claims as
/// owner and whatever the slot holds.
pub proof fn lemma_zero_amount_refused(
    program_id: Seq<u8>,
    account: AccountView,
    instruction: Seq<u8>,
)
    requires
        account.is_writable,
        account.owner == program_id,
        parse_instruction(instruction) matches Some(decoded) && !valid_parameters(decoded.command),
    ensures
        process_spec(program_id, account, instruction) == Err::<Outcome, LedgerError>(
            LedgerError::InvalidParameters,
        ),
{
}

/// An instruction that claims another owner than the account's is refused
/// as long as nothing earlier in the order of checks refuses it first.
pub proof fn lemma_claimed_owner_must_match(
    program_id: Seq<u8>,
    account: AccountView,
    instruction: Seq<u8>,
)
    requires
        account.is_writable,
        account.owner == program_id,
        parse_instruction(instruction) matches Some(decoded) && valid_parameters(decoded.command)
            && decoded.program_id != account.owner,
    ensures
        process_spec(program_id, account, instruction) == Err::<Outcome, LedgerError>(
            LedgerError::IncorrectOwner,
        ),
{
}

/// What an accepted instruction leaves in the slot reads back as the record
/// that the command makes of the record that was there, and the report
/// names that record's balance; for a balance check the slot is untouched
/// and the record is the one that was there.
pub proof fn lemma_accepted_instruction_stores_applied_record(
    program_id: Seq<u8>,
    account: AccountView,
    instruction: Seq<u8>,
)
    requires
        process_spec(program_id, account, instruction) is Ok,
    ensures
        parse_instruction(instruction) is Some,
        parse_record(account.data) is Some,
        ({
            let command = parse_instruction(instruction)->Some_0.command;
            let record = parse_record(account.data)->Some_0;
            let outcome = process_spec(program_id, account, instruction)->Ok_0;
            &&& apply_spec(record, command) is Ok
            &&& parse_record(outcome.data) == Some(apply_spec(record, command)->Ok_0)
            &&& outcome.report == report_spec(command, apply_spec(record, command)->Ok_0)
            &&& command is CheckBalance ==> outcome.data == account.data && parse_record(
                outcome.data,
            ) == Some(record)
        }),
{
    let command = parse_instruction(instruction)->Some_0.command;
    let record = parse_record(account.data)->Some_0;
    lemma_record_round_trip(apply_spec(record, command)->Ok_0);
}

} // verus!
