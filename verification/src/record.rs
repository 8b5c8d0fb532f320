//! The record stored in an account's slot, and its persisted byte layout:
//! `number` in eight bytes, then `balance` in eight bytes, both little-endian.

use crate::bytes::{
    le_bytes, le_value, lemma_le_bytes_len, lemma_le_bytes_of_le_value, lemma_le_value_bound,
    lemma_le_value_of_le_bytes, lemma_pow256_values, read_u64, write_u64,
};
use crate::error::LedgerError;
use vstd::prelude::*;

verus! {

/// The length of a stored record: the size every account of this ledger is
/// provisioned with.
pub const RECORD_LEN: usize = 16;

/// What an account's slot holds.
#[derive(Debug, Clone, Copy, PartialEq, Eq, Structural)]
pub struct Data {
    /// A reserved counter; no command reads or changes it.
    pub number: u64,
    /// The funds held.
    pub balance: u64,
}

/// The record of an account that was never written to.
pub open spec fn empty_record() -> Data {
    Data { number: 0, balance: 0 }
}

/// The persisted form of `record`.
pub open spec fn record_bytes(record: Data) -> Seq<u8> {
    le_bytes(record.number as nat, 8) + le_bytes(record.balance as nat, 8)
}

/// The record that stored bytes stand for: an empty slot is a fresh account,
/// sixteen bytes are a record, and anything else is none.
pub open spec fn parse_record(bytes: Seq<u8>) -> Option<Data> {
    if bytes.len() == 0 {
        Some(empty_record())
    } else if bytes.len() == RECORD_LEN {
        Some(
            Data {
                number: le_value(bytes.subrange(0, 8)) as u64,
                balance: le_value(bytes.subrange(8, 16)) as u64,
            },
        )
    } else {
        None
    }
}

/// Every record persists to exactly `RECORD_LEN` bytes.
pub proof fn lemma_record_bytes_len(record: Data)
    ensures
        record_bytes(record).len() == RECORD_LEN,
{
    lemma_le_bytes_len(record.number as nat, 8);
    lemma_le_bytes_len(record.balance as nat, 8);
}

/// Decoding what a record encodes to gives the record back.
pub proof fn lemma_record_round_trip(record: Data)
    ensures
        parse_record(record_bytes(record)) == Some(record),
{
    let head = le_bytes(record.number as nat, 8);
    let tail = le_bytes(record.balance as nat, 8);
    lemma_le_bytes_len(record.number as nat, 8);
    lemma_le_bytes_len(record.balance as nat, 8);
    lemma_pow256_values();
    lemma_le_value_of_le_bytes(record.number as nat, 8);
    lemma_le_value_of_le_bytes(record.balance as nat, 8);
    assert(record_bytes(record).subrange(0, 8) =~= head);
    assert(record_bytes(record).subrange(8, 16) =~= tail);
}

/// A stored record has one byte form only: encoding what sixteen bytes
/// decode to gives those bytes back.
pub proof fn lemma_record_bytes_canonical(bytes: Seq<u8>)
    requires
        bytes.len() == RECORD_LEN,
    ensures
        parse_record(bytes) matches Some(record) && record_bytes(record) == bytes,
{
    let head = bytes.subrange(0, 8);
    let tail = bytes.subrange(8, 16);
    lemma_pow256_values();
    lemma_le_value_bound(head);
    lemma_le_value_bound(tail);
    lemma_le_bytes_of_le_value(head);
    lemma_le_bytes_of_le_value(tail);
    assert(head + tail =~= bytes);
}

/// Serializes `record` to its persisted form.
pub fn encode_record(record: &Data) -> (bytes: Vec<u8>)
    ensures
        bytes@ == record_bytes(*record),
        bytes@.len() == RECORD_LEN,
{
    let mut bytes: Vec<u8> = Vec::new();
    write_u64(&mut bytes, record.number);
    write_u64(&mut bytes, record.balance);
    proof {
        lemma_record_bytes_len(*record);
        assert(bytes@ =~= record_bytes(*record));
    }
    bytes
}

/// Reads the record that an account's slot holds. An empty slot reads as the
/// zero record; a slot of any length other than zero and `RECORD_LEN` is
/// refused.
pub fn decode_record(bytes: &[u8]) -> (result: Result<Data, LedgerError>)
    ensures
        match parse_record(bytes@) {
            Some(record) => result == Ok::<Data, LedgerError>(record),
            None => result == Err::<Data, LedgerError>(LedgerError::MalformedRecord),
        },
{
    if bytes.len() == 0 {
        Ok(Data { number: 0, balance: 0 })
    } else if bytes.len() == RECORD_LEN {
        match (read_u64(bytes, 0), read_u64(bytes, 8)) {
            (Some(number), Some(balance)) => Ok(Data { number, balance }),
            _ => Err(LedgerError::MalformedRecord),
        }
    } else {
        Err(LedgerError::MalformedRecord)
    }
}

} // verus!
