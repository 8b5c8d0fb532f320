//! Fixed-width little-endian integers, as both wire formats of the ledger
//! use them. The integers are written and read by `bincode`, so that the
//! ledger and the clients that serialize with it agree on every byte; what a
//! field's bytes mean is stated here over `le_value` and `le_bytes`.

use vstd::pervasive::unreached;
use vstd::prelude::*;

verus! {

/// 256 to the power `n`.
pub open spec fn pow256(n: nat) -> nat
    decreases n,
{
    if n == 0 {
        1
    } else {
        256 * pow256((n - 1) as nat)
    }
}

/// The number that the bytes `s` denote when the least significant byte
/// comes first.
pub open spec fn le_value(s: Seq<u8>) -> nat
    decreases s.len(),
{
    if s.len() == 0 {
        0
    } else {
        s[0] as nat + 256 * le_value(s.skip(1))
    }
}

/// The `n` low-order bytes of `x`, least significant byte first.
pub open spec fn le_bytes(x: nat, n: nat) -> Seq<u8>
    decreases n,
{
    if n == 0 {
        Seq::empty()
    } else {
        seq![(x % 256) as u8] + le_bytes(x / 256, (n - 1) as nat)
    }
}

/// `le_bytes` yields exactly as many bytes as it is asked for.
pub proof fn lemma_le_bytes_len(x: nat, n: nat)
    ensures
        le_bytes(x, n).len() == n,
    decreases n,
{
    if n > 0 {
        lemma_le_bytes_len(x / 256, (n - 1) as nat);
    }
}

/// A sequence of `n` bytes denotes a number below `256^n`.
pub proof fn lemma_le_value_bound(s: Seq<u8>)
    ensures
        le_value(s) < pow256(s.len()),
    decreases s.len(),
{
    if s.len() > 0 {
        lemma_le_value_bound(s.skip(1));
    }
}

/// Reading back the `n` low-order bytes of a number that fits in `n` bytes
/// gives the number.
pub proof fn lemma_le_value_of_le_bytes(x: nat, n: nat)
    ensures
        x < pow256(n) ==> le_value(le_bytes(x, n)) == x,
    decreases n,
{
    if n > 0 {
        let rest = le_bytes(x / 256, (n - 1) as nat);
        let all = le_bytes(x, n);
        lemma_le_value_of_le_bytes(x / 256, (n - 1) as nat);
        assert(all.skip(1) =~= rest);
        assert(all[0] == (x % 256) as u8);
    }
}

/// Writing out the number that `s` denotes, at the width of `s`, gives `s`
/// back: the encoding is canonical.
pub proof fn lemma_le_bytes_of_le_value(s: Seq<u8>)
    ensures
        le_bytes(le_value(s), s.len()) == s,
    decreases s.len(),
{
    if s.len() > 0 {
        lemma_le_bytes_of_le_value(s.skip(1));
        let v = le_value(s);
        assert(v % 256 == s[0] as nat);
        assert(v / 256 == le_value(s.skip(1)));
        assert(le_bytes(v, s.len()) =~= seq![s[0]] + s.skip(1));
        assert(seq![s[0]] + s.skip(1) =~= s);
    }
}

/// The powers of 256 that fit the widths used on the wire.
pub proof fn lemma_pow256_values()
    ensures
        pow256(0) == 1,
        pow256(1) == 0x100,
        pow256(2) == 0x1_0000,
        pow256(3) == 0x100_0000,
        pow256(4) == 0x1_0000_0000,
        pow256(5) == 0x100_0000_0000,
        pow256(6) == 0x1_0000_0000_0000,
        pow256(7) == 0x100_0000_0000_0000,
        pow256(8) == 0x1_0000_0000_0000_0000,
{
    reveal_with_fuel(pow256, 9);
}

/// `bincode::serialize`, called on a `u32`. With the options of that
/// function an integer takes its fixed width, least significant byte first,
/// and writing into a fresh vector without a size limit cannot fail: the
/// result is the four bytes of `value`.
#[verifier::external_body]
fn bincode_encode_u32(value: u32) -> (encoded: Option<Vec<u8>>)
    ensures
        encoded is Some,
        encoded->Some_0@ == le_bytes(value as nat, 4),
{
    bincode::serialize(&value).ok()
}

/// `bincode::serialize`, called on a `u64`: as for a `u32`, the result is
/// never an error, and holds the eight bytes of `value`, least significant
/// first.
#[verifier::external_body]
fn bincode_encode_u64(value: u64) -> (encoded: Option<Vec<u8>>)
    ensures
        encoded is Some,
        encoded->Some_0@ == le_bytes(value as nat, 8),
{
    bincode::serialize(&value).ok()
}

/// `bincode::deserialize`, called for a `u32`. With the options of that
/// function the integer is read from the first four bytes, least significant
/// first; bytes after them are ignored, and fewer than four are an error.
#[verifier::external_body]
fn bincode_decode_u32(bytes: &[u8]) -> (decoded: Option<u32>)
    ensures
        decoded is Some <==> bytes@.len() >= 4,
        decoded is Some ==> decoded->Some_0 == le_value(bytes@.subrange(0, 4)),
{
    bincode::deserialize::<u32>(bytes).ok()
}

/// `bincode::deserialize`, called for a `u64`: the integer is read from the
/// first eight bytes, least significant first; bytes after them are ignored,
/// and fewer than eight are an error.
#[verifier::external_body]
fn bincode_decode_u64(bytes: &[u8]) -> (decoded: Option<u64>)
    ensures
        decoded is Some <==> bytes@.len() >= 8,
        decoded is Some ==> decoded->Some_0 == le_value(bytes@.subrange(0, 8)),
{
    bincode::deserialize::<u64>(bytes).ok()
}

/// Appends the four bytes of `value`.
pub(crate) fn write_u32(out: &mut Vec<u8>, value: u32)
    ensures
        final(out)@ == old(out)@ + le_bytes(value as nat, 4),
{
    match bincode_encode_u32(value) {
        Some(mut bytes) => out.append(&mut bytes),
        None => unreached(),
    }
}

/// Appends the eight bytes of `value`.
pub(crate) fn write_u64(out: &mut Vec<u8>, value: u64)
    ensures
        final(out)@ == old(out)@ + le_bytes(value as nat, 8),
{
    match bincode_encode_u64(value) {
        Some(mut bytes) => out.append(&mut bytes),
        None => unreached(),
    }
}

/// The integer in the four bytes that start at `offset`, if `bytes` has
/// them.
pub(crate) fn read_u32(bytes: &[u8], offset: usize) -> (decoded: Option<u32>)
    ensures
        decoded is Some <==> offset + 4 <= bytes@.len(),
        decoded matches Some(value) ==> value == le_value(
            bytes@.subrange(offset as int, offset + 4),
        ),
{
    let len: usize = bytes.len();
    if offset > len || len - offset < 4 {
        return None;
    }
    let field: &[u8] = &bytes[offset..offset + 4];
    assert(field@.subrange(0, 4) =~= field@);
    bincode_decode_u32(field)
}

/// The integer in the eight bytes that start at `offset`, if `bytes` has
/// them.
pub(crate) fn read_u64(bytes: &[u8], offset: usize) -> (decoded: Option<u64>)
    ensures
        decoded is Some <==> offset + 8 <= bytes@.len(),
        decoded matches Some(value) ==> value == le_value(
            bytes@.subrange(offset as int, offset + 8),
        ),
{
    let len: usize = bytes.len();
    if offset > len || len - offset < 8 {
        return None;
    }
    let field: &[u8] = &bytes[offset..offset + 8];
    assert(field@.subrange(0, 8) =~= field@);
    bincode_decode_u64(field)
}

} // verus!
