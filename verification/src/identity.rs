//! The addressable principal that owns an account or authorizes an
//! instruction.

use vstd::prelude::*;

verus! {

/// How many bytes an identity has.
pub const IDENTITY_LEN: usize = 32;

/// A wallet or program address: 32 bytes, compared byte for byte.
#[derive(Debug, Clone, Copy)]
pub struct Identity {
    pub bytes: [u8; 32],
}

impl View for Identity {
    type V = Seq<u8>;

    open spec fn view(&self) -> Seq<u8> {
        self.bytes@
    }
}

impl Identity {
    /// The identity with the given bytes.
    pub fn new(bytes: [u8; 32]) -> (id: Identity)
        ensures
            id@ == bytes@,
    {
        Identity { bytes }
    }

    /// The identity's bytes.
    pub fn to_bytes(&self) -> (bytes: [u8; 32])
        ensures
            bytes@ == self@,
    {
        self.bytes
    }

    /// The identity held in the 32 bytes of `bytes` that start at `offset`.
    pub(crate) fn read(bytes: &[u8], offset: usize) -> (id: Identity)
        requires
            offset + IDENTITY_LEN <= bytes@.len(),
        ensures
            id@ == bytes@.subrange(offset as int, offset + IDENTITY_LEN),
    {
        let len: usize = bytes.len();
        let mut out: [u8; 32] = [0u8; 32];
        let mut i: usize = 0;
        while i < IDENTITY_LEN
            invariant
                i <= IDENTITY_LEN,
                offset + IDENTITY_LEN <= len == bytes@.len(),
                forall|j: int| 0 <= j < i ==> out@[j] == bytes@[offset + j],
            decreases IDENTITY_LEN - i,
        {
            out[i] = bytes[offset + i];
            i = i + 1;
        }
        assert(out@ =~= bytes@.subrange(offset as int, offset + IDENTITY_LEN));
        Identity { bytes: out }
    }

    /// Appends the identity's bytes to `out`.
    pub(crate) fn write(&self, out: &mut Vec<u8>)
        ensures
            final(out)@ == old(out)@ + self@,
    {
        let mut i: usize = 0;
        while i < IDENTITY_LEN
            invariant
                i <= IDENTITY_LEN,
                out@ == old(out)@ + self@.subrange(0, i as int),
            decreases IDENTITY_LEN - i,
        {
            out.push(self.bytes[i]);
            assert(self@.subrange(0, i + 1) =~= self@.subrange(0, i as int).push(self@[i as int]));
            i = i + 1;
        }
        assert(self@.subrange(0, IDENTITY_LEN as int) =~= self@);
    }
}

impl PartialEq for Identity {
    fn eq(&self, other: &Self) -> (same: bool) {
        let mut i: usize = 0;
        while i < IDENTITY_LEN
            invariant
                i <= IDENTITY_LEN,
                forall|j: int| 0 <= j < i ==> self@[j] == other@[j],
            decreases IDENTITY_LEN - i,
        {
            if self.bytes[i] != other.bytes[i] {
                return false;
            }
            i = i + 1;
        }
        assert(self@ =~= other@);
        true
    }
}

impl Eq for Identity {

}

impl vstd::std_specs::cmp::PartialEqSpecImpl for Identity {
    open spec fn obeys_eq_spec() -> bool {
        true
    }

    open spec fn eq_spec(&self, other: &Self) -> bool {
        self@ == other@
    }
}

} // verus!
