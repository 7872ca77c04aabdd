use vstd::prelude::*;

verus! {

/// A finished bit sequence, carried in bitvec's `BitVec`.
///
/// Contracts see a value of this type only through `bv_bits`, the sequence of
/// booleans it holds, front to back.
#[verifier::external_body]
pub struct DecodedBits {
    inner: bitvec::vec::BitVec,
}

pub uninterp spec fn bv_bits(v: DecodedBits) -> Seq<bool>;

/// Largest number of bits this library ever pushes into one `DecodedBits`;
/// kept well below bitvec's own capacity limit so that `push` cannot panic.
pub const MAX_DECODED_BITS: usize = 0x00ff_ffff;

impl DecodedBits {
    /// Relies on bitvec's `BitVec::new`: returns a bit-vector holding no bits.
    #[verifier::external_body]
    pub(crate) fn new() -> (r: DecodedBits)
        ensures
            bv_bits(r) == Seq::<bool>::empty(),
    {
        DecodedBits { inner: bitvec::vec::BitVec::new() }
    }

    /// Relies on bitvec's `BitVec::push`: appends one bit at the back. It
    /// panics only when the length would pass `BitSlice::MAX_BITS`, which is
    /// far above `MAX_DECODED_BITS` on every target, so the precondition
    /// rules that out.
    #[verifier::external_body]
    pub(crate) fn push(&mut self, bit: bool)
        requires
            bv_bits(*old(self)).len() < MAX_DECODED_BITS,
        ensures
            bv_bits(*final(self)) == bv_bits(*old(self)).push(bit),
    {
        self.inner.push(bit);
    }

    /// Relies on bitvec's `BitVec::len`: the number of bits held.
    #[verifier::external_body]
    pub fn len(&self) -> (r: usize)
        ensures
            r == bv_bits(*self).len(),
    {
        self.inner.len()
    }

    /// Relies on bitvec's `BitSlice` indexing: the bit at `index`. Indexing
    /// panics only past the length, which the precondition rules out.
    #[verifier::external_body]
    pub fn get(&self, index: usize) -> (r: bool)
        requires
            index < bv_bits(*self).len(),
        ensures
            r == bv_bits(*self)[index as int],
    {
        self.inner[index]
    }
}

} // verus!
