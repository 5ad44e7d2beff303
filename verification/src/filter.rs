//! The filter itself: construction, insertion, membership query and reset,
//! each against a model of the bit pattern as a sequence of booleans.

use vstd::prelude::*;

use crate::bits::bits_of;
use crate::bits::bv_fill;
use crate::bits::bv_get;
use crate::bits::bv_set;
use crate::bits::bv_with_len;
use crate::hashing::digest64;
use crate::hashing::xxh64;

verus! {

/// The one failure the library can report: a filter asked for with no room
/// for any bits.
#[derive(Clone, Copy, Debug, PartialEq, Eq, Structural)]
pub enum BloomError {
    InvalidConfiguration,
}

/// A Bloom filter: a fixed-size bit array and a count `k` of hash rounds.
/// Each insertion sets the `k` bits that the rounds of the item select; a
/// query answers true exactly when all `k` of them are set.
pub struct Bloom {
    bitvec: bit_vec::BitVec,
    k: u32,
    bits: usize,
}

/// The bit position that hash round `round` of `item` selects in a filter of
/// `nbits` bits: the round's digest, reduced modulo the bit count.
pub open spec fn bit_index(round: int, item: Seq<u8>, nbits: int) -> int {
    xxh64(round as u64, item) as int % nbits
}

/// The bit pattern that rounds `0 .. rounds` of one insertion of `item` leave
/// behind, starting from the pattern `bits`.
pub open spec fn pattern_after_put(bits: Seq<bool>, item: Seq<u8>, rounds: int) -> Seq<bool>
    decreases rounds,
{
    if rounds <= 0 {
        bits
    } else {
        pattern_after_put(bits, item, rounds - 1).update(
            bit_index(rounds - 1, item, bits.len() as int),
            true,
        )
    }
}

/// Whether every bit that rounds `0 .. k` of `item` select is set in `bits`:
/// the answer a membership query gives.
pub open spec fn all_rounds_set(bits: Seq<bool>, item: Seq<u8>, k: int) -> bool
    decreases k,
{
    if k <= 0 {
        true
    } else {
        all_rounds_set(bits, item, k - 1) && bits[bit_index(k - 1, item, bits.len() as int)]
    }
}

impl View for Bloom {
    type V = Seq<bool>;

    /// The filter's bit pattern.
    closed spec fn view(&self) -> Seq<bool> {
        bits_of(self.bitvec)
    }
}

impl Bloom {
    /// The number of hash rounds per insertion or query.
    pub closed spec fn spec_k(&self) -> u32 {
        self.k
    }

    /// The filter is well formed: the cached bit count agrees with the bit
    /// vector and is positive.
    pub closed spec fn wf(&self) -> bool {
        &&& self.bits == bits_of(self.bitvec).len()
        &&& self.bits > 0
    }

    /// Builds a filter of `size * 8` bits, all false, with `k` hash rounds.
    /// A filter of zero bytes is meaningless, and is the one rejected input.
    pub fn new(size: usize, k: u32) -> (r: Result<Bloom, BloomError>)
        requires
            8 * size <= usize::MAX,
        ensures
            r is Ok <==> size > 0,
            r matches Err(e) ==> e == BloomError::InvalidConfiguration,
            r matches Ok(f) ==> {
                &&& f.wf()
                &&& f.spec_k() == k
                &&& f@ == Seq::new((8 * size) as nat, |i: int| false)
                &&& f@.len() == 8 * size
            },
    {
        if size == 0 {
            return Err(BloomError::InvalidConfiguration);
        }
        let bits: usize = size * 8;
        let bitvec = bv_with_len(bits, false);
        Ok(Bloom { bitvec, k, bits })
    }

    /// The total number of bits the filter holds.
    pub fn bit_count(&self) -> (r: usize)
        ensures
            r == self@.len(),
    {
        crate::bits::bv_len(&self.bitvec)
    }

    /// Inserts `item`: each of the `k` hash rounds selects one bit position
    /// and sets it, leaving every other bit as it was.
    pub fn put(&mut self, item: &[u8])
        requires
            old(self).wf(),
        ensures
            final(self).wf(),
            final(self).spec_k() == old(self).spec_k(),
            final(self)@.len() == old(self)@.len(),
            final(self)@ == pattern_after_put(old(self)@, item@, old(self).spec_k() as int),
    {
        let ghost bits0 = self@;
        let mut i: u32 = 0;
        while i < self.k
            invariant
                i <= self.k,
                self.k == old(self).spec_k(),
                self.bits == old(self).bits,
                self.wf(),
                bits0 == old(self)@,
                bits0.len() == self.bits,
                self@ == pattern_after_put(bits0, item@, i as int),
            decreases self.k - i,
        {
            proof {
                crate::laws::lemma_pattern_after_put_len(bits0, item@, i as int);
            }
            let h = digest64(item, i as u64);
            let idx = (h % (self.bits as u64)) as usize;
            assert(idx == bit_index(i as int, item@, bits0.len() as int));
            bv_set(&mut self.bitvec, idx, true);
            i = i + 1;
        }
    }

    /// Reports whether `item` has possibly been inserted: true exactly when
    /// all `k` bits that its hash rounds select are set. An unbroken false
    /// answer means the item was never inserted since the last reset.
    pub fn has(&self, item: &[u8]) -> (r: bool)
        requires
            self.wf(),
        ensures
            r == all_rounds_set(self@, item@, self.spec_k() as int),
    {
        let mut i: u32 = 0;
        while i < self.k
            invariant
                i <= self.k,
                self.wf(),
                all_rounds_set(self@, item@, i as int),
            decreases self.k - i,
        {
            let h = digest64(item, i as u64);
            let idx = (h % (self.bits as u64)) as usize;
            assert(idx == bit_index(i as int, item@, self@.len() as int));
            if !bv_get(&self.bitvec, idx) {
                proof {
                    crate::laws::lemma_round_unset_refutes(
                        self@,
                        item@,
                        self.spec_k() as int,
                        i as int,
                    );
                }
                return false;
            }
            i = i + 1;
        }
        true
    }

    /// Resets every bit to false, returning the filter to its
    /// just-constructed state; the bit count and `k` are unchanged.
    pub fn clear(&mut self)
        requires
            old(self).wf(),
        ensures
            final(self).wf(),
            final(self).spec_k() == old(self).spec_k(),
            final(self)@.len() == old(self)@.len(),
            final(self)@ == Seq::new(old(self)@.len(), |i: int| false),
    {
        bv_fill(&mut self.bitvec, false);
    }
}

} // verus!
