//! The bit array behind the filter: `bit_vec::BitVec`, seen through contracts
//! that speak of the sequence of booleans it holds.

use vstd::prelude::*;

verus! {

/// Relies on bit_vec::BitVec, the packed bit vector that stores the filter's
/// flags; here it is opaque, and read only through the wrappers below.
#[verifier::external_type_specification]
#[verifier::external_body]
#[verifier::reject_recursive_types(B)]
pub struct ExBitVec<B>(bit_vec::BitVec<B>);

/// The bits that a `BitVec` holds, in index order.
pub uninterp spec fn bits_of(b: bit_vec::BitVec) -> Seq<bool>;

/// Relies on bit_vec::BitVec::from_elem: a vector of `nbits` bits, each equal
/// to `bit`.
#[verifier::external_body]
pub(crate) fn bv_with_len(nbits: usize, bit: bool) -> (r: bit_vec::BitVec)
    ensures
        bits_of(r) == Seq::new(nbits as nat, |i: int| bit),
{
    bit_vec::BitVec::from_elem(nbits, bit)
}

/// Relies on bit_vec::BitVec::len: the total number of bits in the vector.
#[verifier::external_body]
pub(crate) fn bv_len(b: &bit_vec::BitVec) -> (r: usize)
    ensures
        r == bits_of(*b).len(),
{
    b.len()
}

/// Relies on bit_vec::BitVec::get: `Some` of the bit at `i` exactly when `i`
/// is in bounds, which the precondition guarantees.
#[verifier::external_body]
pub(crate) fn bv_get(b: &bit_vec::BitVec, i: usize) -> (r: bool)
    requires
        i < bits_of(*b).len(),
    ensures
        r == bits_of(*b)[i as int],
{
    b.get(i).unwrap()
}

/// Relies on bit_vec::BitVec::set: writes `x` at index `i`, leaving every
/// other bit and the length unchanged; it panics only out of bounds, which the
/// precondition excludes.
#[verifier::external_body]
pub(crate) fn bv_set(b: &mut bit_vec::BitVec, i: usize, x: bool)
    requires
        i < bits_of(*old(b)).len(),
    ensures
        bits_of(*final(b)) == bits_of(*old(b)).update(i as int, x),
{
    b.set(i, x)
}

/// Relies on bit_vec::BitVec::fill: assigns the given value to every bit,
/// leaving the length unchanged.
#[verifier::external_body]
pub(crate) fn bv_fill(b: &mut bit_vec::BitVec, bit: bool)
    ensures
        bits_of(*final(b)) == Seq::new(bits_of(*old(b)).len(), |i: int| bit),
{
    b.fill(bit)
}

} // verus!
