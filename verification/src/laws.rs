//! The laws of the filter, proved over the model: insertion only turns bits
//! on, an insertion is always found again, and a reset refutes every query.

use vstd::prelude::*;

use crate::filter::all_rounds_set;
use crate::filter::bit_index;
use crate::filter::pattern_after_put;

verus! {

/// An insertion never changes the number of bits.
pub proof fn lemma_pattern_after_put_len(bits: Seq<bool>, item: Seq<u8>, rounds: int)
    requires
        bits.len() > 0,
    ensures
        pattern_after_put(bits, item, rounds).len() == bits.len(),
    decreases rounds,
{
    if rounds > 0 {
        lemma_pattern_after_put_len(bits, item, rounds - 1);
    }
}

/// One unset round refutes a query: if the bit that round `i` of `item`
/// selects is false, a query with `k > i` rounds answers false.
pub proof fn lemma_round_unset_refutes(bits: Seq<bool>, item: Seq<u8>, k: int, i: int)
    requires
        0 <= i < k,
        !bits[bit_index(i, item, bits.len() as int)],
    ensures
        !all_rounds_set(bits, item, k),
    decreases k,
{
    if i < k - 1 {
        lemma_round_unset_refutes(bits, item, k - 1, i);
    }
}

/// Law: monotonicity. Insertion only turns bits on: every bit set before an
/// insertion is still set after it, whatever item was inserted. Applied
/// insertion by insertion, the set of true bits is non-decreasing between
/// resets.
pub proof fn lemma_put_monotone(bits: Seq<bool>, item: Seq<u8>, rounds: int)
    requires
        bits.len() > 0,
    ensures
        forall|j: int|
            0 <= j < bits.len() && bits[j] ==> #[trigger] pattern_after_put(
                bits,
                item,
                rounds,
            )[j],
    decreases rounds,
{
    if rounds > 0 {
        lemma_put_monotone(bits, item, rounds - 1);
        lemma_pattern_after_put_len(bits, item, rounds - 1);
        let prev = pattern_after_put(bits, item, rounds - 1);
        let idx = bit_index(rounds - 1, item, bits.len() as int);
        assert forall|j: int|
            0 <= j < bits.len() && bits[j] implies #[trigger] pattern_after_put(
            bits,
            item,
            rounds,
        )[j] by {
            if j == idx {
                assert(prev.update(idx, true)[j]);
            } else {
                assert(prev.update(idx, true)[j] == prev[j]);
            }
        }
    }
}

/// A query that a pattern satisfies, a pattern with at least the same set
/// bits satisfies too.
proof fn lemma_all_rounds_set_monotone(b1: Seq<bool>, b2: Seq<bool>, item: Seq<u8>, k: int)
    requires
        b1.len() > 0,
        b1.len() == b2.len(),
        forall|j: int| 0 <= j < b1.len() && b1[j] ==> #[trigger] b2[j],
        all_rounds_set(b1, item, k),
    ensures
        all_rounds_set(b2, item, k),
    decreases k,
{
    if k > 0 {
        lemma_all_rounds_set_monotone(b1, b2, item, k - 1);
        let idx = bit_index(k - 1, item, b1.len() as int);
        assert(0 <= idx < b1.len());
        assert(b2[idx]);
    }
}

/// Law: no false negatives, freshly. Right after an insertion of `item`,
/// every bit that its `k` hash rounds select is set, so a query for `item`
/// answers true.
pub proof fn lemma_put_sets_all_rounds(bits: Seq<bool>, item: Seq<u8>, k: int)
    requires
        bits.len() > 0,
    ensures
        all_rounds_set(pattern_after_put(bits, item, k), item, k),
    decreases k,
{
    if k > 0 {
        lemma_put_sets_all_rounds(bits, item, k - 1);
        lemma_pattern_after_put_len(bits, item, k - 1);
        lemma_pattern_after_put_len(bits, item, k);
        let prev = pattern_after_put(bits, item, k - 1);
        let cur = pattern_after_put(bits, item, k);
        let idx = bit_index(k - 1, item, bits.len() as int);
        assert(0 <= idx < bits.len());
        assert forall|j: int| 0 <= j < prev.len() && prev[j] implies #[trigger] cur[j] by {
            if j == idx {
                assert(prev.update(idx, true)[j]);
            } else {
                assert(prev.update(idx, true)[j] == prev[j]);
            }
        }
        lemma_all_rounds_set_monotone(prev, cur, item, k - 1);
        assert(cur[idx]);
    }
}

/// Law: no false negatives, lastingly. A query for `x` that answers true
/// keeps answering true across a further insertion of any item; applied
/// insertion by insertion, across any number of them, as long as no reset
/// comes between.
pub proof fn lemma_put_keeps_rounds_set(
    bits: Seq<bool>,
    x: Seq<u8>,
    other: Seq<u8>,
    kx: int,
    ko: int,
)
    requires
        bits.len() > 0,
        all_rounds_set(bits, x, kx),
    ensures
        all_rounds_set(pattern_after_put(bits, other, ko), x, kx),
{
    lemma_pattern_after_put_len(bits, other, ko);
    lemma_put_monotone(bits, other, ko);
    lemma_all_rounds_set_monotone(bits, pattern_after_put(bits, other, ko), x, kx);
}

/// The bit pattern after inserting each of `items` in order, `k` hash rounds
/// each, starting from the pattern `bits`.
pub open spec fn pattern_after_puts(bits: Seq<bool>, items: Seq<Seq<u8>>, k: int) -> Seq<bool>
    decreases items.len(),
{
    if items.len() == 0 {
        bits
    } else {
        pattern_after_puts(pattern_after_put(bits, items[0], k), items.drop_first(), k)
    }
}

/// A query that answers true keeps answering true across any sequence of
/// further insertions.
proof fn lemma_puts_keep_rounds_set(
    bits: Seq<bool>,
    x: Seq<u8>,
    others: Seq<Seq<u8>>,
    kx: int,
    k: int,
)
    requires
        bits.len() > 0,
        all_rounds_set(bits, x, kx),
    ensures
        all_rounds_set(pattern_after_puts(bits, others, k), x, kx),
    decreases others.len(),
{
    if others.len() > 0 {
        lemma_put_keeps_rounds_set(bits, x, others[0], kx, k);
        lemma_pattern_after_put_len(bits, others[0], k);
        lemma_puts_keep_rounds_set(
            pattern_after_put(bits, others[0], k),
            x,
            others.drop_first(),
            kx,
            k,
        );
    }
}

/// Law: no false negatives. After an insertion of `x`, a query for `x`
/// answers true, and keeps answering true after any number of further
/// insertions of arbitrary other items, as long as no reset comes between.
pub proof fn lemma_no_false_negatives(bits: Seq<bool>, x: Seq<u8>, others: Seq<Seq<u8>>, k: int)
    requires
        bits.len() > 0,
    ensures
        all_rounds_set(pattern_after_puts(pattern_after_put(bits, x, k), others, k), x, k),
{
    lemma_put_sets_all_rounds(bits, x, k);
    lemma_pattern_after_put_len(bits, x, k);
    lemma_puts_keep_rounds_set(pattern_after_put(bits, x, k), x, others, k, k);
}

/// Law: a reset clears the filter. In an all-false pattern a query with at
/// least one hash round answers false, whatever the item; so after a reset
/// every item not re-inserted is reported absent. With no rounds at all the
/// query is vacuous and answers true, which is why one round is required.
pub proof fn lemma_reset_refutes_all(item: Seq<u8>, nbits: nat, k: int)
    requires
        nbits > 0,
        k >= 1,
    ensures
        !all_rounds_set(Seq::new(nbits, |i: int| false), item, k),
    decreases k,
{
    let bits = Seq::new(nbits, |i: int| false);
    if k == 1 {
        assert(!bits[bit_index(0, item, bits.len() as int)]);
    } else {
        lemma_reset_refutes_all(item, nbits, k - 1);
    }
}

} // verus!
