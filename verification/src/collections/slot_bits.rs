//! A 64-bit word read as a set of slot indices: bit `ix` of the word says
//! whether slot `ix` is in the set.

use vstd::prelude::*;

verus! {

/// Whether bit `ix` of `bits` is set. No index outside `0..64` is ever in.
pub open spec fn has_slot(bits: u64, ix: int) -> bool {
    0 <= ix < 64 && (bits >> (ix as u64)) & 1 == 1
}

/// The slots whose bit is set in `bits`.
pub open spec fn slot_set(bits: u64) -> Set<int> {
    Set::new(|ix: int| has_slot(bits, ix))
}

proof fn lemma_bit_of_zero(j: u64)
    by (bit_vector)
    requires
        j < 64,
    ensures
        (0u64 >> j) & 1 != 1,
{
}

proof fn lemma_bit_of_mask(ix: u64, j: u64)
    by (bit_vector)
    requires
        ix < 64,
        j < 64,
    ensures
        ((1u64 << ix) >> j) & 1 == 1 <==> j == ix,
{
}

proof fn lemma_bit_of_or(x: u64, y: u64, j: u64)
    by (bit_vector)
    requires
        j < 64,
    ensures
        ((x | y) >> j) & 1 == 1 <==> ((x >> j) & 1 == 1 || (y >> j) & 1 == 1),
{
}

proof fn lemma_bit_of_and_not(x: u64, y: u64, j: u64)
    by (bit_vector)
    requires
        j < 64,
    ensures
        ((x & !y) >> j) & 1 == 1 <==> ((x >> j) & 1 == 1 && (y >> j) & 1 != 1),
{
}

proof fn lemma_bit_test(bits: u64, ix: u64)
    by (bit_vector)
    requires
        ix < 64,
    ensures
        bits & (1u64 << ix) != 0 <==> (bits >> ix) & 1 == 1,
{
}

proof fn lemma_top_bit_decides(x: u64, y: u64)
    by (bit_vector)
    requires
        (x >> 63) & 1 == (y >> 63) & 1,
    ensures
        x >> 63 == y >> 63,
{
}

proof fn lemma_next_bit_decides(x: u64, y: u64, k: u64)
    by (bit_vector)
    requires
        k < 63,
        x >> ((k + 1) as u64) == y >> ((k + 1) as u64),
        (x >> k) & 1 == (y >> k) & 1,
    ensures
        x >> k == y >> k,
{
}

proof fn lemma_bit_is_zero_or_one(x: u64, j: u64)
    by (bit_vector)
    requires
        j < 64,
    ensures
        (x >> j) & 1 == 0 || (x >> j) & 1 == 1,
{
}

proof fn lemma_shift_by_zero(x: u64)
    by (bit_vector)
    ensures
        x >> 0 == x,
{
}

proof fn lemma_equal_from(x: u64, y: u64, k: u64)
    requires
        k < 64,
        forall|j: u64| k <= j < 64 ==> (#[trigger] (x >> j)) & 1 == (y >> j) & 1,
    ensures
        x >> k == y >> k,
    decreases 64 - k,
{
    if k == 63 {
        lemma_top_bit_decides(x, y);
    } else {
        lemma_equal_from(x, y, (k + 1) as u64);
        lemma_next_bit_decides(x, y, k);
    }
}

/// The empty word holds no slot.
pub proof fn lemma_slot_set_zero()
    ensures
        slot_set(0) == Set::<int>::empty(),
{
    assert forall|j: int| !has_slot(0, j) by {
        if 0 <= j < 64 {
            lemma_bit_of_zero(j as u64);
        }
    }
}

/// The word with only bit `ix` set holds slot `ix` and no other.
pub proof fn lemma_slot_set_mask(ix: u64)
    requires
        ix < 64,
    ensures
        slot_set(1u64 << ix) == set![ix as int],
{
    assert forall|j: int| has_slot(1u64 << ix, j) <==> j == ix as int by {
        if 0 <= j < 64 {
            lemma_bit_of_mask(ix, j as u64);
        }
    }
}

/// Bitwise or is the union of the slot sets.
pub proof fn lemma_slot_set_or(x: u64, y: u64)
    ensures
        slot_set(x | y) == slot_set(x).union(slot_set(y)),
{
    assert forall|j: int| has_slot(x | y, j) <==> (has_slot(x, j) || has_slot(y, j)) by {
        if 0 <= j < 64 {
            lemma_bit_of_or(x, y, j as u64);
        }
    }
}

/// Masking with a complement is the difference of the slot sets.
pub proof fn lemma_slot_set_and_not(x: u64, y: u64)
    ensures
        slot_set(x & !y) == slot_set(x).difference(slot_set(y)),
{
    assert forall|j: int| has_slot(x & !y, j) <==> (has_slot(x, j) && !has_slot(y, j)) by {
        if 0 <= j < 64 {
            lemma_bit_of_and_not(x, y, j as u64);
        }
    }
}

/// Setting bit `ix` puts slot `ix` in.
pub proof fn lemma_slot_set_insert(bits: u64, ix: u64)
    requires
        ix < 64,
    ensures
        slot_set(bits | (1u64 << ix)) == slot_set(bits).insert(ix as int),
{
    lemma_slot_set_or(bits, 1u64 << ix);
    lemma_slot_set_mask(ix);
}

/// Clearing bit `ix` takes slot `ix` out.
pub proof fn lemma_slot_set_remove(bits: u64, ix: u64)
    requires
        ix < 64,
    ensures
        slot_set(bits & !(1u64 << ix)) == slot_set(bits).remove(ix as int),
{
    lemma_slot_set_and_not(bits, 1u64 << ix);
    lemma_slot_set_mask(ix);
}

/// Testing a word against the mask of `ix` tells whether slot `ix` is in.
pub proof fn lemma_slot_set_test(bits: u64, ix: u64)
    requires
        ix < 64,
    ensures
        bits & (1u64 << ix) != 0 <==> slot_set(bits).contains(ix as int),
{
    lemma_bit_test(bits, ix);
}

/// A word is determined by its slot set: two words that hold the same slots
/// are the same number.
pub proof fn lemma_slot_set_injective(x: u64, y: u64)
    requires
        slot_set(x) == slot_set(y),
    ensures
        x == y,
{
    assert forall|j: u64| 0 <= j < 64 implies (#[trigger] (x >> j)) & 1 == (y >> j) & 1 by {
        assert(slot_set(x).contains(j as int) == has_slot(x, j as int));
        assert(slot_set(y).contains(j as int) == has_slot(y, j as int));
        lemma_bit_is_zero_or_one(x, j);
        lemma_bit_is_zero_or_one(y, j);
    }
    lemma_equal_from(x, y, 0);
    lemma_shift_by_zero(x);
    lemma_shift_by_zero(y);
}

} // verus!
