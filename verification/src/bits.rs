//! Facts about bitmasks that the default solver does not know.

use vstd::prelude::*;

verus! {

/// A union holds each of its operands.
pub proof fn lemma_union_holds_operands(a: usize, b: usize)
    by (bit_vector)
    ensures
        (a | b) & a == a,
        (a | b) & b == b,
{
}

/// Every mask holds itself, and taking a mask away from itself leaves nothing.
pub proof fn lemma_self_held_and_cleared(a: usize)
    by (bit_vector)
    ensures
        a & a == a,
        a & !a == 0,
{
}

/// Adding bits to a mask keeps the bits it had, and adds none when it was
/// empty and the added bits are none.
pub proof fn lemma_union_grows(a: usize, b: usize)
    by (bit_vector)
    ensures
        (a | b) & a == a,
        0usize | b == b,
        a | 0usize == a,
        a != 0 ==> (a | b) != 0,
{
}

/// No bits are within every mask, and bits within a mask stay within it when
/// bits cut down to the mask are added.
pub proof fn lemma_masked_stays_within(a: usize, b: usize, mask: usize)
    by (bit_vector)
    ensures
        0usize & !mask == 0,
        a & !mask == 0 ==> (a | (b & mask)) & !mask == 0,
{
}

/// If one mask holds another, and a third holds the first, the third holds
/// the other.
pub proof fn lemma_holding_carries_over(inner: usize, middle: usize, outer: usize)
    by (bit_vector)
    requires
        middle & inner == inner,
        outer & middle == middle,
    ensures
        outer & inner == inner,
{
}

/// What setting readiness does to a mask: of the bits `set`, those within
/// `interest` are added to `held`.
pub proof fn lemma_set_within_interest(held: usize, set: usize, interest: usize)
    by (bit_vector)
    ensures
        (held | (set & interest)) & !set == held & !set,
        (set & interest) & !held != 0 ==> (held | (set & interest)) & interest != 0,
        (set & interest) & !held != 0 ==> ((held | (set & interest)) & interest) & set != 0,
        (set & interest) & !held == 0 ==> held | (set & interest) == held,
        (held | (set & interest)) & interest == (held & interest) | (set & interest),
{
}

/// No bit of a mask is within the empty mask, and none is left of a mask
/// once its own bits are taken away.
pub proof fn lemma_nothing_left(held: usize, interest: usize)
    by (bit_vector)
    ensures
        held & 0usize == 0,
        (held & !(held & interest)) & interest == 0,
        (held & !held) & interest == 0,
{
}

} // verus!
