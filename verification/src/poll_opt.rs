//! Registration options: how a resource's readiness is to be reported.

use vstd::prelude::*;
use vstd::std_specs::ops::BitAndSpec;
use vstd::std_specs::ops::BitOrSpec;
use vstd::std_specs::ops::SubSpec;
use crate::bits::lemma_self_held_and_cleared;
use crate::bits::lemma_union_holds_operands;
use crate::names::listed;
use crate::names::named_if;
use crate::names::NameList;

verus! {

/// The bit for edge-triggered reporting.
pub const EDGE: usize = 0b0001;

/// The bit for level-triggered reporting.
pub const LEVEL: usize = 0b0010;

/// The bit for one-shot reporting.
pub const ONESHOT: usize = 0b0100;

/// The bit for urgent reporting.
pub const URGENT: usize = 0b1000;

/// A set of registration options, held as a bitmask.
///
/// The view of a set is its mask. Any mask is a valid set.
#[derive(Copy, Clone, Debug, PartialEq, Eq, Structural, PartialOrd, Ord)]
pub struct PollOpt(usize);

impl PollOpt {
    /// The mask of this set.
    pub closed spec fn view(self) -> usize {
        self.0
    }

    /// The set with the given mask.
    pub closed spec fn of(mask: usize) -> PollOpt {
        PollOpt(mask)
    }

    /// Whether every option in `other` is in this set.
    pub open spec fn spec_contains(&self, other: PollOpt) -> bool {
        self@ & other@ == other@
    }

    /// Whether this set asks for edge-triggered reporting.
    pub open spec fn spec_is_edge(&self) -> bool {
        self@ & EDGE == EDGE
    }

    /// Whether this set asks for level-triggered reporting.
    pub open spec fn spec_is_level(&self) -> bool {
        self@ & LEVEL == LEVEL
    }

    /// Whether this set asks for one-shot reporting.
    pub open spec fn spec_is_oneshot(&self) -> bool {
        self@ & ONESHOT == ONESHOT
    }

    /// Whether this set asks for urgent reporting.
    pub open spec fn spec_is_urgent(&self) -> bool {
        self@ & URGENT == URGENT
    }

    /// The names of the options in this set, in the order they are written
    /// out.
    pub open spec fn names(self) -> Seq<Seq<char>> {
        named_if(self.spec_is_edge(), "Edge-Triggered"@)
            + named_if(self.spec_is_level(), "Level-Triggered"@)
            + named_if(self.spec_is_oneshot(), "OneShot"@)
    }

    /// The set with no option in it.
    #[inline]
    pub fn empty() -> (r: PollOpt)
        ensures
            r@ == 0,
    {
        PollOpt(0)
    }

    /// The set holding the edge-triggered option alone.
    #[inline]
    pub fn edge() -> (r: PollOpt)
        ensures
            r@ == EDGE,
    {
        PollOpt(EDGE)
    }

    /// The set holding the level-triggered option alone.
    #[inline]
    pub fn level() -> (r: PollOpt)
        ensures
            r@ == LEVEL,
    {
        PollOpt(LEVEL)
    }

    /// The set holding the one-shot option alone.
    #[inline]
    pub fn oneshot() -> (r: PollOpt)
        ensures
            r@ == ONESHOT,
    {
        PollOpt(ONESHOT)
    }

    /// The set holding the urgent option alone.
    #[inline]
    pub fn urgent() -> (r: PollOpt)
        ensures
            r@ == URGENT,
    {
        PollOpt(URGENT)
    }

    /// The set of the edge-triggered, level-triggered and one-shot options.
    #[inline]
    pub fn all() -> (r: PollOpt)
        ensures
            r@ == EDGE | LEVEL | ONESHOT,
            r@ == 0b0111,
    {
        assert(EDGE | LEVEL | ONESHOT == 0b0111) by (bit_vector);
        PollOpt(EDGE | LEVEL | ONESHOT)
    }

    /// Whether the set asks for edge-triggered reporting.
    #[inline]
    #[verifier::when_used_as_spec(spec_is_edge)]
    pub fn is_edge(&self) -> (r: bool)
        ensures
            r == (self@ & EDGE == EDGE),
    {
        self.0 & EDGE == EDGE
    }

    /// Whether the set asks for level-triggered reporting.
    #[inline]
    #[verifier::when_used_as_spec(spec_is_level)]
    pub fn is_level(&self) -> (r: bool)
        ensures
            r == (self@ & LEVEL == LEVEL),
    {
        self.0 & LEVEL == LEVEL
    }

    /// Whether the set asks for one-shot reporting.
    #[inline]
    #[verifier::when_used_as_spec(spec_is_oneshot)]
    pub fn is_oneshot(&self) -> (r: bool)
        ensures
            r == (self@ & ONESHOT == ONESHOT),
    {
        self.0 & ONESHOT == ONESHOT
    }

    /// Whether the set asks for urgent reporting.
    #[inline]
    #[verifier::when_used_as_spec(spec_is_urgent)]
    pub fn is_urgent(&self) -> (r: bool)
        ensures
            r == (self@ & URGENT == URGENT),
    {
        self.0 & URGENT == URGENT
    }

    /// The mask of the set.
    #[inline]
    pub fn bits(&self) -> (r: usize)
        ensures
            r == self@,
    {
        self.0
    }

    /// Whether every option in `other` is in the set.
    #[inline]
    #[verifier::when_used_as_spec(spec_contains)]
    pub fn contains(&self, other: PollOpt) -> (r: bool)
        ensures
            r == (self@ & other@ == other@),
    {
        (self.0 & other.0) == other.0
    }

    /// Adds the options of `other` to the set.
    #[inline]
    pub fn insert(&mut self, other: PollOpt)
        ensures
            final(self)@ == old(self)@ | other@,
    {
        self.0 |= other.0;
    }

    /// Takes the options of `other` out of the set.
    #[inline]
    pub fn remove(&mut self, other: PollOpt)
        ensures
            final(self)@ == old(self)@ & !other@,
    {
        self.0 &= !other.0;
    }

    /// Writes the set out: the names of its options with ` | ` between them,
    /// or `(empty)`.
    pub fn fmt(&self) -> (text: String)
        ensures
            text@ == listed(self.names()),
    {
        let mut list = NameList::new();
        list.push_if(self.is_edge(), "Edge-Triggered");
        list.push_if(self.is_level(), "Level-Triggered");
        list.push_if(self.is_oneshot(), "OneShot");
        list.finish()
    }
}

impl vstd::std_specs::ops::BitOrSpecImpl for PollOpt {
    open spec fn obeys_bitor_spec() -> bool {
        true
    }

    open spec fn bitor_req(self, rhs: PollOpt) -> bool {
        true
    }

    /// The union of the two sets.
    open spec fn bitor_spec(self, rhs: PollOpt) -> PollOpt {
        PollOpt::of(self@ | rhs@)
    }
}

impl core::ops::BitOr for PollOpt {
    type Output = PollOpt;

    #[inline]
    fn bitor(self, other: PollOpt) -> (r: PollOpt)
        ensures
            r@ == self@ | other@,
    {
        PollOpt(self.0 | other.0)
    }
}

impl vstd::std_specs::ops::BitXorSpecImpl for PollOpt {
    open spec fn obeys_bitxor_spec() -> bool {
        true
    }

    open spec fn bitxor_req(self, rhs: PollOpt) -> bool {
        true
    }

    /// The options that are in exactly one of the two sets.
    open spec fn bitxor_spec(self, rhs: PollOpt) -> PollOpt {
        PollOpt::of(self@ ^ rhs@)
    }
}

impl core::ops::BitXor for PollOpt {
    type Output = PollOpt;

    #[inline]
    fn bitxor(self, other: PollOpt) -> (r: PollOpt)
        ensures
            r@ == self@ ^ other@,
    {
        PollOpt(self.0 ^ other.0)
    }
}

impl vstd::std_specs::ops::BitAndSpecImpl for PollOpt {
    open spec fn obeys_bitand_spec() -> bool {
        true
    }

    open spec fn bitand_req(self, rhs: PollOpt) -> bool {
        true
    }

    /// The options that are in both sets.
    open spec fn bitand_spec(self, rhs: PollOpt) -> PollOpt {
        PollOpt::of(self@ & rhs@)
    }
}

impl core::ops::BitAnd for PollOpt {
    type Output = PollOpt;

    #[inline]
    fn bitand(self, other: PollOpt) -> (r: PollOpt)
        ensures
            r@ == self@ & other@,
    {
        PollOpt(self.0 & other.0)
    }
}

impl vstd::std_specs::ops::SubSpecImpl for PollOpt {
    open spec fn obeys_sub_spec() -> bool {
        true
    }

    open spec fn sub_req(self, rhs: PollOpt) -> bool {
        true
    }

    /// The options of the first set that are not in the second.
    open spec fn sub_spec(self, rhs: PollOpt) -> PollOpt {
        PollOpt::of(self@ & !rhs@)
    }
}

impl core::ops::Sub for PollOpt {
    type Output = PollOpt;

    #[inline]
    fn sub(self, other: PollOpt) -> (r: PollOpt)
        ensures
            r@ == self@ & !other@,
    {
        PollOpt(self.0 & !other.0)
    }
}

impl vstd::std_specs::ops::NotSpecImpl for PollOpt {
    open spec fn obeys_not_spec() -> bool {
        true
    }

    open spec fn not_req(self) -> bool {
        true
    }

    /// The set whose mask has exactly the bits that this one lacks.
    open spec fn not_spec(self) -> PollOpt {
        PollOpt::of(!self@)
    }
}

impl core::ops::Not for PollOpt {
    type Output = PollOpt;

    #[inline]
    fn not(self) -> (r: PollOpt)
        ensures
            r@ == !self@,
    {
        PollOpt(!self.0)
    }
}

/// The mask of a set of registration options.
pub fn opt_as_usize(opt: PollOpt) -> (r: usize)
    ensures
        r == opt@,
{
    opt.0
}

/// The set of registration options with the given mask.
pub fn opt_from_usize(opt: usize) -> (r: PollOpt)
    ensures
        r@ == opt,
        r == PollOpt::of(opt),
{
    PollOpt(opt)
}

/// A set is its mask: the set made from a mask has that mask, and two sets
/// with one mask are one set.
pub proof fn lemma_poll_opt_is_its_mask(a: PollOpt, mask: usize)
    ensures
        PollOpt::of(mask)@ == mask,
        PollOpt::of(a@) == a,
{
}

/// A union holds both of its operands, every set holds itself, and a set
/// less itself is empty.
pub proof fn lemma_poll_opt_union_and_difference(a: PollOpt, b: PollOpt)
    ensures
        a.bitor_spec(b).contains(a),
        a.bitor_spec(b).contains(b),
        a.contains(a),
        a.sub_spec(a)@ == 0,
{
    lemma_union_holds_operands(a@, b@);
    lemma_self_held_and_cleared(a@);
}

/// One set contains another exactly when their intersection is that other.
pub proof fn lemma_poll_opt_contains_is_intersection(a: PollOpt, b: PollOpt)
    ensures
        a.contains(b) <==> a.bitand_spec(b) == b,
{
}

} // verus!
