//! Readiness sets: which kinds of operation a resource is ready for.

use vstd::prelude::*;
use vstd::std_specs::ops::BitAndSpec;
use vstd::std_specs::ops::BitOrSpec;
use vstd::std_specs::ops::SubSpec;
use crate::bits::lemma_self_held_and_cleared;
use crate::bits::lemma_union_holds_operands;
use crate::names::listed;
use crate::names::named_if;
use crate::names::NameList;

verus! {

/// The bit for readable readiness.
pub const READABLE: usize = 0b00001;

/// The bit for writable readiness.
pub const WRITABLE: usize = 0b00010;

/// The bit for error readiness.
pub const ERROR: usize = 0b00100;

/// The bit for hang-up readiness.
pub const HUP: usize = 0b01000;

/// The bit for priority readiness.
pub const PRI: usize = 0b100_0000;

/// The bit for completed asynchronous I/O: this platform reports none.
pub const LIO: usize = 0b000_0000;

/// The bits of the platform's readiness kinds beyond readable and writable.
pub const READY_ALL: usize = ERROR | HUP | LIO | PRI;

/// A set of readiness kinds, held as a bitmask.
///
/// The view of a set is its mask. Any mask is a valid set; bits without a name
/// are carried along untouched.
#[derive(Copy, Clone, Debug, PartialEq, Eq, Structural, PartialOrd, Ord)]
pub struct Ready(usize);

impl Ready {
    /// The mask of this set.
    pub closed spec fn view(self) -> usize {
        self.0
    }

    /// The set with the given mask.
    pub closed spec fn of(mask: usize) -> Ready {
        Ready(mask)
    }

    /// Whether every kind in `other` is in this set.
    pub open spec fn spec_contains(&self, other: Ready) -> bool {
        self@ & other@ == other@
    }

    /// Whether this set holds nothing.
    pub open spec fn spec_is_empty(&self) -> bool {
        self@ == 0
    }

    /// Whether this set holds readable readiness.
    pub open spec fn spec_is_readable(&self) -> bool {
        self@ & READABLE == READABLE
    }

    /// Whether this set holds writable readiness.
    pub open spec fn spec_is_writable(&self) -> bool {
        self@ & WRITABLE == WRITABLE
    }

    /// The names of the kinds in this set, in the order they are written out.
    pub open spec fn names(self) -> Seq<Seq<char>> {
        named_if(self@ & READABLE == READABLE, "Readable"@)
            + named_if(self@ & WRITABLE == WRITABLE, "Writable"@)
            + named_if(self@ & ERROR == ERROR, "Error"@)
            + named_if(self@ & HUP == HUP, "Hup"@)
    }

    /// The set with no readiness in it.
    pub fn empty() -> (r: Ready)
        ensures
            r@ == 0,
    {
        Ready(0)
    }

    /// The set holding readable readiness alone.
    #[inline]
    pub fn readable() -> (r: Ready)
        ensures
            r@ == READABLE,
    {
        Ready(READABLE)
    }

    /// The set holding writable readiness alone.
    #[inline]
    pub fn writable() -> (r: Ready)
        ensures
            r@ == WRITABLE,
    {
        Ready(WRITABLE)
    }

    /// The set of every readiness kind that has a name.
    #[inline]
    pub fn all() -> (r: Ready)
        ensures
            r@ == READABLE | WRITABLE | READY_ALL,
            r@ == 0b100_1111,
    {
        assert(READABLE | WRITABLE | READY_ALL == 0b100_1111) by (bit_vector);
        Ready(READABLE | WRITABLE | READY_ALL)
    }

    /// Whether the set holds nothing.
    #[inline]
    #[verifier::when_used_as_spec(spec_is_empty)]
    pub fn is_empty(&self) -> (r: bool)
        ensures
            r == (self@ == 0),
    {
        self.0 == 0
    }

    /// Whether the set holds readable readiness.
    #[inline]
    #[verifier::when_used_as_spec(spec_is_readable)]
    pub fn is_readable(&self) -> (r: bool)
        ensures
            r == (self@ & READABLE == READABLE),
    {
        self.0 & READABLE == READABLE
    }

    /// Whether the set holds writable readiness.
    #[inline]
    #[verifier::when_used_as_spec(spec_is_writable)]
    pub fn is_writable(&self) -> (r: bool)
        ensures
            r == (self@ & WRITABLE == WRITABLE),
    {
        self.0 & WRITABLE == WRITABLE
    }

    /// Adds the kinds of `other` to the set.
    #[inline]
    pub fn insert(&mut self, other: Ready)
        ensures
            final(self)@ == old(self)@ | other@,
    {
        self.0 |= other.0;
    }

    /// Takes the kinds of `other` out of the set.
    #[inline]
    pub fn remove(&mut self, other: Ready)
        ensures
            final(self)@ == old(self)@ & !other@,
    {
        self.0 &= !other.0;
    }

    /// The mask of the set.
    #[inline]
    pub fn bits(&self) -> (r: usize)
        ensures
            r == self@,
    {
        self.0
    }

    /// Whether every kind in `other` is in the set.
    #[inline]
    #[verifier::when_used_as_spec(spec_contains)]
    pub fn contains(&self, other: Ready) -> (r: bool)
        ensures
            r == (self@ & other@ == other@),
    {
        (self.0 & other.0) == other.0
    }

    /// The set with the given mask.
    pub fn from_usize(val: usize) -> (r: Ready)
        ensures
            r@ == val,
            r == Ready::of(val),
    {
        Ready(val)
    }

    /// The mask of the set.
    pub fn as_usize(&self) -> (r: usize)
        ensures
            r == self@,
    {
        self.0
    }

    /// Writes the set out: the names of its kinds with ` | ` between them, or
    /// `(empty)`.
    pub fn fmt(&self) -> (text: String)
        ensures
            text@ == listed(self.names()),
    {
        let mut list = NameList::new();
        list.push_if(self.0 & READABLE == READABLE, "Readable");
        list.push_if(self.0 & WRITABLE == WRITABLE, "Writable");
        list.push_if(self.0 & ERROR == ERROR, "Error");
        list.push_if(self.0 & HUP == HUP, "Hup");
        list.finish()
    }
}

impl vstd::std_specs::ops::BitOrSpecImpl<Ready> for Ready {
    open spec fn obeys_bitor_spec() -> bool {
        true
    }

    open spec fn bitor_req(self, rhs: Ready) -> bool {
        true
    }

    /// The union of the two sets.
    open spec fn bitor_spec(self, rhs: Ready) -> Ready {
        Ready::of(self@ | rhs@)
    }
}

impl core::ops::BitOr<Ready> for Ready {
    type Output = Ready;

    #[inline]
    fn bitor(self, other: Ready) -> (r: Ready)
        ensures
            r@ == self@ | other@,
    {
        Ready(self.0 | other.0)
    }
}

impl vstd::std_specs::ops::BitXorSpecImpl<Ready> for Ready {
    open spec fn obeys_bitxor_spec() -> bool {
        true
    }

    open spec fn bitxor_req(self, rhs: Ready) -> bool {
        true
    }

    /// The kinds that are in exactly one of the two sets.
    open spec fn bitxor_spec(self, rhs: Ready) -> Ready {
        Ready::of(self@ ^ rhs@)
    }
}

impl core::ops::BitXor<Ready> for Ready {
    type Output = Ready;

    #[inline]
    fn bitxor(self, other: Ready) -> (r: Ready)
        ensures
            r@ == self@ ^ other@,
    {
        Ready(self.0 ^ other.0)
    }
}

impl vstd::std_specs::ops::BitAndSpecImpl<Ready> for Ready {
    open spec fn obeys_bitand_spec() -> bool {
        true
    }

    open spec fn bitand_req(self, rhs: Ready) -> bool {
        true
    }

    /// The kinds that are in both sets.
    open spec fn bitand_spec(self, rhs: Ready) -> Ready {
        Ready::of(self@ & rhs@)
    }
}

impl core::ops::BitAnd<Ready> for Ready {
    type Output = Ready;

    #[inline]
    fn bitand(self, other: Ready) -> (r: Ready)
        ensures
            r@ == self@ & other@,
    {
        Ready(self.0 & other.0)
    }
}

impl vstd::std_specs::ops::SubSpecImpl<Ready> for Ready {
    open spec fn obeys_sub_spec() -> bool {
        true
    }

    open spec fn sub_req(self, rhs: Ready) -> bool {
        true
    }

    /// The kinds of the first set that are not in the second.
    open spec fn sub_spec(self, rhs: Ready) -> Ready {
        Ready::of(self@ & !rhs@)
    }
}

impl core::ops::Sub<Ready> for Ready {
    type Output = Ready;

    #[inline]
    fn sub(self, other: Ready) -> (r: Ready)
        ensures
            r@ == self@ & !other@,
    {
        Ready(self.0 & !other.0)
    }
}

impl vstd::std_specs::ops::NotSpecImpl for Ready {
    open spec fn obeys_not_spec() -> bool {
        true
    }

    open spec fn not_req(self) -> bool {
        true
    }

    /// The set whose mask has exactly the bits that this one lacks.
    open spec fn not_spec(self) -> Ready {
        Ready::of(!self@)
    }
}

impl core::ops::Not for Ready {
    type Output = Ready;

    #[inline]
    fn not(self) -> (r: Ready)
        ensures
            r@ == !self@,
    {
        Ready(!self.0)
    }
}

impl core::ops::BitOrAssign<Ready> for Ready {
    #[inline]
    fn bitor_assign(&mut self, other: Ready)
        ensures
            final(self)@ == old(self)@ | other@,
    {
        self.0 |= other.0;
    }
}

impl core::ops::BitXorAssign<Ready> for Ready {
    #[inline]
    fn bitxor_assign(&mut self, other: Ready)
        ensures
            final(self)@ == old(self)@ ^ other@,
    {
        self.0 ^= other.0;
    }
}

impl core::ops::BitAndAssign<Ready> for Ready {
    #[inline]
    fn bitand_assign(&mut self, other: Ready)
        ensures
            final(self)@ == old(self)@ & other@,
    {
        self.0 &= other.0
    }
}

impl core::ops::SubAssign<Ready> for Ready {
    #[inline]
    fn sub_assign(&mut self, other: Ready)
        ensures
            final(self)@ == old(self)@ & !other@,
    {
        self.0 &= !other.0;
    }
}

/// The mask of a readiness set.
pub fn ready_as_usize(events: Ready) -> (r: usize)
    ensures
        r == events@,
{
    events.0
}

/// The readiness set with the given mask.
pub fn ready_from_usize(events: usize) -> (r: Ready)
    ensures
        r@ == events,
        r == Ready::of(events),
{
    Ready(events)
}

/// A set is its mask: the set made from a mask has that mask, and two sets
/// with one mask are one set.
pub proof fn lemma_ready_is_its_mask(a: Ready, mask: usize)
    ensures
        Ready::of(mask)@ == mask,
        Ready::of(a@) == a,
{
}

/// A union holds both of its operands, every set holds itself, and a set
/// less itself is empty.
pub proof fn lemma_ready_union_and_difference(a: Ready, b: Ready)
    ensures
        a.bitor_spec(b).contains(a),
        a.bitor_spec(b).contains(b),
        a.contains(a),
        a.sub_spec(a).is_empty(),
{
    lemma_union_holds_operands(a@, b@);
    lemma_self_held_and_cleared(a@);
}

/// One set contains another exactly when their intersection is that other.
pub proof fn lemma_ready_contains_is_intersection(a: Ready, b: Ready)
    ensures
        a.contains(b) <==> a.bitand_spec(b) == b,
{
}

} // verus!
