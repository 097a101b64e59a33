//! Readiness kinds that Unix platforms report beyond readable and writable.

use vstd::prelude::*;
use vstd::std_specs::convert::FromSpec;
use vstd::std_specs::ops::BitAndSpec;
use vstd::std_specs::ops::BitOrSpec;
use vstd::std_specs::ops::SubSpec;
use crate::bits::lemma_self_held_and_cleared;
use crate::bits::lemma_union_holds_operands;
use crate::names::listed;
use crate::names::named_if;
use crate::names::NameList;
use crate::ready::Ready;
use crate::ready::ERROR;
use crate::ready::HUP;
use crate::ready::PRI;
use crate::ready::READABLE;
use crate::ready::WRITABLE;

verus! {

/// A readiness set seen with the platform's extra kinds: error, hang-up and
/// priority.
///
/// It wraps a [`Ready`] and has the same mask; converting either way keeps
/// every bit.
#[derive(Copy, Clone, Debug, PartialEq, Eq, Structural, PartialOrd, Ord)]
pub struct UnixReady(Ready);

impl UnixReady {
    /// The mask of this set.
    pub closed spec fn view(self) -> usize {
        self.0@
    }

    /// The set with the given mask.
    pub closed spec fn of(mask: usize) -> UnixReady {
        UnixReady(Ready::of(mask))
    }

    /// Whether every kind in `other` is in this set.
    pub open spec fn spec_contains(&self, other: UnixReady) -> bool {
        self@ & other@ == other@
    }

    /// Whether this set holds error readiness.
    pub open spec fn spec_is_error(&self) -> bool {
        self@ & ERROR == ERROR
    }

    /// Whether this set holds hang-up readiness.
    pub open spec fn spec_is_hup(&self) -> bool {
        self@ & HUP == HUP
    }

    /// Whether this set holds priority readiness.
    pub open spec fn spec_is_priority(&self) -> bool {
        self@ & PRI == PRI
    }

    /// The names of the kinds in this set, in the order they are written out.
    pub open spec fn names(self) -> Seq<Seq<char>> {
        named_if(self@ & READABLE == READABLE, "Readable"@)
            + named_if(self@ & WRITABLE == WRITABLE, "Writable"@)
            + named_if(self.spec_is_error(), "Error"@)
            + named_if(self.spec_is_hup(), "Hup"@)
            + named_if(self.spec_is_priority(), "Priority"@)
    }

    /// The set holding error readiness alone.
    #[inline]
    pub fn error() -> (r: UnixReady)
        ensures
            r@ == ERROR,
    {
        UnixReady(Ready::from_usize(ERROR))
    }

    /// The set holding hang-up readiness alone: the peer closed the
    /// connection or shut down its writing half.
    #[inline]
    pub fn hup() -> (r: UnixReady)
        ensures
            r@ == HUP,
    {
        UnixReady(Ready::from_usize(HUP))
    }

    /// The set holding priority readiness alone.
    #[inline]
    pub fn priority() -> (r: UnixReady)
        ensures
            r@ == PRI,
    {
        UnixReady(Ready::from_usize(PRI))
    }

    /// Whether the set holds error readiness.
    #[inline]
    #[verifier::when_used_as_spec(spec_is_error)]
    pub fn is_error(&self) -> (r: bool)
        ensures
            r == (self@ & ERROR == ERROR),
    {
        self.0.contains(Ready::from_usize(ERROR))
    }

    /// Whether the set holds hang-up readiness.
    #[inline]
    #[verifier::when_used_as_spec(spec_is_hup)]
    pub fn is_hup(&self) -> (r: bool)
        ensures
            r == (self@ & HUP == HUP),
    {
        self.0.contains(Ready::from_usize(HUP))
    }

    /// Whether the set holds priority readiness.
    #[inline]
    #[verifier::when_used_as_spec(spec_is_priority)]
    pub fn is_priority(&self) -> (r: bool)
        ensures
            r == (self@ & PRI == PRI),
    {
        self.0.contains(Ready::from_usize(PRI))
    }

    /// Whether every kind in `other` is in the set.
    #[inline]
    #[verifier::when_used_as_spec(spec_contains)]
    pub fn contains(&self, other: UnixReady) -> (r: bool)
        ensures
            r == (self@ & other@ == other@),
    {
        self.0.contains(other.0)
    }

    /// Adds the kinds of `other` to the set.
    #[inline]
    pub fn insert(&mut self, other: UnixReady)
        ensures
            final(self)@ == old(self)@ | other@,
    {
        self.0.insert(other.0);
    }

    /// Takes the kinds of `other` out of the set.
    #[inline]
    pub fn remove(&mut self, other: UnixReady)
        ensures
            final(self)@ == old(self)@ & !other@,
    {
        self.0.remove(other.0);
    }

    /// Writes the set out: the names of its kinds with ` | ` between them, or
    /// `(empty)`.
    pub fn fmt(&self) -> (text: String)
        ensures
            text@ == listed(self.names()),
    {
        let mut list = NameList::new();
        list.push_if(self.0.is_readable(), "Readable");
        list.push_if(self.0.is_writable(), "Writable");
        list.push_if(self.is_error(), "Error");
        list.push_if(self.is_hup(), "Hup");
        list.push_if(self.is_priority(), "Priority");
        list.finish()
    }
}

impl vstd::std_specs::convert::FromSpecImpl<Ready> for UnixReady {
    open spec fn obeys_from_spec() -> bool {
        true
    }

    /// The same mask, seen with the platform's kinds.
    open spec fn from_spec(src: Ready) -> UnixReady {
        UnixReady::of(src@)
    }
}

impl From<Ready> for UnixReady {
    fn from(src: Ready) -> (r: UnixReady)
        ensures
            r@ == src@,
    {
        proof {
            crate::ready::lemma_ready_is_its_mask(src, src@);
        }
        UnixReady(src)
    }
}

impl vstd::std_specs::convert::FromSpecImpl<UnixReady> for Ready {
    open spec fn obeys_from_spec() -> bool {
        true
    }

    /// The same mask, seen as a portable set.
    open spec fn from_spec(src: UnixReady) -> Ready {
        Ready::of(src@)
    }
}

impl From<UnixReady> for Ready {
    fn from(src: UnixReady) -> (r: Ready)
        ensures
            r@ == src@,
    {
        proof {
            crate::ready::lemma_ready_is_its_mask(src.0, src@);
        }
        src.0
    }
}

impl core::ops::Deref for UnixReady {
    type Target = Ready;

    /// The portable set with the same mask.
    fn deref(&self) -> (r: &Ready)
        ensures
            r@ == self@,
    {
        &self.0
    }
}

impl core::ops::DerefMut for UnixReady {
    /// The portable set with the same mask, for changing in place.
    fn deref_mut(&mut self) -> (r: &mut Ready)
        ensures
            r@ == old(self)@,
            final(self)@ == final(r)@,
    {
        &mut self.0
    }
}

impl vstd::std_specs::ops::BitOrSpecImpl for UnixReady {
    open spec fn obeys_bitor_spec() -> bool {
        true
    }

    open spec fn bitor_req(self, rhs: UnixReady) -> bool {
        true
    }

    /// The union of the two sets.
    open spec fn bitor_spec(self, rhs: UnixReady) -> UnixReady {
        UnixReady::of(self@ | rhs@)
    }
}

impl core::ops::BitOr for UnixReady {
    type Output = UnixReady;

    #[inline]
    fn bitor(self, other: UnixReady) -> (r: UnixReady)
        ensures
            r@ == self@ | other@,
    {
        UnixReady(Ready::from_usize(self.0.as_usize() | other.0.as_usize()))
    }
}

impl vstd::std_specs::ops::BitXorSpecImpl for UnixReady {
    open spec fn obeys_bitxor_spec() -> bool {
        true
    }

    open spec fn bitxor_req(self, rhs: UnixReady) -> bool {
        true
    }

    /// The kinds that are in exactly one of the two sets.
    open spec fn bitxor_spec(self, rhs: UnixReady) -> UnixReady {
        UnixReady::of(self@ ^ rhs@)
    }
}

impl core::ops::BitXor for UnixReady {
    type Output = UnixReady;

    #[inline]
    fn bitxor(self, other: UnixReady) -> (r: UnixReady)
        ensures
            r@ == self@ ^ other@,
    {
        UnixReady(Ready::from_usize(self.0.as_usize() ^ other.0.as_usize()))
    }
}

impl vstd::std_specs::ops::BitAndSpecImpl for UnixReady {
    open spec fn obeys_bitand_spec() -> bool {
        true
    }

    open spec fn bitand_req(self, rhs: UnixReady) -> bool {
        true
    }

    /// The kinds that are in both sets.
    open spec fn bitand_spec(self, rhs: UnixReady) -> UnixReady {
        UnixReady::of(self@ & rhs@)
    }
}

impl core::ops::BitAnd for UnixReady {
    type Output = UnixReady;

    #[inline]
    fn bitand(self, other: UnixReady) -> (r: UnixReady)
        ensures
            r@ == self@ & other@,
    {
        UnixReady(Ready::from_usize(self.0.as_usize() & other.0.as_usize()))
    }
}

impl vstd::std_specs::ops::SubSpecImpl for UnixReady {
    open spec fn obeys_sub_spec() -> bool {
        true
    }

    open spec fn sub_req(self, rhs: UnixReady) -> bool {
        true
    }

    /// The kinds of the first set that are not in the second.
    open spec fn sub_spec(self, rhs: UnixReady) -> UnixReady {
        UnixReady::of(self@ & !rhs@)
    }
}

impl core::ops::Sub for UnixReady {
    type Output = UnixReady;

    #[inline]
    fn sub(self, other: UnixReady) -> (r: UnixReady)
        ensures
            r@ == self@ & !other@,
    {
        UnixReady(Ready::from_usize(self.0.as_usize() & !other.0.as_usize()))
    }
}

impl vstd::std_specs::ops::NotSpecImpl for UnixReady {
    open spec fn obeys_not_spec() -> bool {
        true
    }

    open spec fn not_req(self) -> bool {
        true
    }

    /// The set whose mask has exactly the bits that this one lacks.
    open spec fn not_spec(self) -> UnixReady {
        UnixReady::of(!self@)
    }
}

impl core::ops::Not for UnixReady {
    type Output = UnixReady;

    #[inline]
    fn not(self) -> (r: UnixReady)
        ensures
            r@ == !self@,
    {
        UnixReady(Ready::from_usize(!self.0.as_usize()))
    }
}

impl vstd::std_specs::ops::BitOrSpecImpl<UnixReady> for Ready {
    open spec fn obeys_bitor_spec() -> bool {
        true
    }

    open spec fn bitor_req(self, rhs: UnixReady) -> bool {
        true
    }

    /// The union of the two sets.
    open spec fn bitor_spec(self, rhs: UnixReady) -> Ready {
        Ready::of(self@ | rhs@)
    }
}

impl core::ops::BitOr<UnixReady> for Ready {
    type Output = Ready;

    #[inline]
    fn bitor(self, other: UnixReady) -> (r: Ready)
        ensures
            r@ == self@ | other@,
    {
        Ready::from_usize(self.as_usize() | other.0.as_usize())
    }
}

impl vstd::std_specs::ops::BitXorSpecImpl<UnixReady> for Ready {
    open spec fn obeys_bitxor_spec() -> bool {
        true
    }

    open spec fn bitxor_req(self, rhs: UnixReady) -> bool {
        true
    }

    /// The kinds that are in exactly one of the two sets.
    open spec fn bitxor_spec(self, rhs: UnixReady) -> Ready {
        Ready::of(self@ ^ rhs@)
    }
}

impl core::ops::BitXor<UnixReady> for Ready {
    type Output = Ready;

    #[inline]
    fn bitxor(self, other: UnixReady) -> (r: Ready)
        ensures
            r@ == self@ ^ other@,
    {
        Ready::from_usize(self.as_usize() ^ other.0.as_usize())
    }
}

impl vstd::std_specs::ops::BitAndSpecImpl<UnixReady> for Ready {
    open spec fn obeys_bitand_spec() -> bool {
        true
    }

    open spec fn bitand_req(self, rhs: UnixReady) -> bool {
        true
    }

    /// The kinds that are in both sets.
    open spec fn bitand_spec(self, rhs: UnixReady) -> Ready {
        Ready::of(self@ & rhs@)
    }
}

impl core::ops::BitAnd<UnixReady> for Ready {
    type Output = Ready;

    #[inline]
    fn bitand(self, other: UnixReady) -> (r: Ready)
        ensures
            r@ == self@ & other@,
    {
        Ready::from_usize(self.as_usize() & other.0.as_usize())
    }
}

impl vstd::std_specs::ops::SubSpecImpl<UnixReady> for Ready {
    open spec fn obeys_sub_spec() -> bool {
        true
    }

    open spec fn sub_req(self, rhs: UnixReady) -> bool {
        true
    }

    /// The kinds of the first set that are not in the second.
    open spec fn sub_spec(self, rhs: UnixReady) -> Ready {
        Ready::of(self@ & !rhs@)
    }
}

impl core::ops::Sub<UnixReady> for Ready {
    type Output = Ready;

    #[inline]
    fn sub(self, other: UnixReady) -> (r: Ready)
        ensures
            r@ == self@ & !other@,
    {
        Ready::from_usize(self.as_usize() & !other.0.as_usize())
    }
}

impl core::ops::BitOrAssign<UnixReady> for Ready {
    #[inline]
    fn bitor_assign(&mut self, other: UnixReady)
        ensures
            final(self)@ == old(self)@ | other@,
    {
        *self = Ready::from_usize(self.as_usize() | other.0.as_usize());
    }
}

impl core::ops::BitXorAssign<UnixReady> for Ready {
    #[inline]
    fn bitxor_assign(&mut self, other: UnixReady)
        ensures
            final(self)@ == old(self)@ ^ other@,
    {
        *self = Ready::from_usize(self.as_usize() ^ other.0.as_usize());
    }
}

impl core::ops::BitAndAssign<UnixReady> for Ready {
    #[inline]
    fn bitand_assign(&mut self, other: UnixReady)
        ensures
            final(self)@ == old(self)@ & other@,
    {
        *self = Ready::from_usize(self.as_usize() & other.0.as_usize());
    }
}

impl core::ops::SubAssign<UnixReady> for Ready {
    #[inline]
    fn sub_assign(&mut self, other: UnixReady)
        ensures
            final(self)@ == old(self)@ & !other@,
    {
        *self = Ready::from_usize(self.as_usize() & !other.0.as_usize());
    }
}

/// A set is its mask: the set made from a mask has that mask, and two sets
/// with one mask are one set.
pub proof fn lemma_unix_ready_is_its_mask(a: UnixReady, mask: usize)
    ensures
        UnixReady::of(mask)@ == mask,
        UnixReady::of(a@) == a,
{
    crate::ready::lemma_ready_is_its_mask(a.0, mask);
}

/// Converting between the portable and the platform's readiness sets keeps
/// the mask, so going there and back gives the set one started with.
pub proof fn lemma_conversion_is_lossless(r: Ready, u: UnixReady)
    ensures
        UnixReady::from_spec(r)@ == r@,
        Ready::from_spec(u)@ == u@,
        Ready::from_spec(UnixReady::from_spec(r)) == r,
        UnixReady::from_spec(Ready::from_spec(u)) == u,
{
    crate::ready::lemma_ready_is_its_mask(r, r@);
    crate::ready::lemma_ready_is_its_mask(u.0, u@);
}

/// A union holds both of its operands, every set holds itself, and a set
/// less itself is empty.
pub proof fn lemma_unix_ready_union_and_difference(a: UnixReady, b: UnixReady)
    ensures
        a.bitor_spec(b).contains(a),
        a.bitor_spec(b).contains(b),
        a.contains(a),
        a.sub_spec(a)@ == 0,
{
    crate::ready::lemma_ready_is_its_mask(a.0, a@ | b@);
    crate::ready::lemma_ready_is_its_mask(a.0, a@ & !a@);
    lemma_union_holds_operands(a@, b@);
    lemma_self_held_and_cleared(a@);
}

/// One set contains another exactly when their intersection is that other.
pub proof fn lemma_unix_ready_contains_is_intersection(a: UnixReady, b: UnixReady)
    ensures
        a.contains(b) <==> a.bitand_spec(b) == b,
{
    crate::ready::lemma_ready_is_its_mask(b.0, a@ & b@);
}

} // verus!
