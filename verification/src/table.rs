//! Token allocation: a table that gives each entry a token of its own.
//!
//! Tokens come from a counter; the token of an entry that was taken out goes
//! on a free list and is the first to be handed out again.

use vstd::prelude::*;
use crate::token::Token;
use crate::token::AWAKEN;

verus! {

/// Entries filed under tokens that the table picks.
///
/// The view of a table is the map from the number of each live token to its
/// entry.
pub struct TokenTable<T> {
    slots: Vec<Option<T>>,
    free: Vec<usize>,
}

impl<T> TokenTable<T> {
    /// The live entries, by the number of their token.
    pub closed spec fn view(&self) -> Map<usize, T> {
        Map::new(
            |k: usize| k < self.slots.len() && self.slots[k as int] is Some,
            |k: usize| self.slots[k as int]->Some_0,
        )
    }

    /// The free list holds vacant slots only, and each at most once.
    pub closed spec fn wf(&self) -> bool {
        &&& forall|i: int|
            0 <= i < self.free.len() ==> (#[trigger] self.free[i]) < self.slots.len()
                && self.slots[self.free[i] as int] is None
        &&& forall|i: int, j: int|
            0 <= i < j < self.free.len() ==> self.free[i] != self.free[j]
    }

    /// The number of the token that the next insertion hands out.
    pub closed spec fn upcoming(&self) -> usize {
        if self.free.len() > 0 {
            self.free[self.free.len() - 1]
        } else {
            self.slots.len() as usize
        }
    }

    /// A table without entries.
    pub fn new() -> (table: Self)
        ensures
            table.wf(),
            table@ == Map::<usize, T>::empty(),
    {
        let table = TokenTable { slots: Vec::new(), free: Vec::new() };
        table
    }

    /// Files `value` under a token that no live entry has, and returns the
    /// token.
    pub fn insert(&mut self, value: T) -> (token: Token)
        requires
            old(self).wf(),
        ensures
            final(self).wf(),
            token@ == old(self).upcoming(),
            !old(self)@.contains_key(token@),
            token@ != AWAKEN,
            final(self)@ == old(self)@.insert(token@, value),
    {
        match self.free.pop() {
            Some(k) => {
                self.slots.set(k, Some(value));
                Token(k)
            },
            None => {
                let k = self.slots.len();
                self.slots.push(Some(value));
                assert(self@ =~= old(self)@.insert(k, value));
                Token(k)
            },
        }
    }

    /// Takes out the entry under `token` and returns it, or `None` when
    /// there is none. The token of an entry that was taken out is the next
    /// to be handed out.
    pub fn remove(&mut self, token: Token) -> (entry: Option<T>)
        requires
            old(self).wf(),
        ensures
            final(self).wf(),
            final(self)@ == old(self)@.remove(token@),
            old(self)@.contains_key(token@) ==> entry == Some(old(self)@[token@])
                && final(self).upcoming() == token@,
            !old(self)@.contains_key(token@) ==> entry is None && final(self).upcoming() == old(
                self,
            ).upcoming(),
    {
        let k = token.0;
        if k >= self.slots.len() {
            return None;
        }
        self.slots.push(None);
        let entry = self.slots.swap_remove(k);
        if entry.is_some() {
            self.free.push(k);
        }
        entry
    }

    /// The entry under `token`, or `None` when there is none.
    pub fn get(&self, token: Token) -> (entry: Option<&T>)
        ensures
            self@.contains_key(token@) ==> entry == Some(&self@[token@]),
            !self@.contains_key(token@) ==> entry is None,
    {
        let k = token.0;
        if k < self.slots.len() {
            self.slots[k].as_ref()
        } else {
            None
        }
    }

    /// The entry under `token` for changing in place, or `None` when there
    /// is none. Nothing else in the table changes.
    pub fn get_mut(&mut self, token: Token) -> (entry: Option<&mut T>)
        requires
            old(self).wf(),
        ensures
            final(self).wf(),
            final(self).upcoming() == old(self).upcoming(),
            match entry {
                Some(e) => old(self)@.contains_key(token@) && *e == old(self)@[token@]
                    && final(self)@ == old(self)@.insert(token@, *final(e)),
                None => !old(self)@.contains_key(token@) && final(self)@ == old(self)@,
            },
    {
        let k = token.0;
        if k < self.slots.len() {
            self.slots[k].as_mut()
        } else {
            None
        }
    }

    /// Whether there is an entry under `token`.
    pub fn contains(&self, token: Token) -> (live: bool)
        ensures
            live == self@.contains_key(token@),
    {
        let k = token.0;
        k < self.slots.len() && self.slots[k].is_some()
    }
}

/// The token that the next insertion hands out is never that of a live
/// entry.
pub proof fn lemma_upcoming_token_is_free<T>(table: TokenTable<T>)
    requires
        table.wf(),
    ensures
        !table@.contains_key(table.upcoming()),
{
}

} // verus!
