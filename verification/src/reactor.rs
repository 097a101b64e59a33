//! The dispatch table of the reactor: for each registered resource, under
//! its token, the readiness cached for its two directions and the tasks that
//! wait for them.

use vstd::prelude::*;
use crate::direction::Direction;
use crate::direction::DirectionView;
use crate::direction::READ_MASK;
use crate::direction::WRITE_MASK;
use crate::event::Event;
use crate::ready::Ready;
use crate::ready::PRI;
use crate::ready::READABLE;
use crate::ready::WRITABLE;
use crate::sys::Step;
use crate::table::TokenTable;
use crate::token::Token;
use crate::token::AWAKEN;

verus! {

/// One of the two directions of a resource.
#[derive(Copy, Clone, Debug, PartialEq, Eq, Structural)]
pub enum Side {
    Read,
    Write,
}

/// What the two directions of a resource hold.
pub struct ChannelsView<W> {
    pub read: DirectionView<W>,
    pub write: DirectionView<W>,
}

impl<W> ChannelsView<W> {
    /// A resource that was just registered: neither direction is ready and
    /// no task waits.
    pub open spec fn fresh() -> Self {
        ChannelsView {
            read: DirectionView { cached: 0, waiter: None, mask: READ_MASK },
            write: DirectionView { cached: 0, waiter: None, mask: WRITE_MASK },
        }
    }

    /// What the given direction holds.
    pub open spec fn side(self, side: Side) -> DirectionView<W> {
        match side {
            Side::Read => self.read,
            Side::Write => self.write,
        }
    }

    /// The same with the given direction replaced; the other one stays as
    /// it is.
    pub open spec fn with_side(self, side: Side, direction: DirectionView<W>) -> Self {
        match side {
            Side::Read => ChannelsView { read: direction, write: self.write },
            Side::Write => ChannelsView { read: self.read, write: direction },
        }
    }

    /// The handles to wake when an event reports `reported`.
    pub open spec fn woken(self, reported: usize) -> Wakes<W> {
        Wakes { read: self.read.woken(reported), write: self.write.woken(reported) }
    }

    /// The directions after an event reported `reported`.
    pub open spec fn after_dispatch(self, reported: usize) -> Self {
        ChannelsView {
            read: self.read.after_dispatch(reported),
            write: self.write.after_dispatch(reported),
        }
    }
}

/// The two directions of a resource.
pub struct Channels<W> {
    read: Direction<W>,
    write: Direction<W>,
}

impl<W> Channels<W> {
    /// What the two directions hold.
    pub closed spec fn view(&self) -> ChannelsView<W> {
        ChannelsView { read: self.read@, write: self.write@ }
    }

    /// Both directions are well formed.
    pub closed spec fn wf(&self) -> bool {
        self.read.wf() && self.write.wf()
    }

    /// The directions of a resource that was just registered.
    pub fn new() -> (channels: Self)
        ensures
            channels.wf(),
            channels@ == ChannelsView::<W>::fresh(),
    {
        Channels {
            read: Direction::new(Ready::from_usize(READ_MASK)),
            write: Direction::new(Ready::from_usize(WRITE_MASK)),
        }
    }

    /// Asks whether the given direction is ready on behalf of the task with
    /// the given handle. The other direction stays as it is.
    pub fn poll_ready(&mut self, side: Side, handle: W) -> (step: Step<Ready>)
        requires
            old(self).wf(),
        ensures
            final(self).wf(),
            step == old(self)@.side(side).poll_result(),
            final(self)@ == old(self)@.with_side(side, old(self)@.side(side).after_poll(handle)),
    {
        match side {
            Side::Read => self.read.poll_ready(handle),
            Side::Write => self.write.poll_ready(handle),
        }
    }

    /// Makes the given direction not ready and keeps the handle of the task.
    /// The other direction stays as it is.
    pub fn clear_ready(&mut self, side: Side, handle: W)
        requires
            old(self).wf(),
        ensures
            final(self).wf(),
            final(self)@ == old(self)@.with_side(
                side,
                old(self)@.side(side).after_clear(handle),
            ),
    {
        match side {
            Side::Read => self.read.clear_ready(handle),
            Side::Write => self.write.clear_ready(handle),
        }
    }

    /// Takes in the readiness that an event reported, direction by
    /// direction, and returns the handles to wake.
    pub fn dispatch(&mut self, reported: Ready) -> (wakes: Wakes<W>)
        requires
            old(self).wf(),
        ensures
            final(self).wf(),
            wakes == old(self)@.woken(reported@),
            final(self)@ == old(self)@.after_dispatch(reported@),
    {
        let read = self.read.dispatch(reported);
        let write = self.write.dispatch(reported);
        Wakes { read, write }
    }
}

/// The handles of the tasks to wake after an event, one for each direction
/// that the event made ready. Waking them is the caller's part.
pub struct Wakes<W> {
    pub read: Option<W>,
    pub write: Option<W>,
}

impl<W> Wakes<W> {
    /// The handles in a row: that of the reader, if any, before that of the
    /// writer, if any.
    pub open spec fn in_order(self) -> Seq<W> {
        (match self.read {
            Some(handle) => seq![handle],
            None => Seq::empty(),
        }) + (match self.write {
            Some(handle) => seq![handle],
            None => Seq::empty(),
        })
    }
}

/// The table after an event was dispatched: the resource that owns its
/// token took it in; without such a resource the table is as it was.
pub open spec fn after_event<W>(table: Map<usize, ChannelsView<W>>, event: Event) -> Map<
    usize,
    ChannelsView<W>,
> {
    if table.contains_key(event@.1@) {
        table.insert(event@.1@, table[event@.1@].after_dispatch(event@.0@))
    } else {
        table
    }
}

/// The handles to wake when an event is dispatched: those of the resource
/// that owns its token; without such a resource, none.
pub open spec fn woken_by_event<W>(table: Map<usize, ChannelsView<W>>, event: Event) -> Wakes<W> {
    if table.contains_key(event@.1@) {
        table[event@.1@].woken(event@.0@)
    } else {
        Wakes { read: None, write: None }
    }
}

/// The table after the events were dispatched one after the other.
pub open spec fn after_events<W>(table: Map<usize, ChannelsView<W>>, events: Seq<Event>) -> Map<
    usize,
    ChannelsView<W>,
>
    decreases events.len(),
{
    if events.len() == 0 {
        table
    } else {
        after_event(after_events(table, events.drop_last()), events.last())
    }
}

/// The handles to wake when the events are dispatched one after the other,
/// in the order of the events.
pub open spec fn woken_by_events<W>(table: Map<usize, ChannelsView<W>>, events: Seq<Event>) -> Seq<
    W,
>
    decreases events.len(),
{
    if events.len() == 0 {
        Seq::empty()
    } else {
        woken_by_events(table, events.drop_last()) + woken_by_event(
            after_events(table, events.drop_last()),
            events.last(),
        ).in_order()
    }
}

/// The dispatch table.
///
/// The view of a reactor is the map from the number of each registered token
/// to what the directions of its resource hold.
pub struct Reactor<W> {
    table: TokenTable<Channels<W>>,
}

impl<W> Reactor<W> {
    /// The registered resources, by the number of their token.
    pub closed spec fn view(&self) -> Map<usize, ChannelsView<W>> {
        self.table@.map_values(|channels: Channels<W>| channels@)
    }

    /// The table and every entry in it are well formed.
    pub closed spec fn wf(&self) -> bool {
        &&& self.table.wf()
        &&& forall|k: usize| #[trigger] self.table@.contains_key(k) ==> self.table@[k].wf()
    }

    /// The number of the token that the next registration gets.
    pub closed spec fn upcoming(&self) -> usize {
        self.table.upcoming()
    }

    /// A reactor with nothing registered.
    pub fn new() -> (reactor: Self)
        ensures
            reactor.wf(),
            reactor@ == Map::<usize, ChannelsView<W>>::empty(),
    {
        let reactor = Reactor { table: TokenTable::new() };
        reactor
    }

    /// Registers a resource and returns its token: one that no registered
    /// resource has, and never the awakener's.
    pub fn add(&mut self) -> (token: Token)
        requires
            old(self).wf(),
        ensures
            final(self).wf(),
            token@ == old(self).upcoming(),
            !old(self)@.contains_key(token@),
            token@ != AWAKEN,
            final(self)@ == old(self)@.insert(token@, ChannelsView::fresh()),
    {
        let channels = Channels::new();
        let token = self.table.insert(channels);
        token
    }

    /// Takes the resource under `token` out of the table and says whether
    /// there was one. Its token is the next to be given out.
    pub fn remove(&mut self, token: Token) -> (found: bool)
        requires
            old(self).wf(),
        ensures
            final(self).wf(),
            found == old(self)@.contains_key(token@),
            final(self)@ == old(self)@.remove(token@),
            found ==> final(self).upcoming() == token@,
            !found ==> final(self).upcoming() == old(self).upcoming(),
    {
        let entry = self.table.remove(token);
        entry.is_some()
    }

    /// Whether a resource is registered under `token`.
    pub fn contains(&self, token: Token) -> (found: bool)
        ensures
            found == self@.contains_key(token@),
    {
        self.table.contains(token)
    }

    /// Hands an event to the resource that owns its token and returns the
    /// handles to wake.
    ///
    /// An event for a token that nothing is registered under is dropped: the
    /// table stays as it is and nobody is woken.
    pub fn dispatch(&mut self, event: Event) -> (wakes: Wakes<W>)
        requires
            old(self).wf(),
        ensures
            final(self).wf(),
            final(self).upcoming() == old(self).upcoming(),
            final(self)@ == after_event(old(self)@, event),
            wakes == woken_by_event(old(self)@, event),
    {
        match self.table.get_mut(event.token()) {
            Some(channels) => channels.dispatch(event.readiness()),
            None => Wakes { read: None, write: None },
        }
    }

    /// Dispatches the events of one poll cycle, one after the other in the
    /// order they were reported, and returns the handles to wake, in the
    /// order they came up.
    pub fn turn(&mut self, events: &Vec<Event>) -> (wake: Vec<W>)
        requires
            old(self).wf(),
        ensures
            final(self).wf(),
            final(self).upcoming() == old(self).upcoming(),
            final(self)@ == after_events(old(self)@, events@),
            wake@ == woken_by_events(old(self)@, events@),
    {
        let mut wake: Vec<W> = Vec::new();
        let mut i: usize = 0;
        while i < events.len()
            invariant
                i <= events.len(),
                self.wf(),
                self.upcoming() == old(self).upcoming(),
                self@ == after_events(old(self)@, events@.subrange(0, i as int)),
                wake@ == woken_by_events(old(self)@, events@.subrange(0, i as int)),
            decreases events.len() - i,
        {
            proof {
                let before = events@.subrange(0, i as int);
                let now = events@.subrange(0, i + 1);
                assert(now.drop_last() == before);
            }
            let wakes = self.dispatch(events[i]);
            if let Some(handle) = wakes.read {
                wake.push(handle);
            }
            if let Some(handle) = wakes.write {
                wake.push(handle);
            }
            i = i + 1;
        }
        assert(events@.subrange(0, i as int) == events@);
        wake
    }

    /// Asks whether the given direction of the resource under `token` is
    /// ready, on behalf of the task with the given handle.
    ///
    /// Returns `None`, and changes nothing, when nothing is registered under
    /// the token. Otherwise a ready direction answers with its cached
    /// readiness; one that is not ready keeps the handle and answers that
    /// the task has to suspend.
    pub fn poll_ready(&mut self, token: Token, side: Side, handle: W) -> (step: Option<
        Step<Ready>,
    >)
        requires
            old(self).wf(),
        ensures
            final(self).wf(),
            final(self).upcoming() == old(self).upcoming(),
            old(self)@.contains_key(token@) ==> {
                &&& step == Some(old(self)@[token@].side(side).poll_result())
                &&& final(self)@ == old(self)@.insert(
                    token@,
                    old(self)@[token@].with_side(
                        side,
                        old(self)@[token@].side(side).after_poll(handle),
                    ),
                )
            },
            !old(self)@.contains_key(token@) ==> step is None && final(self)@ == old(self)@,
    {
        match self.table.get_mut(token) {
            Some(channels) => Some(channels.poll_ready(side, handle)),
            None => None,
        }
    }

    /// Makes the given direction of the resource under `token` not ready and
    /// keeps the handle of the task, and says whether a resource was found.
    ///
    /// Only that direction changes: what is cached for the other direction,
    /// and for every other resource, stays.
    pub fn clear_ready(&mut self, token: Token, side: Side, handle: W) -> (found: bool)
        requires
            old(self).wf(),
        ensures
            final(self).wf(),
            final(self).upcoming() == old(self).upcoming(),
            found == old(self)@.contains_key(token@),
            found ==> final(self)@ == old(self)@.insert(
                token@,
                old(self)@[token@].with_side(
                    side,
                    old(self)@[token@].side(side).after_clear(handle),
                ),
            ),
            !found ==> final(self)@ == old(self)@,
    {
        match self.table.get_mut(token) {
            Some(channels) => {
                channels.clear_ready(side, handle);
                true
            },
            None => false,
        }
    }
}

/// The two directions keep apart. Readable and priority readiness concern
/// the reader alone and writable readiness the writer alone: an event that
/// reports only the one leaves the other direction as it was and wakes
/// nobody there. Clearing a direction leaves the other as it was.
pub proof fn lemma_directions_keep_apart<W>(c: ChannelsView<W>, handle: W)
    requires
        c.read.mask == READ_MASK,
        c.write.mask == WRITE_MASK,
    ensures
        c.after_dispatch(WRITABLE).read == c.read,
        c.woken(WRITABLE).read is None,
        c.after_dispatch(READABLE | PRI).write == c.write,
        c.woken(READABLE | PRI).write is None,
        c.with_side(Side::Read, c.read.after_clear(handle)).write == c.write,
        c.with_side(Side::Write, c.write.after_clear(handle)).read == c.read,
{
    assert(WRITABLE & READ_MASK == 0 && (READABLE | PRI) & WRITE_MASK == 0) by (bit_vector);
    crate::bits::lemma_union_grows(c.read.cached, 0);
    crate::bits::lemma_union_grows(c.write.cached, 0);
}

/// Dispatching events neither registers nor deregisters anything, and takes
/// no readiness away: every resource keeps its token, and what was cached for
/// either of its directions stays cached.
pub proof fn lemma_events_keep_what_is_cached<W>(
    table: Map<usize, ChannelsView<W>>,
    events: Seq<Event>,
)
    ensures
        after_events(table, events).dom() == table.dom(),
        forall|k: usize| #[trigger]
            table.contains_key(k) ==> {
                &&& after_events(table, events)[k].read.cached & table[k].read.cached
                    == table[k].read.cached
                &&& after_events(table, events)[k].write.cached & table[k].write.cached
                    == table[k].write.cached
            },
    decreases events.len(),
{
    if events.len() == 0 {
        assert forall|k: usize| #[trigger] table.contains_key(k) implies table[k].read.cached
            & table[k].read.cached == table[k].read.cached && table[k].write.cached
            & table[k].write.cached == table[k].write.cached by {
            crate::bits::lemma_self_held_and_cleared(table[k].read.cached);
            crate::bits::lemma_self_held_and_cleared(table[k].write.cached);
        }
    } else {
        let rest = events.drop_last();
        let last = events.last();
        let mid = after_events(table, rest);
        let end = after_events(table, events);
        lemma_events_keep_what_is_cached(table, rest);
        assert forall|k: usize| #[trigger] table.contains_key(k) implies end[k].read.cached
            & table[k].read.cached == table[k].read.cached && end[k].write.cached
            & table[k].write.cached == table[k].write.cached by {
            if k == last@.1@ {
                crate::direction::lemma_dispatch_keeps_readiness(mid[k].read, last@.0@);
                crate::direction::lemma_dispatch_keeps_readiness(mid[k].write, last@.0@);
            } else {
                crate::bits::lemma_self_held_and_cleared(mid[k].read.cached);
                crate::bits::lemma_self_held_and_cleared(mid[k].write.cached);
            }
            crate::bits::lemma_holding_carries_over(
                table[k].read.cached,
                mid[k].read.cached,
                end[k].read.cached,
            );
            crate::bits::lemma_holding_carries_over(
                table[k].write.cached,
                mid[k].write.cached,
                end[k].write.cached,
            );
        }
    }
}

/// Tokens are not shared: the token that the next registration gets is that
/// of no registered resource.
pub proof fn lemma_next_token_is_unused<W>(reactor: Reactor<W>)
    requires
        reactor.wf(),
    ensures
        !reactor@.contains_key(reactor.upcoming()),
{
    crate::table::lemma_upcoming_token_is_free(reactor.table);
}

} // verus!
