//! One direction of a resource, read or write, as a task sees it.
//!
//! A direction is either not ready or ready. An event that reports
//! readiness for it makes it ready and wakes the task that waits for it; the
//! task makes it not ready again once an operation would block:
//!
//! ```text
//! NotReady --(event reported)--> Ready --(cleared by the task)--> NotReady
//! ```

use vstd::prelude::*;
use crate::bits::lemma_masked_stays_within;
use crate::bits::lemma_union_grows;
use crate::ready::Ready;
use crate::ready::ERROR;
use crate::ready::HUP;
use crate::ready::PRI;
use crate::ready::READABLE;
use crate::ready::WRITABLE;
use crate::sys::Step;

verus! {

/// The readiness kinds that concern the read direction: readable and
/// priority data, and the error and hang-up that a reader has to learn of.
pub const READ_MASK: usize = READABLE | ERROR | HUP | PRI;

/// The readiness kinds that concern the write direction: writable, and the
/// error and hang-up that a writer has to learn of.
pub const WRITE_MASK: usize = WRITABLE | ERROR | HUP;

/// What a direction holds, as plain values: the mask of the readiness it has
/// cached, the handle of the task that waits for it, if any, and the mask of
/// the kinds that concern it.
pub struct DirectionView<W> {
    pub cached: usize,
    pub waiter: Option<W>,
    pub mask: usize,
}

impl<W> DirectionView<W> {
    /// Whether the direction is ready: some readiness is cached.
    pub open spec fn is_ready(self) -> bool {
        self.cached != 0
    }

    /// What a task that asks for readiness is told: the cached readiness,
    /// or that it has to wait.
    pub open spec fn poll_result(self) -> Step<Ready> {
        if self.is_ready() {
            Step::Ready(Ready::of(self.cached))
        } else {
            Step::Pending
        }
    }

    /// The direction after a task asked for readiness: a task that has to
    /// wait leaves its handle.
    pub open spec fn after_poll(self, handle: W) -> Self {
        if self.is_ready() {
            self
        } else {
            DirectionView { cached: self.cached, waiter: Some(handle), mask: self.mask }
        }
    }

    /// The direction after the task cleared it: nothing is cached and the
    /// task's handle waits.
    pub open spec fn after_clear(self, handle: W) -> Self {
        DirectionView { cached: 0, waiter: Some(handle), mask: self.mask }
    }

    /// Whether an event that reports `reported` takes the direction from
    /// not ready to ready.
    pub open spec fn wakes_on(self, reported: usize) -> bool {
        !self.is_ready() && reported & self.mask != 0
    }

    /// The handle to wake when an event reports `reported`: that of the
    /// waiting task if the event makes the direction ready, else none.
    pub open spec fn woken(self, reported: usize) -> Option<W> {
        if self.wakes_on(reported) {
            self.waiter
        } else {
            None
        }
    }

    /// The direction after an event reported `reported`: the kinds that
    /// concern it are added to the cache, and a handle that was woken no
    /// longer waits.
    pub open spec fn after_dispatch(self, reported: usize) -> Self {
        DirectionView {
            cached: self.cached | (reported & self.mask),
            waiter: if self.wakes_on(reported) {
                None
            } else {
                self.waiter
            },
            mask: self.mask,
        }
    }
}

/// One direction of a resource: the readiness cached for it and the handle
/// of the task that waits for it.
pub struct Direction<W> {
    cache: Ready,
    waiter: Option<W>,
    mask: Ready,
}

impl<W> Direction<W> {
    /// What the direction holds.
    pub closed spec fn view(&self) -> DirectionView<W> {
        DirectionView { cached: self.cache@, waiter: self.waiter, mask: self.mask@ }
    }

    /// Only kinds that concern the direction are cached, and no handle is
    /// kept while the direction is ready.
    pub closed spec fn wf(&self) -> bool {
        &&& self.cache@ & !self.mask@ == 0
        &&& self.cache@ != 0 ==> self.waiter is None
    }

    /// A direction that is not ready and that no task waits for, concerned
    /// with the kinds of `mask`.
    pub fn new(mask: Ready) -> (direction: Self)
        ensures
            direction.wf(),
            direction@ == (DirectionView::<W> { cached: 0, waiter: None, mask: mask@ }),
    {
        proof {
            lemma_masked_stays_within(0, 0, mask@);
        }
        Direction { cache: Ready::empty(), waiter: None, mask }
    }

    /// Asks whether the direction is ready on behalf of the task with the
    /// given handle.
    ///
    /// A ready direction answers with the cached readiness at once and keeps
    /// no handle. Otherwise the handle is kept, in place of any kept before,
    /// and the task has to suspend until it is woken.
    pub fn poll_ready(&mut self, handle: W) -> (step: Step<Ready>)
        requires
            old(self).wf(),
        ensures
            final(self).wf(),
            step == old(self)@.poll_result(),
            final(self)@ == old(self)@.after_poll(handle),
    {
        if self.cache.is_empty() {
            self.waiter = Some(handle);
            Step::Pending
        } else {
            proof {
                crate::ready::lemma_ready_is_its_mask(self.cache, 0);
            }
            Step::Ready(self.cache)
        }
    }

    /// Makes the direction not ready and keeps the handle of the task, in
    /// place of any kept before. The task calls this once an operation would
    /// block: only a later event makes the direction ready again.
    pub fn clear_ready(&mut self, handle: W)
        requires
            old(self).wf(),
        ensures
            final(self).wf(),
            final(self)@ == old(self)@.after_clear(handle),
    {
        proof {
            lemma_masked_stays_within(0, 0, self.mask@);
        }
        self.cache = Ready::empty();
        self.waiter = Some(handle);
    }

    /// Takes in the readiness that an event reported and returns the handle
    /// to wake, if any.
    ///
    /// The kinds that concern the direction are added to the cache; nothing
    /// is ever taken from it here. The waiting handle is returned, and no
    /// longer kept, exactly when this takes the direction from not ready to
    /// ready.
    pub fn dispatch(&mut self, reported: Ready) -> (wake: Option<W>)
        requires
            old(self).wf(),
        ensures
            final(self).wf(),
            wake == old(self)@.woken(reported@),
            final(self)@ == old(self)@.after_dispatch(reported@),
    {
        let was_ready = !self.cache.is_empty();
        let news = reported & self.mask;
        proof {
            lemma_masked_stays_within(self.cache@, reported@, self.mask@);
            lemma_union_grows(self.cache@, news@);
        }
        self.cache.insert(news);
        if !was_ready && !news.is_empty() {
            self.waiter.take()
        } else {
            None
        }
    }

    /// Whether the direction is ready.
    pub fn is_ready(&self) -> (ready: bool)
        ensures
            ready == self@.is_ready(),
    {
        !self.cache.is_empty()
    }

    /// The readiness cached for the direction.
    pub fn cached(&self) -> (cached: Ready)
        ensures
            cached@ == self@.cached,
    {
        self.cache
    }

    /// Whether a task waits for the direction.
    pub fn is_awaited(&self) -> (awaited: bool)
        ensures
            awaited == self@.waiter is Some,
    {
        self.waiter.is_some()
    }
}

/// A ready direction keeps no handle: the task that waited was handed out for
/// waking when the direction became ready, and a task that asks a ready
/// direction leaves none.
pub proof fn lemma_ready_direction_keeps_no_handle<W>(direction: Direction<W>)
    requires
        direction.wf(),
    ensures
        direction@.is_ready() ==> direction@.waiter is None,
        direction@.cached & !direction@.mask == 0,
{
}

/// An event never takes readiness away: what was cached stays cached, and a
/// ready direction stays ready.
pub proof fn lemma_dispatch_keeps_readiness<W>(d: DirectionView<W>, reported: usize)
    ensures
        d.after_dispatch(reported).cached & d.cached == d.cached,
        d.is_ready() ==> d.after_dispatch(reported).is_ready(),
{
    lemma_union_grows(d.cached, reported & d.mask);
}

/// A ready direction wakes nobody: between two clearings at most one event
/// wakes the task, the one that makes the direction ready.
pub proof fn lemma_wakes_once_per_transition<W>(d: DirectionView<W>, first: usize, second: usize)
    ensures
        d.is_ready() ==> d.woken(first) is None,
        d.wakes_on(first) ==> d.after_dispatch(first).is_ready() && d.after_dispatch(
            first,
        ).woken(second) is None,
{
    lemma_union_grows(d.cached, first & d.mask);
}

/// After a clearing the direction is not ready, and the next event that
/// reports a kind that concerns it wakes the task that cleared it.
pub proof fn lemma_clear_rearms<W>(d: DirectionView<W>, handle: W, reported: usize)
    ensures
        !d.after_clear(handle).is_ready(),
        d.after_clear(handle).poll_result() == Step::<Ready>::Pending,
        reported & d.mask != 0 ==> d.after_clear(handle).woken(reported) == Some(handle),
        reported & d.mask != 0 ==> d.after_clear(handle).after_dispatch(reported).poll_result()
            == Step::Ready(Ready::of(reported & d.mask)),
        reported & d.mask == 0 ==> d.after_clear(handle).after_dispatch(reported)
            == d.after_clear(handle),
{
    lemma_union_grows(0, reported & d.mask);
}

} // verus!
