//! Readiness that is set by hand: a source of events that no descriptor
//! stands behind.
//!
//! A registration and its setters share one node. A setter adds readiness to
//! the node from any thread; the poll cycle visits the node and reports an
//! event for it, or not, by the options it is registered with. The node here
//! is the state that they share, with each of their steps as a function from
//! the state before to the state after. Sharing it, and carrying out what a
//! step asks for, is the part of its owner.

use vstd::prelude::*;
use crate::bits::lemma_set_within_interest;
use crate::bits::lemma_union_grows;
use crate::event::Event;
use crate::poll_opt::opt_from_usize;
use crate::poll_opt::PollOpt;
use crate::poll_opt::LEVEL;
use crate::poll_opt::ONESHOT;
use crate::ready::ready_from_usize;
use crate::ready::Ready;
use crate::token::Token;

verus! {

/// What the caller of a step on the node has to do afterwards.
#[derive(Copy, Clone, Debug, PartialEq, Eq, Structural)]
pub enum Notify {
    /// Nothing: the node is where it has to be.
    Nothing,
    /// Put the node on the queue of the poll that it is registered with.
    Enqueue,
    /// Put the node on the queue and trigger the awakener, since the poll is
    /// blocked in its wait.
    EnqueueAndWake,
}

/// The readiness kinds that a node can hold: the low seven bits of a mask.
pub const KINDS: usize = 0x7f;

/// The options that a node can hold: the low four bits of a mask.
pub const OPTIONS: usize = 0xf;

/// What a node holds, as plain values.
pub struct NodeView {
    /// The mask of the readiness that was set and not yet cleared.
    pub readiness: usize,
    /// The mask of the interest that the node is registered for: empty while
    /// it is not registered, and once a one-shot registration has reported.
    pub interest: usize,
    /// The mask of the options that the node is registered with.
    pub opts: usize,
    /// The number of the token that events for the node carry.
    pub token: usize,
    /// How often the registration was replaced, counted round the clock.
    pub generation: u32,
    /// Whether the node is on the queue of its poll.
    pub queued: bool,
}

impl NodeView {
    /// The readiness that counts: what was set of what the node is
    /// registered for.
    pub open spec fn effective(self) -> usize {
        self.readiness & self.interest
    }

    /// Whether events are reported level-triggered: on every poll cycle
    /// while readiness lasts.
    pub open spec fn level(self) -> bool {
        self.opts & LEVEL == LEVEL
    }

    /// Whether the registration is one-shot: spent by its first event.
    pub open spec fn oneshot(self) -> bool {
        self.opts & ONESHOT == ONESHOT
    }

    /// The masks hold only what a node can hold.
    pub open spec fn wf(self) -> bool {
        &&& self.readiness & !KINDS == 0
        &&& self.interest & !KINDS == 0
        &&& self.opts & !OPTIONS == 0
    }

    /// The node in one word, but for its token: the readiness in bits 0 to
    /// 6, the interest in bits 7 to 13, the options in bits 14 to 17,
    /// whether it is queued in bit 18, and the generation from bit 19 on.
    pub open spec fn word(self) -> u64 {
        (self.readiness as u64) | (self.interest as u64) << 7 | (self.opts as u64) << 14 | (
        if self.queued {
            1u64
        } else {
            0u64
        }) << 18 | (self.generation as u64) << 19
    }

    /// The node that a word stands for, with the given token.
    pub open spec fn of_word(word: u64, token: usize) -> Self {
        NodeView {
            readiness: (word & 0x7f) as usize,
            interest: ((word >> 7) & 0x7f) as usize,
            opts: ((word >> 14) & 0xf) as usize,
            token,
            generation: ((word >> 19) & 0xffff_ffff) as u32,
            queued: (word >> 18) & 1 == 1,
        }
    }

    /// Whether the node can report nothing as it stands: it has no interest
    /// and is not queued.
    pub open spec fn silent(self) -> bool {
        self.interest == 0 && !self.queued
    }

    /// Whether setting `ready` takes some kind that the node is registered
    /// for from not ready to ready.
    pub open spec fn rises_on(self, ready: usize) -> bool {
        (ready & self.interest) & !self.readiness != 0
    }

    /// The node after `ready` was set: the kinds that it is registered for
    /// are added to its readiness, and it is queued if one of them is new.
    pub open spec fn after_set(self, ready: usize) -> Self {
        NodeView {
            readiness: self.readiness | (ready & self.interest),
            queued: self.queued || self.rises_on(ready),
            ..self
        }
    }

    /// What the caller has to do after `ready` was set, given whether the
    /// poll is blocked in its wait.
    pub open spec fn notify_on_set(self, ready: usize, poll_blocked: bool) -> Notify {
        if self.queued || !self.rises_on(ready) {
            Notify::Nothing
        } else if poll_blocked {
            Notify::EnqueueAndWake
        } else {
            Notify::Enqueue
        }
    }

    /// The node after the kinds of `ready` were cleared by the consumer.
    pub open spec fn after_clear(self, ready: usize) -> Self {
        NodeView { readiness: self.readiness & !ready, ..self }
    }

    /// The node after it was registered anew: the token is replaced, and
    /// so are the interest and the options, as far as a node can hold them;
    /// the generation moves on, and the node is queued exactly if readiness
    /// that counts is there already.
    pub open spec fn after_update(self, token: usize, interest: usize, opts: usize) -> Self {
        NodeView {
            interest: interest & KINDS,
            opts: opts & OPTIONS,
            token,
            generation: if self.generation == u32::MAX {
                0
            } else {
                (self.generation + 1) as u32
            },
            queued: self.readiness & (interest & KINDS) != 0,
            ..self
        }
    }

    /// What the caller has to do after the node was registered anew.
    pub open spec fn notify_on_update(self, interest: usize, poll_blocked: bool) -> Notify {
        if self.queued || self.readiness & (interest & KINDS) == 0 {
            Notify::Nothing
        } else if poll_blocked {
            Notify::EnqueueAndWake
        } else {
            Notify::Enqueue
        }
    }

    /// The node after it was deregistered: it has no interest and is not
    /// queued.
    pub open spec fn after_deregister(self) -> Self {
        NodeView { interest: 0, opts: 0, queued: false, ..self }
    }

    /// The event that a poll cycle reports when it visits the node: the
    /// readiness that counts under the node's token, if the node is queued
    /// and there is such readiness.
    pub open spec fn reported(self) -> Option<Event> {
        if self.queued && self.effective() != 0 {
            Some(Event::of(Ready::of(self.effective()), Token(self.token)))
        } else {
            None
        }
    }

    /// The node after a poll cycle visited it. A one-shot registration that
    /// reported is spent: it loses its interest. The node stays queued only
    /// if it reported and is level-triggered and not spent.
    pub open spec fn after_poll(self) -> Self {
        if self.reported() is Some {
            if self.oneshot() {
                NodeView { interest: 0, queued: false, ..self }
            } else {
                NodeView { queued: self.level(), ..self }
            }
        } else {
            NodeView { queued: false, ..self }
        }
    }
}

/// Who holds a node: its registration, while that lives, and its setters.
pub struct OwnersView {
    /// Whether the registration still holds the node.
    pub registration: bool,
    /// How many setters hold the node.
    pub setters: usize,
}

impl OwnersView {
    /// Whether nothing holds the node any more, so that it can be destroyed.
    pub open spec fn released(self) -> bool {
        !self.registration && self.setters == 0
    }

    /// The owners after the registration let go.
    pub open spec fn after_drop_registration(self) -> Self {
        OwnersView { registration: false, setters: self.setters }
    }

    /// The owners after a setter was cloned, if there was one to clone and
    /// the count had room.
    pub open spec fn after_clone_setter(self) -> Self {
        if 0 < self.setters < usize::MAX {
            OwnersView { registration: self.registration, setters: (self.setters + 1) as usize }
        } else {
            self
        }
    }

    /// The owners after a setter let go.
    pub open spec fn after_drop_setter(self) -> Self {
        if self.setters > 0 {
            OwnersView { registration: self.registration, setters: (self.setters - 1) as usize }
        } else {
            self
        }
    }
}

/// The count of who holds a node.
pub struct Owners {
    registration: bool,
    setters: usize,
}

impl Owners {
    /// Who holds the node.
    pub closed spec fn view(&self) -> OwnersView {
        OwnersView { registration: self.registration, setters: self.setters }
    }

    /// The owners of the node of a new pair: the registration and one
    /// setter.
    pub fn new() -> (owners: Self)
        ensures
            owners@ == (OwnersView { registration: true, setters: 1 }),
    {
        Owners { registration: true, setters: 1 }
    }

    /// The registration lets go of the node, which is deregistered with
    /// that. Returns whether nothing holds the node any more.
    pub fn drop_registration(&mut self, node: &mut ReadinessNode) -> (released: bool)
        requires
            old(node).wf(),
        ensures
            final(node).wf(),
            final(node)@ == old(node)@.after_deregister(),
            final(self)@ == old(self)@.after_drop_registration(),
            released == final(self)@.released(),
    {
        node.deregister();
        self.registration = false;
        self.setters == 0
    }

    /// A setter is cloned. Returns whether that was done: it is not when no
    /// setter holds the node, or when the count of setters is full.
    pub fn clone_setter(&mut self) -> (done: bool)
        ensures
            final(self)@ == old(self)@.after_clone_setter(),
            done == (0 < old(self)@.setters < usize::MAX),
    {
        if 0 < self.setters && self.setters < usize::MAX {
            self.setters = self.setters + 1;
            true
        } else {
            false
        }
    }

    /// A setter lets go of the node. Returns whether nothing holds the node
    /// any more.
    pub fn drop_setter(&mut self) -> (released: bool)
        ensures
            final(self)@ == old(self)@.after_drop_setter(),
            released == final(self)@.released(),
    {
        if self.setters > 0 {
            self.setters = self.setters - 1;
        }
        !self.registration && self.setters == 0
    }

    /// Whether nothing holds the node any more.
    pub fn is_released(&self) -> (released: bool)
        ensures
            released == self@.released(),
    {
        !self.registration && self.setters == 0
    }
}

/// The state that a registration and its setters share.
#[derive(Copy, Clone, Debug, PartialEq, Eq, Structural)]
pub struct ReadinessNode {
    readiness: Ready,
    interest: Ready,
    opts: PollOpt,
    token: Token,
    generation: u32,
    queued: bool,
}

impl ReadinessNode {
    /// What the node holds.
    pub closed spec fn view(&self) -> NodeView {
        NodeView {
            readiness: self.readiness@,
            interest: self.interest@,
            opts: self.opts@,
            token: self.token@,
            generation: self.generation,
            queued: self.queued,
        }
    }

    /// The masks hold only what a node can hold.
    pub closed spec fn wf(&self) -> bool {
        self@.wf()
    }

    /// The node of a new pair of a registration and a setter: nothing is
    /// ready, and the node is not registered yet.
    pub fn new() -> (node: Self)
        ensures
            node.wf(),
            node@ == (NodeView {
                readiness: 0,
                interest: 0,
                opts: 0,
                token: 0,
                generation: 0,
                queued: false,
            }),
    {
        proof {
            lemma_within_after_steps(0, 0, 0, KINDS);
            lemma_within_after_steps(0, 0, 0, OPTIONS);
        }
        ReadinessNode {
            readiness: Ready::empty(),
            interest: Ready::empty(),
            opts: PollOpt::empty(),
            token: Token(0),
            generation: 0,
            queued: false,
        }
    }

    /// Sets readiness: adds to the node's readiness the kinds of `ready`
    /// that the node is registered for, and no others.
    ///
    /// If a kind among them was not ready before, the node belongs on the
    /// queue of its poll; the answer says whether the caller has to put it
    /// there, and whether it has to trigger the awakener as well because the
    /// poll is blocked in its wait.
    pub fn set_readiness(&mut self, ready: Ready, poll_blocked: bool) -> (notify: Notify)
        requires
            old(self).wf(),
        ensures
            final(self).wf(),
            final(self)@ == old(self)@.after_set(ready@),
            notify == old(self)@.notify_on_set(ready@, poll_blocked),
    {
        let added = ready & self.interest;
        let rises = !(added - self.readiness).is_empty();
        proof {
            lemma_within_after_steps(self.readiness@, self.interest@, ready@, KINDS);
        }
        self.readiness.insert(added);
        if self.queued || !rises {
            Notify::Nothing
        } else {
            self.queued = true;
            if poll_blocked {
                Notify::EnqueueAndWake
            } else {
                Notify::Enqueue
            }
        }
    }

    /// Clears the kinds of `ready` from the node's readiness, on behalf of
    /// the consumer. A kind that was cleared counts as new when it is set
    /// again.
    pub fn clear_readiness(&mut self, ready: Ready)
        requires
            old(self).wf(),
        ensures
            final(self).wf(),
            final(self)@ == old(self)@.after_clear(ready@),
    {
        proof {
            lemma_within_after_steps(self.readiness@, self.interest@, ready@, KINDS);
        }
        self.readiness.remove(ready);
    }

    /// Registers the node, for the first time or anew, under `token` for
    /// `interest` with `opts`, as far as a node can hold them.
    ///
    /// The generation moves on, so that a step computed from the state
    /// before no longer fits the state. If readiness that counts is there
    /// already the node belongs on the queue, and the answer says what the
    /// caller has to do for that.
    pub fn update(&mut self, token: Token, interest: Ready, opts: PollOpt, poll_blocked: bool) -> (notify:
        Notify)
        requires
            old(self).wf(),
        ensures
            final(self).wf(),
            final(self)@ == old(self)@.after_update(token@, interest@, opts@),
            notify == old(self)@.notify_on_update(interest@, poll_blocked),
    {
        proof {
            lemma_within_after_steps(self.readiness@, self.interest@, interest@, KINDS);
            lemma_within_after_steps(self.readiness@, self.interest@, opts@, OPTIONS);
        }
        let interest = interest & ready_from_usize(KINDS);
        let opts = opts & opt_from_usize(OPTIONS);
        let was_queued = self.queued;
        let ready_now = !(self.readiness & interest).is_empty();
        self.token = token;
        self.interest = interest;
        self.opts = opts;
        self.generation = if self.generation == u32::MAX {
            0
        } else {
            self.generation + 1
        };
        self.queued = ready_now;
        if was_queued || !ready_now {
            Notify::Nothing
        } else if poll_blocked {
            Notify::EnqueueAndWake
        } else {
            Notify::Enqueue
        }
    }

    /// Deregisters the node: it keeps its readiness, but has no interest
    /// and reports nothing until it is registered again.
    pub fn deregister(&mut self)
        requires
            old(self).wf(),
        ensures
            final(self).wf(),
            final(self)@ == old(self)@.after_deregister(),
    {
        proof {
            lemma_within_after_steps(0, 0, 0, KINDS);
            lemma_within_after_steps(0, 0, 0, OPTIONS);
        }
        self.interest = Ready::empty();
        self.opts = PollOpt::empty();
        self.queued = false;
    }

    /// The visit of a poll cycle: returns the event to report for the node,
    /// if any, and leaves the node as its options ask.
    ///
    /// A queued node with readiness that counts reports it under its token.
    /// After that a one-shot registration is spent, a level-triggered one
    /// stays queued and reports again on the next cycle, and any other is
    /// taken off the queue until new readiness is set.
    pub fn poll(&mut self) -> (event: Option<Event>)
        requires
            old(self).wf(),
        ensures
            final(self).wf(),
            event == old(self)@.reported(),
            final(self)@ == old(self)@.after_poll(),
    {
        let effective = self.readiness & self.interest;
        if self.queued && !effective.is_empty() {
            proof {
                lemma_within_after_steps(0, 0, 0, KINDS);
            }
            if self.opts.is_oneshot() {
                self.interest = Ready::empty();
                self.queued = false;
            } else {
                self.queued = self.opts.is_level();
            }
            Some(Event::new(effective, self.token))
        } else {
            self.queued = false;
            None
        }
    }

    /// The node in one word, but for its token, for a compare and swap.
    pub fn word(&self) -> (word: u64)
        requires
            self.wf(),
        ensures
            word == self@.word(),
    {
        let readiness = self.readiness.as_usize() as u64;
        let interest = self.interest.as_usize() as u64;
        let opts = self.opts.bits() as u64;
        let queued: u64 = if self.queued {
            1
        } else {
            0
        };
        let generation = self.generation as u64;
        proof {
            lemma_small_masks(self.readiness@, self.interest@, self.opts@);
        }
        readiness | interest << 7 | opts << 14 | queued << 18 | generation << 19
    }

    /// The node that a word stands for, with the given token.
    pub fn from_word(word: u64, token: Token) -> (node: Self)
        ensures
            node.wf(),
            node@ == NodeView::of_word(word, token@),
    {
        proof {
            lemma_word_fields_are_small(word);
            lemma_small_numbers_are_masks(
                (word & 0x7f) as usize,
                ((word >> 7) & 0x7f) as usize,
                ((word >> 14) & 0xf) as usize,
            );
        }
        ReadinessNode {
            readiness: Ready::from_usize((word & 0x7f) as usize),
            interest: Ready::from_usize(((word >> 7) & 0x7f) as usize),
            opts: opt_from_usize(((word >> 14) & 0xf) as usize),
            token,
            generation: ((word >> 19) & 0xffff_ffff) as u32,
            queued: (word >> 18) & 1 == 1,
        }
    }

    /// The readiness that was set and not yet cleared.
    pub fn readiness(&self) -> (ready: Ready)
        ensures
            ready@ == self@.readiness,
    {
        self.readiness
    }

    /// The interest that the node is registered for.
    pub fn interest(&self) -> (interest: Ready)
        ensures
            interest@ == self@.interest,
    {
        self.interest
    }

    /// The options that the node is registered with.
    pub fn opts(&self) -> (opts: PollOpt)
        ensures
            opts@ == self@.opts,
    {
        self.opts
    }

    /// The token that events for the node carry.
    pub fn token(&self) -> (token: Token)
        ensures
            token@ == self@.token,
    {
        self.token
    }

    /// How often the registration was replaced, counted round the clock.
    pub fn generation(&self) -> (generation: u32)
        ensures
            generation == self@.generation,
    {
        self.generation
    }

    /// Whether the node is on the queue of its poll.
    pub fn is_queued(&self) -> (queued: bool)
        ensures
            queued == self@.queued,
    {
        self.queued
    }
}

/// Masks within bounds stay within them under the steps of a node.
proof fn lemma_within_after_steps(held: usize, interest: usize, other: usize, bound: usize)
    by (bit_vector)
    ensures
        0usize & !bound == 0,
        (other & bound) & !bound == 0,
        held & !bound == 0 ==> (held & !other) & !bound == 0,
        held & !bound == 0 && interest & !bound == 0 ==> (held | (other & interest)) & !bound == 0,
{
}

/// The fields of a node do not run into one another in its word.
proof fn lemma_fields_fit(readiness: u64, interest: u64, opts: u64, queued: u64, generation: u64)
    by (bit_vector)
    requires
        readiness & !0x7fu64 == 0,
        interest & !0x7fu64 == 0,
        opts & !0xfu64 == 0,
        queued == 0 || queued == 1,
        generation <= 0xffff_ffff,
    ensures
        ({
            let word = readiness | interest << 7 | opts << 14 | queued << 18 | generation << 19;
            &&& word & 0x7f == readiness
            &&& (word >> 7) & 0x7f == interest
            &&& (word >> 14) & 0xf == opts
            &&& (word >> 18) & 1 == queued
            &&& (word >> 19) & 0xffff_ffff == generation
        }),
{
}

/// The fields read from a word are within their bounds.
proof fn lemma_word_fields_are_small(word: u64)
    by (bit_vector)
    ensures
        word & 0x7f <= 0x7f,
        (word >> 7) & 0x7f <= 0x7f,
        (word >> 14) & 0xf <= 0xf,
        (word >> 19) & 0xffff_ffff <= 0xffff_ffff,
        (word & 0x7f) & !0x7fu64 == 0,
        ((word >> 7) & 0x7f) & !0x7fu64 == 0,
        ((word >> 14) & 0xf) & !0xfu64 == 0,
{
}

/// A well-formed node is read back from its word as it was, so that two
/// nodes with one word and one token are one node: a compare and swap that
/// finds the word it expects finds the node it computed from.
pub proof fn lemma_word_holds_the_node(n: NodeView)
    requires
        n.wf(),
    ensures
        NodeView::of_word(n.word(), n.token) == n,
{
    let readiness = n.readiness as u64;
    let interest = n.interest as u64;
    let opts = n.opts as u64;
    let queued = if n.queued {
        1u64
    } else {
        0u64
    };
    let generation = n.generation as u64;
    assert(readiness & !0x7fu64 == 0 && interest & !0x7fu64 == 0 && opts & !0xfu64 == 0) by {
        lemma_small_masks(n.readiness, n.interest, n.opts);
    }
    lemma_fields_fit(readiness, interest, opts, queued, generation);
}

/// Masks within the bounds of a node are small numbers, as wide words too.
proof fn lemma_small_masks(readiness: usize, interest: usize, opts: usize)
    by (bit_vector)
    requires
        readiness & !0x7fusize == 0,
        interest & !0x7fusize == 0,
        opts & !0xfusize == 0,
    ensures
        (readiness as u64) & !0x7fu64 == 0,
        (interest as u64) & !0x7fu64 == 0,
        (opts as u64) & !0xfu64 == 0,
{
}

/// Every step of a node leaves its masks within what a node can hold.
pub proof fn lemma_steps_keep_node_well_formed(
    n: NodeView,
    ready: usize,
    token: usize,
    interest: usize,
    opts: usize,
    word: u64,
)
    requires
        n.wf(),
    ensures
        n.after_set(ready).wf(),
        n.after_clear(ready).wf(),
        n.after_update(token, interest, opts).wf(),
        n.after_deregister().wf(),
        n.after_poll().wf(),
        NodeView::of_word(word, token).wf(),
{
    lemma_within_after_steps(n.readiness, n.interest, ready, KINDS);
    lemma_within_after_steps(n.readiness, n.interest, interest, KINDS);
    lemma_within_after_steps(n.readiness, n.interest, opts, OPTIONS);
    lemma_word_fields_are_small(word);
    let r = (word & 0x7f) as usize;
    let i = ((word >> 7) & 0x7f) as usize;
    let o = ((word >> 14) & 0xf) as usize;
    assert(r & !0x7fusize == 0 && i & !0x7fusize == 0 && o & !0xfusize == 0) by {
        lemma_small_numbers_are_masks(r, i, o);
    }
}

/// Small numbers are masks within the bounds of a node.
proof fn lemma_small_numbers_are_masks(readiness: usize, interest: usize, opts: usize)
    by (bit_vector)
    requires
        readiness <= 0x7f,
        interest <= 0x7f,
        opts <= 0xf,
    ensures
        readiness & !0x7fusize == 0,
        interest & !0x7fusize == 0,
        opts & !0xfusize == 0,
{
}

/// Setting readiness adds only kinds that it was told to set and that the
/// node is registered for: every other bit of the readiness stays as it was,
/// none is taken away, and the token, the interest and the options stay.
pub proof fn lemma_set_touches_only_what_it_is_told(n: NodeView, ready: usize)
    ensures
        n.after_set(ready).readiness & !ready == n.readiness & !ready,
        n.after_set(ready).readiness & n.readiness == n.readiness,
        n.after_set(ready).token == n.token,
        n.after_set(ready).interest == n.interest,
        n.after_set(ready).opts == n.opts,
        n.after_set(ready).generation == n.generation,
{
    lemma_set_within_interest(n.readiness, ready, n.interest);
    lemma_union_grows(n.readiness, ready & n.interest);
}

/// Readiness that is set reaches the poll: when a kind that the node is
/// registered for rises, the node is queued, the next visit of the poll
/// cycle reports an event under the node's token that holds a kind that was
/// set, and the caller is told to enqueue the node unless it was queued
/// already, and to trigger the awakener too if the poll is blocked.
pub proof fn lemma_set_readiness_reaches_poll(n: NodeView, ready: usize, poll_blocked: bool)
    requires
        n.rises_on(ready),
    ensures
        n.after_set(ready).queued,
        n.after_set(ready).reported() == Some(
            Event::of(Ready::of((n.readiness | ready) & n.interest), Token(n.token)),
        ),
        ((n.readiness | ready) & n.interest) & ready != 0,
        !n.queued ==> n.notify_on_set(ready, poll_blocked) == if poll_blocked {
            Notify::EnqueueAndWake
        } else {
            Notify::Enqueue
        },
        n.queued ==> n.notify_on_set(ready, poll_blocked) == Notify::Nothing,
{
    lemma_set_within_interest(n.readiness, ready, n.interest);
    let held = n.readiness;
    let interest = n.interest;
    assert((held | (ready & interest)) & interest == (held | ready) & interest) by (bit_vector);
}

/// A one-shot registration reports once. Registered while readiness that
/// counts is there, the node reports it on the next visit of the poll cycle
/// and is silent afterwards.
pub proof fn lemma_oneshot_reports_once(n: NodeView, token: usize, interest: usize, opts: usize)
    requires
        (opts & OPTIONS) & ONESHOT == ONESHOT,
        n.readiness & (interest & KINDS) != 0,
    ensures
        n.after_update(token, interest, opts).reported() == Some(
            Event::of(Ready::of(n.readiness & (interest & KINDS)), Token(token)),
        ),
        n.after_update(token, interest, opts).after_poll().silent(),
{
}

/// A silent node stays silent whatever readiness is set or cleared and
/// however often the poll cycle visits it: it reports nothing, and setting
/// readiness does not even change it. Only a new registration ends that.
pub proof fn lemma_silent_until_registered_anew(n: NodeView, ready: usize, poll_blocked: bool)
    requires
        n.silent(),
    ensures
        n.reported() is None,
        n.after_set(ready) == n,
        n.notify_on_set(ready, poll_blocked) == Notify::Nothing,
        n.after_poll() == n,
        n.after_clear(ready).silent(),
{
    lemma_nothing_of_interest(n.readiness, ready);
}

/// With no interest nothing that is set counts, and nothing changes.
proof fn lemma_nothing_of_interest(held: usize, ready: usize)
    by (bit_vector)
    ensures
        ready & 0usize == 0,
        0usize & !held == 0,
        held | 0usize == held,
        held & 0usize == 0,
{
}

/// A new registration arms the node again: if readiness that counts is
/// there, the next visit of the poll cycle reports it under the new token,
/// whatever the node went through before.
pub proof fn lemma_registering_anew_arms(n: NodeView, token: usize, interest: usize, opts: usize)
    ensures
        n.readiness & (interest & KINDS) != 0 ==> n.after_update(token, interest, opts).reported()
            == Some(Event::of(Ready::of(n.readiness & (interest & KINDS)), Token(token))),
        n.readiness & (interest & KINDS) == 0 ==> n.after_update(token, interest, opts).reported()
            is None,
        n.after_update(token, interest, opts).generation != n.generation,
        n.after_update(token, interest, opts).readiness == n.readiness,
{
}

/// An edge-triggered registration reports a rise once. After the poll cycle
/// reported for the node, later visits report nothing, also when kinds that
/// are ready already are set again; a kind has to rise anew first.
pub proof fn lemma_edge_reports_each_rise_once(n: NodeView, again: usize)
    requires
        !n.level(),
        n.reported() is Some,
    ensures
        n.after_poll().reported() is None,
        !n.after_poll().rises_on(again) ==> n.after_poll().after_set(again).reported() is None,
        n.after_poll().rises_on(again) ==> n.after_poll().after_set(again).reported() is Some,
{
    let m = n.after_poll();
    lemma_set_within_interest(m.readiness, again, m.interest);
}

/// A kind that the consumer cleared counts as new when it is set again: the
/// node reports it once more.
pub proof fn lemma_cleared_kind_rises_again(n: NodeView, kind: usize)
    requires
        kind & n.interest != 0,
    ensures
        n.after_clear(kind).rises_on(kind),
        n.after_clear(kind).after_set(kind).reported() is Some,
{
    let held = n.readiness;
    let interest = n.interest;
    assert(kind & interest != 0 ==> (kind & interest) & !(held & !kind) != 0) by (bit_vector);
    lemma_set_within_interest(held & !kind, kind, interest);
}

/// A level-triggered registration reports on every poll cycle while
/// readiness lasts: a visit that reports leaves the node as it was, so the
/// next visit reports the same.
pub proof fn lemma_level_reports_every_cycle(n: NodeView)
    requires
        n.level(),
        !n.oneshot(),
        n.reported() is Some,
    ensures
        n.after_poll() == n,
        n.after_poll().reported() == n.reported(),
{
}

/// Reporting ends when the readiness that counts was cleared, and when the
/// node was deregistered.
pub proof fn lemma_reporting_ends_when_cleared_or_deregistered(n: NodeView)
    ensures
        n.after_clear(n.effective()).reported() is None,
        n.after_clear(n.readiness).reported() is None,
        n.after_deregister().reported() is None,
        n.after_deregister().silent(),
{
    crate::bits::lemma_nothing_left(n.readiness, n.interest);
}

/// The node outlives the registration while a setter holds it, and the
/// last setter while the registration holds it: nothing holds it only once
/// the registration and every setter have let go, in whatever order.
pub proof fn lemma_node_lives_until_all_let_go(o: OwnersView)
    ensures
        o.setters > 0 ==> !o.after_drop_registration().released(),
        o.registration ==> !o.after_drop_setter().released(),
        o.after_drop_registration().released() <==> o.setters == 0,
        o.after_drop_setter().released() <==> !o.registration && o.setters <= 1,
        o.setters == 1 ==> o.after_drop_registration().after_drop_setter().released(),
        o.setters == 1 ==> o.after_drop_setter().after_drop_registration().released(),
        o.setters == 1 ==> !o.after_clone_setter().after_drop_registration().after_drop_setter().released(),
{
}

} // verus!
