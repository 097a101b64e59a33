//! The bridge from a registered resource to the tasks that use it.

use vstd::prelude::*;
use crate::evented::Evented;
use crate::poll_opt::PollOpt;
use crate::poll_opt::EDGE;
use crate::reactor::ChannelsView;
use crate::reactor::Reactor;
use crate::reactor::Side;
use crate::ready::Ready;
use crate::ready::READABLE;
use crate::ready::WRITABLE;
use crate::selector::epoll_flags;
use crate::selector::Ctl;
use crate::selector::CtlOp;
use crate::selector::Selector;
use crate::sys::Failure;
use crate::sys::FailureKind;
use crate::sys::Step;
use crate::token::Token;
use crate::token::AWAKEN;

verus! {

/// A resource together with the token under which a reactor knows it.
///
/// The resource is registered with the multiplexer under that token for
/// [`PollEvented::interest`] with [`PollEvented::opts`]; the reactor caches
/// the readiness reported for each direction, and tasks suspend on a
/// direction until it is ready.
pub struct PollEvented<E> {
    io: E,
    token: Token,
}

impl<E> PollEvented<E> {
    /// The resource.
    pub closed spec fn io(&self) -> E {
        self.io
    }

    /// The token under which the reactor knows the resource.
    pub closed spec fn spec_token(&self) -> Token {
        self.token
    }

    /// Enters the resource in the reactor under a token that no registered
    /// resource has. Neither direction is ready at first.
    pub fn new<W>(io: E, reactor: &mut Reactor<W>) -> (evented: Self)
        requires
            old(reactor).wf(),
        ensures
            final(reactor).wf(),
            evented.io() == io,
            evented.spec_token()@ == old(reactor).upcoming(),
            evented.spec_token()@ != AWAKEN,
            !old(reactor)@.contains_key(evented.spec_token()@),
            final(reactor)@ == old(reactor)@.insert(
                evented.spec_token()@,
                ChannelsView::fresh(),
            ),
    {
        let token = reactor.add();
        PollEvented { io, token }
    }

    /// The interest to register the resource with: both directions.
    pub fn interest() -> (interest: Ready)
        ensures
            interest@ == READABLE | WRITABLE,
    {
        Ready::readable() | Ready::writable()
    }

    /// The options to register the resource with: edge-triggered.
    pub fn opts() -> (opts: PollOpt)
        ensures
            opts@ == EDGE,
    {
        PollOpt::edge()
    }

    /// The token under which the reactor knows the resource.
    #[verifier::when_used_as_spec(spec_token)]
    pub fn token(&self) -> (token: Token)
        ensures
            token == self.spec_token(),
    {
        self.token
    }

    /// The resource.
    pub fn get_ref(&self) -> (io: &E)
        ensures
            *io == self.io(),
    {
        &self.io
    }

    /// The resource, for changing in place; the token stays.
    pub fn get_mut(&mut self) -> (io: &mut E)
        ensures
            *io == old(self).io(),
            final(self).io() == *final(io),
            final(self).spec_token() == old(self).spec_token(),
    {
        &mut self.io
    }

    /// Takes the resource out of the reactor, which frees its token for the
    /// next registration, and hands the resource back.
    pub fn into_inner<W>(self, reactor: &mut Reactor<W>) -> (io: E)
        requires
            old(reactor).wf(),
        ensures
            final(reactor).wf(),
            io == self.io(),
            final(reactor)@ == old(reactor)@.remove(self.spec_token()@),
            old(reactor)@.contains_key(self.spec_token()@) ==> final(reactor).upcoming()
                == self.spec_token()@,
    {
        reactor.remove(self.token);
        self.io
    }

    /// Asks whether the resource is ready for reading, on behalf of the task
    /// with the given handle: see [`Reactor::poll_ready`].
    pub fn poll_read_ready<W>(&self, reactor: &mut Reactor<W>, handle: W) -> (step: Option<
        Step<Ready>,
    >)
        requires
            old(reactor).wf(),
        ensures
            final(reactor).wf(),
            final(reactor).upcoming() == old(reactor).upcoming(),
            old(reactor)@.contains_key(self.spec_token()@) ==> {
                &&& step == Some(old(reactor)@[self.spec_token()@].read.poll_result())
                &&& final(reactor)@ == old(reactor)@.insert(
                    self.spec_token()@,
                    old(reactor)@[self.spec_token()@].with_side(
                        Side::Read,
                        old(reactor)@[self.spec_token()@].read.after_poll(handle),
                    ),
                )
            },
            !old(reactor)@.contains_key(self.spec_token()@) ==> step is None && final(reactor)@
                == old(reactor)@,
    {
        reactor.poll_ready(self.token, Side::Read, handle)
    }

    /// Asks whether the resource is ready for writing, on behalf of the task
    /// with the given handle: see [`Reactor::poll_ready`].
    pub fn poll_write_ready<W>(&self, reactor: &mut Reactor<W>, handle: W) -> (step: Option<
        Step<Ready>,
    >)
        requires
            old(reactor).wf(),
        ensures
            final(reactor).wf(),
            final(reactor).upcoming() == old(reactor).upcoming(),
            old(reactor)@.contains_key(self.spec_token()@) ==> {
                &&& step == Some(old(reactor)@[self.spec_token()@].write.poll_result())
                &&& final(reactor)@ == old(reactor)@.insert(
                    self.spec_token()@,
                    old(reactor)@[self.spec_token()@].with_side(
                        Side::Write,
                        old(reactor)@[self.spec_token()@].write.after_poll(handle),
                    ),
                )
            },
            !old(reactor)@.contains_key(self.spec_token()@) ==> step is None && final(reactor)@
                == old(reactor)@,
    {
        reactor.poll_ready(self.token, Side::Write, handle)
    }

    /// Makes the read direction not ready after a read would have blocked,
    /// and keeps the handle of the task: see [`Reactor::clear_ready`].
    pub fn clear_read_ready<W>(&self, reactor: &mut Reactor<W>, handle: W) -> (found: bool)
        requires
            old(reactor).wf(),
        ensures
            final(reactor).wf(),
            final(reactor).upcoming() == old(reactor).upcoming(),
            found == old(reactor)@.contains_key(self.spec_token()@),
            found ==> final(reactor)@ == old(reactor)@.insert(
                self.spec_token()@,
                old(reactor)@[self.spec_token()@].with_side(
                    Side::Read,
                    old(reactor)@[self.spec_token()@].read.after_clear(handle),
                ),
            ),
            !found ==> final(reactor)@ == old(reactor)@,
    {
        reactor.clear_ready(self.token, Side::Read, handle)
    }

    /// Makes the write direction not ready after a write would have blocked,
    /// and keeps the handle of the task: see [`Reactor::clear_ready`].
    pub fn clear_write_ready<W>(&self, reactor: &mut Reactor<W>, handle: W) -> (found: bool)
        requires
            old(reactor).wf(),
        ensures
            final(reactor).wf(),
            final(reactor).upcoming() == old(reactor).upcoming(),
            found == old(reactor)@.contains_key(self.spec_token()@),
            found ==> final(reactor)@ == old(reactor)@.insert(
                self.spec_token()@,
                old(reactor)@[self.spec_token()@].with_side(
                    Side::Write,
                    old(reactor)@[self.spec_token()@].write.after_clear(handle),
                ),
            ),
            !found ==> final(reactor)@ == old(reactor)@,
    {
        reactor.clear_ready(self.token, Side::Write, handle)
    }

    /// Says what a task does next after it tried an operation on the given
    /// direction, given the outcome of the attempt.
    ///
    /// An outcome with a value is handed to the task, and so is a failure
    /// other than one that would block. An attempt that would have blocked,
    /// or that brought nothing, makes the direction not ready and keeps the
    /// handle of the task, which has to suspend until a later event. `None`
    /// is returned where the direction was to be cleared and nothing is
    /// registered under the token.
    pub fn settle<T, C, W>(
        &self,
        reactor: &mut Reactor<W>,
        side: Side,
        outcome: Result<Option<T>, Failure<C>>,
        handle: W,
    ) -> (step: Option<Step<Result<T, C>>>)
        requires
            old(reactor).wf(),
        ensures
            final(reactor).wf(),
            final(reactor).upcoming() == old(reactor).upcoming(),
            Self::blocked(outcome) ==> {
                &&& step == if old(reactor)@.contains_key(self.spec_token()@) {
                    Some(Step::<Result<T, C>>::Pending)
                } else {
                    None
                }
                &&& old(reactor)@.contains_key(self.spec_token()@) ==> final(reactor)@ == old(
                    reactor,
                )@.insert(
                    self.spec_token()@,
                    old(reactor)@[self.spec_token()@].with_side(
                        side,
                        old(reactor)@[self.spec_token()@].side(side).after_clear(handle),
                    ),
                )
                &&& !old(reactor)@.contains_key(self.spec_token()@) ==> final(reactor)@ == old(
                    reactor,
                )@
            },
            !Self::blocked(outcome) ==> final(reactor)@ == old(reactor)@,
            outcome matches Ok(Some(value)) ==> step == Some(Step::Ready(Ok::<T, C>(value))),
            outcome matches Err(failure) ==> failure.kind != FailureKind::WouldBlock ==> step
                == Some(Step::Ready(Err::<T, C>(failure.cause))),
    {
        match outcome {
            Ok(Some(value)) => Some(Step::Ready(Ok(value))),
            Ok(None) => {
                if reactor.clear_ready(self.token, side, handle) {
                    Some(Step::Pending)
                } else {
                    None
                }
            },
            Err(failure) => {
                match failure.kind {
                    FailureKind::WouldBlock => {
                        if reactor.clear_ready(self.token, side, handle) {
                            Some(Step::Pending)
                        } else {
                            None
                        }
                    },
                    _ => Some(Step::Ready(Err(failure.cause))),
                }
            },
        }
    }

    /// Whether the outcome of an attempt says that the operation could not
    /// be done now: it brought nothing, or it would have blocked.
    pub open spec fn blocked<T, C>(outcome: Result<Option<T>, Failure<C>>) -> bool {
        match outcome {
            Ok(Some(_)) => false,
            Ok(None) => true,
            Err(failure) => failure.kind == FailureKind::WouldBlock,
        }
    }
}

impl<E: Evented> PollEvented<E> {
    /// The change that registers the resource with the multiplexer: under
    /// its token, for both directions, edge-triggered.
    pub fn register(&self, selector: &Selector) -> (ctl: Ctl)
        ensures
            ctl.epfd == selector.fd(),
            ctl.op == CtlOp::Add,
            ctl.events == epoll_flags(READABLE | WRITABLE, EDGE),
            ctl.data == self.spec_token()@ as u64,
    {
        self.io.register(selector, self.token, Self::interest(), Self::opts())
    }

    /// The change that takes the resource out of the multiplexer's interest
    /// set, for when the resource is let go of.
    pub fn deregister(&self, selector: &Selector) -> (ctl: Ctl)
        ensures
            ctl.epfd == selector.fd(),
            ctl.op == CtlOp::Delete,
            call_ensures(E::deregister, (&self.io(), selector), ctl),
    {
        self.io.deregister(selector)
    }
}

} // verus!
