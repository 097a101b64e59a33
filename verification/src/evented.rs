//! The capability of being registered: what a resource that a descriptor
//! stands behind asks of the multiplexer.

use std::sync::Arc;
use vstd::prelude::*;
use crate::awakener::Awakener;
use crate::poll_opt::PollOpt;
use crate::poll_opt::EDGE;
use crate::ready::Ready;
use crate::ready::READABLE;
use crate::selector::epoll_flags;
use crate::selector::Ctl;
use crate::selector::CtlOp;
use crate::selector::Selector;
use crate::token::Token;
use crate::token::AWAKEN;

verus! {

/// A resource that can be registered with a multiplexer.
///
/// Each operation builds the change to ask the multiplexer for; making the
/// change is the part of the poll. Whatever the resource, the change is for
/// the given multiplexer, of the kind that the operation names, with the
/// flags that the interest and options translate to, and with the number of
/// the given token. Which descriptor it is about is for the resource to say.
pub trait Evented {
    /// The change that registers the resource under `token` for `interest`
    /// with `opts`.
    fn register(&self, selector: &Selector, token: Token, interest: Ready, opts: PollOpt) -> (ctl:
        Ctl)
        ensures
            ctl.epfd == selector.fd(),
            ctl.op == CtlOp::Add,
            ctl.events == epoll_flags(interest@, opts@),
            ctl.data == token@ as u64,
    ;

    /// The change that replaces what the resource is registered for by
    /// `interest` with `opts` under `token`.
    fn reregister(&self, selector: &Selector, token: Token, interest: Ready, opts: PollOpt) -> (ctl:
        Ctl)
        ensures
            ctl.epfd == selector.fd(),
            ctl.op == CtlOp::Modify,
            ctl.events == epoll_flags(interest@, opts@),
            ctl.data == token@ as u64,
    ;

    /// The change that takes the resource out of the interest set.
    fn deregister(&self, selector: &Selector) -> (ctl: Ctl)
        ensures
            ctl.epfd == selector.fd(),
            ctl.op == CtlOp::Delete,
    ;
}

impl Evented for Box<dyn Evented> {
    fn register(&self, selector: &Selector, token: Token, interest: Ready, opts: PollOpt) -> (ctl:
        Ctl)
        ensures
            ctl.epfd == selector.fd(),
            ctl.op == CtlOp::Add,
            ctl.events == epoll_flags(interest@, opts@),
            ctl.data == token@ as u64,
    {
        (**self).register(selector, token, interest, opts)
    }

    fn reregister(&self, selector: &Selector, token: Token, interest: Ready, opts: PollOpt) -> (ctl:
        Ctl)
        ensures
            ctl.epfd == selector.fd(),
            ctl.op == CtlOp::Modify,
            ctl.events == epoll_flags(interest@, opts@),
            ctl.data == token@ as u64,
    {
        (**self).reregister(selector, token, interest, opts)
    }

    fn deregister(&self, selector: &Selector) -> (ctl: Ctl)
        ensures
            ctl.epfd == selector.fd(),
            ctl.op == CtlOp::Delete,
    {
        (**self).deregister(selector)
    }
}

impl<T: Evented> Evented for Box<T> {
    fn register(&self, selector: &Selector, token: Token, interest: Ready, opts: PollOpt) -> (ctl:
        Ctl)
        ensures
            call_ensures(T::register, (&**self, selector, token, interest, opts), ctl),
    {
        (**self).register(selector, token, interest, opts)
    }

    fn reregister(&self, selector: &Selector, token: Token, interest: Ready, opts: PollOpt) -> (ctl:
        Ctl)
        ensures
            call_ensures(T::reregister, (&**self, selector, token, interest, opts), ctl),
    {
        (**self).reregister(selector, token, interest, opts)
    }

    fn deregister(&self, selector: &Selector) -> (ctl: Ctl)
        ensures
            call_ensures(T::deregister, (&**self, selector), ctl),
    {
        (**self).deregister(selector)
    }
}

impl<T: Evented> Evented for Arc<T> {
    fn register(&self, selector: &Selector, token: Token, interest: Ready, opts: PollOpt) -> (ctl:
        Ctl)
        ensures
            call_ensures(T::register, (&**self, selector, token, interest, opts), ctl),
    {
        (**self).register(selector, token, interest, opts)
    }

    fn reregister(&self, selector: &Selector, token: Token, interest: Ready, opts: PollOpt) -> (ctl:
        Ctl)
        ensures
            call_ensures(T::reregister, (&**self, selector, token, interest, opts), ctl),
    {
        (**self).reregister(selector, token, interest, opts)
    }

    fn deregister(&self, selector: &Selector) -> (ctl: Ctl)
        ensures
            call_ensures(T::deregister, (&**self, selector), ctl),
    {
        (**self).deregister(selector)
    }
}

/// A borrowed descriptor as a resource: it is registered as it is and never
/// closed here, which stays the part of whoever owns it.
#[derive(Debug)]
pub struct EventedFd<'a>(pub &'a i32);

impl<'a> Evented for EventedFd<'a> {
    fn register(&self, selector: &Selector, token: Token, interest: Ready, opts: PollOpt) -> (ctl:
        Ctl)
        ensures
            ctl.fd == *self.0,
    {
        selector.register(*self.0, token, interest, opts)
    }

    fn reregister(&self, selector: &Selector, token: Token, interest: Ready, opts: PollOpt) -> (ctl:
        Ctl)
        ensures
            ctl.fd == *self.0,
    {
        selector.reregister(*self.0, token, interest, opts)
    }

    fn deregister(&self, selector: &Selector) -> (ctl: Ctl)
        ensures
            ctl == selector.spec_deregister(*self.0),
    {
        selector.deregister(*self.0)
    }
}

impl<P: Evented> Evented for Awakener<P> {
    fn register(&self, selector: &Selector, token: Token, interest: Ready, opts: PollOpt) -> (ctl:
        Ctl)
        ensures
            call_ensures(P::register, (&self.spec_reader(), selector, token, interest, opts), ctl),
    {
        self.reader().register(selector, token, interest, opts)
    }

    fn reregister(&self, selector: &Selector, token: Token, interest: Ready, opts: PollOpt) -> (ctl:
        Ctl)
        ensures
            call_ensures(P::reregister, (&self.spec_reader(), selector, token, interest, opts), ctl),
    {
        self.reader().reregister(selector, token, interest, opts)
    }

    fn deregister(&self, selector: &Selector) -> (ctl: Ctl)
        ensures
            call_ensures(P::deregister, (&self.spec_reader(), selector), ctl),
    {
        self.reader().deregister(selector)
    }
}

impl<P: Evented> Awakener<P> {
    /// The change that registers the awakener with a multiplexer: its read
    /// end, for readable readiness, edge-triggered, under the token that is
    /// kept for the awakener.
    pub fn arm(&self, selector: &Selector) -> (ctl: Ctl)
        ensures
            ctl.epfd == selector.fd(),
            ctl.op == CtlOp::Add,
            ctl.events == epoll_flags(READABLE, EDGE),
            ctl.data == AWAKEN as u64,
            call_ensures(
                P::register,
                (&self.spec_reader(), selector, Token(AWAKEN), Ready::of(READABLE), PollOpt::of(EDGE)),
                ctl,
            ),
    {
        let interest = Ready::readable();
        let opts = PollOpt::edge();
        proof {
            crate::ready::lemma_ready_is_its_mask(interest, READABLE);
            crate::poll_opt::lemma_poll_opt_is_its_mask(opts, EDGE);
        }
        self.reader().register(selector, Token(AWAKEN), interest, opts)
    }
}

} // verus!
