//! Events: one reported occurrence of readiness.

use vstd::prelude::*;
use crate::ready::Ready;
use crate::token::Token;

verus! {

/// A readiness set together with the token of the registration it was
/// reported for.
///
/// The view of an event is that pair.
#[derive(Copy, Clone, Debug, PartialEq, Eq, Structural)]
pub struct Event {
    kind: Ready,
    token: Token,
}

impl Event {
    /// The readiness and the token of this event.
    pub closed spec fn view(self) -> (Ready, Token) {
        (self.kind, self.token)
    }

    /// The event with the given readiness and token.
    pub closed spec fn of(readiness: Ready, token: Token) -> Event {
        Event { kind: readiness, token }
    }

    /// The event that reports `readiness` for `token`.
    pub fn new(readiness: Ready, token: Token) -> (event: Event)
        ensures
            event@ == (readiness, token),
            event == Event::of(readiness, token),
    {
        Event { kind: readiness, token }
    }

    /// The readiness that the event reports.
    pub fn readiness(&self) -> (r: Ready)
        ensures
            r == self@.0,
    {
        self.kind
    }

    /// The token of the registration that the event was reported for.
    pub fn token(&self) -> (t: Token)
        ensures
            t == self@.1,
    {
        self.token
    }
}

/// Hands out the readiness of an event for changing in place; the token
/// stays as it is.
pub fn kind_mut(event: &mut Event) -> (kind: &mut Ready)
    ensures
        *kind == old(event)@.0,
        final(event)@ == (*final(kind), old(event)@.1),
{
    &mut event.kind
}

/// An event is its readiness and token: the event made from a pair has that
/// pair, and two events with one pair are one event.
pub proof fn lemma_event_is_its_pair(event: Event, readiness: Ready, token: Token)
    ensures
        Event::of(readiness, token)@ == (readiness, token),
        Event::of(event@.0, event@.1) == event,
{
}

} // verus!
