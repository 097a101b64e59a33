//! The multiplexer's side of the reactor: what is handed to the operating
//! system for a registration, and what its event records mean.
//!
//! The selector holds the descriptor of one multiplexer instance. It makes
//! no system call itself: it builds the change to ask for and reads the
//! records that a wait brought back.

use vstd::prelude::*;
use crate::event::Event;
use crate::poll_opt::PollOpt;
use crate::poll_opt::EDGE;
use crate::poll_opt::LEVEL;
use crate::poll_opt::ONESHOT;
use crate::ready::Ready;
use crate::ready::ERROR;
use crate::ready::HUP;
use crate::ready::PRI;
use crate::ready::READABLE;
use crate::ready::WRITABLE;
use crate::sys::Failure;
use crate::sys::FailureKind;
use crate::token::Token;

verus! {

/// The multiplexer's flag for data to read.
pub const EPOLLIN: u32 = 0x1;

/// The multiplexer's flag for urgent data to read.
pub const EPOLLPRI: u32 = 0x2;

/// The multiplexer's flag for room to write.
pub const EPOLLOUT: u32 = 0x4;

/// The multiplexer's flag for an error on the descriptor.
pub const EPOLLERR: u32 = 0x8;

/// The multiplexer's flag for a hang-up on the descriptor.
pub const EPOLLHUP: u32 = 0x10;

/// The multiplexer's flag for a peer that closed its writing half.
pub const EPOLLRDHUP: u32 = 0x2000;

/// The multiplexer's flag for a registration that is disabled by its first
/// event.
pub const EPOLLONESHOT: u32 = 0x4000_0000;

/// The multiplexer's flag for edge-triggered reporting.
pub const EPOLLET: u32 = 0x8000_0000;

/// The timeout that lets a wait block until an event arrives.
pub const WAIT_FOREVER: i32 = -1;

/// The greatest number that a wait takes, for its timeout in milliseconds
/// as for the count of its records.
pub const MAX_WAIT: i32 = 0x7fff_ffff;

/// A flag if the condition holds, no flag if not.
pub open spec fn flag_if(condition: bool, flag: u32) -> u32 {
    if condition {
        flag
    } else {
        0
    }
}

/// The multiplexer's flags for an interest with options.
///
/// Readable, writable and priority interest each have their flag; no other
/// kind is asked for, since errors and hang-ups are reported unasked.
/// One-shot has its flag. The edge-triggered flag is set when edge is asked
/// for and level is not: level-triggered reporting is what the multiplexer
/// does without it.
pub open spec fn epoll_flags(interest: usize, opts: usize) -> u32 {
    flag_if(interest & READABLE == READABLE, EPOLLIN) | flag_if(
        interest & WRITABLE == WRITABLE,
        EPOLLOUT,
    ) | flag_if(interest & PRI == PRI, EPOLLPRI) | flag_if(
        opts & EDGE == EDGE && opts & LEVEL != LEVEL,
        EPOLLET,
    ) | flag_if(opts & ONESHOT == ONESHOT, EPOLLONESHOT)
}

/// A readiness kind if the condition holds, none if not.
pub open spec fn kind_if(condition: bool, kind: usize) -> usize {
    if condition {
        kind
    } else {
        0
    }
}

/// The readiness that the flags of an event record stand for.
///
/// Urgent data counts as readable and as priority; a peer that closed its
/// writing half counts as a hang-up, like a hang-up proper.
pub open spec fn readiness_of(flags: u32) -> usize {
    kind_if(flags & EPOLLIN != 0, READABLE) | kind_if(flags & EPOLLPRI != 0, READABLE | PRI)
        | kind_if(flags & EPOLLOUT != 0, WRITABLE) | kind_if(flags & EPOLLERR != 0, ERROR)
        | kind_if(flags & EPOLLRDHUP != 0 || flags & EPOLLHUP != 0, HUP)
}

/// One event record as the multiplexer hands it over: its flags, and the
/// number that was given at registration.
#[derive(Copy, Clone, Debug, PartialEq, Eq, Structural)]
pub struct RawEvent {
    pub events: u32,
    pub data: u64,
}

impl RawEvent {
    /// The number of the token that the record was reported for.
    pub open spec fn token(self) -> usize {
        self.data as usize
    }

    /// The event that the record stands for.
    pub open spec fn event(self) -> Event {
        Event::of(Ready::of(readiness_of(self.events)), Token(self.token()))
    }

    /// The event that the record stands for, unless the record is for the
    /// awakener.
    pub open spec fn event_unless(self, awakener: usize) -> Option<Event> {
        if self.token() == awakener {
            None
        } else {
            Some(self.event())
        }
    }
}

/// Which change to the interest set is asked for.
#[derive(Copy, Clone, Debug, PartialEq, Eq, Structural)]
pub enum CtlOp {
    /// Add a descriptor.
    Add,
    /// Replace the interest of a descriptor that is in the set.
    Modify,
    /// Take a descriptor out.
    Delete,
}

/// A change to the interest set of a multiplexer, ready to be handed to the
/// operating system.
#[derive(Copy, Clone, Debug, PartialEq, Eq, Structural)]
pub struct Ctl {
    /// The descriptor of the multiplexer.
    pub epfd: i32,
    /// The change.
    pub op: CtlOp,
    /// The descriptor that the change is about.
    pub fd: i32,
    /// The flags to register the descriptor with.
    pub events: u32,
    /// The number that event records for the descriptor carry back.
    pub data: u64,
}

/// What a poll does after a wait for events returned.
#[derive(Debug, PartialEq, Eq)]
pub enum Waited<E> {
    /// The wait brought this many event records.
    Events(usize),
    /// A signal interrupted the wait: wait again.
    Again,
    /// The wait failed.
    Failed(E),
}

/// The multiplexer's flags for an interest with options: see
/// [`epoll_flags`].
pub fn ioevent_to_epoll(interest: Ready, opts: PollOpt) -> (flags: u32)
    ensures
        flags == epoll_flags(interest@, opts@),
{
    let readable: u32 = if interest.is_readable() {
        EPOLLIN
    } else {
        0
    };
    let writable: u32 = if interest.is_writable() {
        EPOLLOUT
    } else {
        0
    };
    let priority: u32 = if interest.contains(Ready::from_usize(PRI)) {
        EPOLLPRI
    } else {
        0
    };
    let edge: u32 = if opts.is_edge() && !opts.is_level() {
        EPOLLET
    } else {
        0
    };
    let oneshot: u32 = if opts.is_oneshot() {
        EPOLLONESHOT
    } else {
        0
    };
    readable | writable | priority | edge | oneshot
}

/// The readiness that the flags of an event record stand for: see
/// [`readiness_of`].
pub fn epoll_to_ready(flags: u32) -> (ready: Ready)
    ensures
        ready@ == readiness_of(flags),
        ready == Ready::of(readiness_of(flags)),
{
    let readable: usize = if flags & EPOLLIN != 0 {
        READABLE
    } else {
        0
    };
    let priority: usize = if flags & EPOLLPRI != 0 {
        READABLE | PRI
    } else {
        0
    };
    let writable: usize = if flags & EPOLLOUT != 0 {
        WRITABLE
    } else {
        0
    };
    let error: usize = if flags & EPOLLERR != 0 {
        ERROR
    } else {
        0
    };
    let hup: usize = if flags & EPOLLRDHUP != 0 || flags & EPOLLHUP != 0 {
        HUP
    } else {
        0
    };
    Ready::from_usize(readable | priority | writable | error | hup)
}

/// The event that an event record stands for: the readiness of its flags
/// under the token whose number it carries.
pub fn event_from_raw(raw: RawEvent) -> (event: Event)
    ensures
        event == raw.event(),
{
    Event::new(
        epoll_to_ready(raw.events),
        Token(
            #[verifier::truncate]
            (raw.data as usize),
        ),
    )
}

/// The timeout to hand to a wait, in milliseconds, for a timeout given as
/// whole seconds and nanoseconds beyond them.
///
/// No timeout lets the wait block until an event arrives. Otherwise the
/// time is rounded up to whole milliseconds, so that a wait never ends
/// early, and is cut down to the longest timeout that a wait takes.
pub open spec fn wait_for(timeout: Option<(u64, u32)>) -> int {
    match timeout {
        None => WAIT_FOREVER as int,
        Some((secs, nanos)) => {
            let millis = secs * 1000 + (nanos + 999_999) / 1_000_000;
            if millis <= MAX_WAIT {
                millis
            } else {
                MAX_WAIT as int
            }
        },
    }
}

/// The timeout to hand to a wait, in milliseconds: see [`wait_for`].
pub fn timeout_millis(timeout: Option<(u64, u32)>) -> (millis: i32)
    ensures
        millis == wait_for(timeout),
{
    match timeout {
        None => WAIT_FOREVER,
        Some((secs, nanos)) => {
            if secs > 2_147_483 {
                MAX_WAIT
            } else {
                let whole: u64 = secs * 1000;
                let part: u64 = (nanos as u64 + 999_999) / 1_000_000;
                let millis: u64 = whole + part;
                if millis <= 0x7fff_ffff {
                    millis as i32
                } else {
                    MAX_WAIT
                }
            }
        },
    }
}

/// The timeout for the wait of one poll cycle, in milliseconds. A poll that
/// has events at hand already, from sources that no descriptor stands
/// behind, does not block at all; otherwise it waits as long as it was
/// asked to.
pub fn poll_millis(timeout: Option<(u64, u32)>, pending: bool) -> (millis: i32)
    ensures
        pending ==> millis == 0,
        !pending ==> millis == wait_for(timeout),
{
    if pending {
        0
    } else {
        timeout_millis(timeout)
    }
}

/// The number of event records to make room for in one wait, for an event
/// buffer of the given capacity: as many as the buffer takes, but at least
/// one, which a wait insists on, and at most [`MAX_WAIT`], the greatest
/// count that a wait takes.
pub fn max_events(capacity: usize) -> (count: i32)
    ensures
        capacity == 0 ==> count == 1,
        0 < capacity <= MAX_WAIT ==> count == capacity,
        capacity > MAX_WAIT ==> count == MAX_WAIT,
{
    if capacity == 0 {
        1
    } else if capacity < 0x7fff_ffff {
        capacity as i32
    } else {
        MAX_WAIT
    }
}

/// Says what a poll does after a wait returned, given the outcome of the
/// wait: the number of records it brought, or its failure.
///
/// A wait that a signal interrupted is made again and never shows as a
/// failure. Any other failure is handed on.
pub fn after_wait<E>(outcome: Result<usize, Failure<E>>) -> (next: Waited<E>)
    ensures
        outcome matches Ok(count) ==> next == Waited::<E>::Events(count),
        outcome matches Err(failure) ==> next == if failure.kind == FailureKind::Interrupted {
            Waited::<E>::Again
        } else {
            Waited::<E>::Failed(failure.cause)
        },
{
    match outcome {
        Ok(count) => Waited::Events(count),
        Err(failure) => match failure.kind {
            FailureKind::Interrupted => Waited::Again,
            _ => Waited::Failed(failure.cause),
        },
    }
}

/// The handle of one multiplexer instance.
pub struct Selector {
    epfd: i32,
}

impl Selector {
    /// The descriptor of the multiplexer.
    pub closed spec fn fd(&self) -> i32 {
        self.epfd
    }

    /// Makes a selector from the outcome of creating a multiplexer: from
    /// its descriptor, or else the error is handed on.
    pub fn new<E>(created: Result<i32, E>) -> (r: Result<Selector, E>)
        ensures
            created matches Ok(epfd) ==> r is Ok && r->Ok_0.fd() == epfd,
            created matches Err(e) ==> r == Err::<Selector, E>(e),
    {
        match created {
            Ok(epfd) => Ok(Selector { epfd }),
            Err(e) => Err(e),
        }
    }

    /// The descriptor of the multiplexer.
    pub fn epfd(&self) -> (epfd: i32)
        ensures
            epfd == self.fd(),
    {
        self.epfd
    }

    /// The change that adds `fd` to the interest set, for `interest` with
    /// `opts`, so that its events carry `token`.
    pub fn register(&self, fd: i32, token: Token, interest: Ready, opts: PollOpt) -> (ctl: Ctl)
        ensures
            ctl == (Ctl {
                epfd: self.fd(),
                op: CtlOp::Add,
                fd,
                events: epoll_flags(interest@, opts@),
                data: token@ as u64,
            }),
    {
        Ctl {
            epfd: self.epfd,
            op: CtlOp::Add,
            fd,
            events: ioevent_to_epoll(interest, opts),
            data: token.0 as u64,
        }
    }

    /// The change that replaces what `fd` is registered for by `interest`
    /// with `opts` under `token`, all at once.
    pub fn reregister(&self, fd: i32, token: Token, interest: Ready, opts: PollOpt) -> (ctl: Ctl)
        ensures
            ctl == (Ctl {
                epfd: self.fd(),
                op: CtlOp::Modify,
                fd,
                events: epoll_flags(interest@, opts@),
                data: token@ as u64,
            }),
    {
        Ctl {
            epfd: self.epfd,
            op: CtlOp::Modify,
            fd,
            events: ioevent_to_epoll(interest, opts),
            data: token.0 as u64,
        }
    }

    /// The change that takes `fd` out of the interest set.
    pub open spec fn spec_deregister(&self, fd: i32) -> Ctl {
        Ctl { epfd: self.fd(), op: CtlOp::Delete, fd, events: 0, data: 0 }
    }

    /// The change that takes `fd` out of the interest set. It asks for no
    /// flags and carries no number.
    #[verifier::when_used_as_spec(spec_deregister)]
    pub fn deregister(&self, fd: i32) -> (ctl: Ctl)
        ensures
            ctl == (Ctl { epfd: self.fd(), op: CtlOp::Delete, fd, events: 0, data: 0 }),
    {
        Ctl { epfd: self.epfd, op: CtlOp::Delete, fd, events: 0, data: 0 }
    }

    /// Reads the event records that a wait brought back into `events`, and
    /// says whether the awakener was among them.
    ///
    /// `events` is emptied first. Each record then gives one event, in the
    /// order of the records, but for the records under the token of the
    /// awakener, which give none.
    pub fn select(&self, records: &Vec<RawEvent>, awakener: Token, events: &mut Vec<Event>) -> (awoken:
        bool)
        ensures
            final(events)@ == records@.filter_map(|raw: RawEvent| raw.event_unless(awakener@)),
            awoken == exists|i: int| 0 <= i < records.len() && records[i].token() == awakener@,
    {
        events.clear();
        let mut awoken = false;
        let mut i: usize = 0;
        let ghost read = |raw: RawEvent| raw.event_unless(awakener@);
        while i < records.len()
            invariant
                i <= records.len(),
                read == |raw: RawEvent| raw.event_unless(awakener@),
                events@ == records@.subrange(0, i as int).filter_map(read),
                awoken == exists|j: int| 0 <= j < i && records[j].token() == awakener@,
            decreases records.len() - i,
        {
            let raw = records[i];
            let event = event_from_raw(raw);
            proof {
                let before = records@.subrange(0, i as int);
                let now = records@.subrange(0, i + 1);
                assert(now.drop_last() == before);
                crate::event::lemma_event_is_its_pair(
                    event,
                    Ready::of(readiness_of(raw.events)),
                    Token(raw.token()),
                );
            }
            if event.token().0 == awakener.0 {
                awoken = true;
            } else {
                events.push(event);
            }
            i = i + 1;
        }
        assert(records@.subrange(0, i as int) == records@);
        awoken
    }
}

/// Flags that are each either absent or one bit of their own can be told
/// apart in their union, and leave every other bit clear.
proof fn lemma_flags_apart(a: u32, b: u32, c: u32, d: u32, e: u32)
    by (bit_vector)
    requires
        a == 0 || a == 0x1,
        b == 0 || b == 0x4,
        c == 0 || c == 0x2,
        d == 0 || d == 0x8000_0000,
        e == 0 || e == 0x4000_0000,
    ensures
        (a | b | c | d | e) & 0x1 == a,
        (a | b | c | d | e) & 0x4 == b,
        (a | b | c | d | e) & 0x2 == c,
        (a | b | c | d | e) & 0x8000_0000 == d,
        (a | b | c | d | e) & 0x4000_0000 == e,
        (a | b | c | d | e) & 0x8 == 0,
        (a | b | c | d | e) & 0x10 == 0,
        (a | b | c | d | e) & 0x2000 == 0,
        (a | b | c | d | e) & !0xc000_0007u32 == 0,
{
}

/// Readable, writable and priority readiness, each present exactly when the
/// interest holds it, make up a readiness that holds the interest, if the
/// interest holds nothing else.
proof fn lemma_kinds_cover_interest(interest: usize, readable: usize, priority: usize, writable: usize)
    by (bit_vector)
    requires
        readable == 0 || readable == 0x1,
        priority == 0 || priority == 0x41,
        writable == 0 || writable == 0x2,
        readable == 0x1 <==> interest & 0x1 == 0x1,
        priority == 0x41 <==> interest & 0x40 == 0x40,
        writable == 0x2 <==> interest & 0x2 == 0x2,
        interest & !0x43usize == 0,
    ensures
        (readable | priority | writable | 0usize | 0usize) & interest == interest,
{
}

/// Each flag is asked for exactly when its interest or option is there, and
/// no other flag is ever asked for.
pub proof fn lemma_epoll_flags_bit_by_bit(interest: usize, opts: usize)
    ensures
        epoll_flags(interest, opts) & EPOLLIN != 0 <==> interest & READABLE == READABLE,
        epoll_flags(interest, opts) & EPOLLOUT != 0 <==> interest & WRITABLE == WRITABLE,
        epoll_flags(interest, opts) & EPOLLPRI != 0 <==> interest & PRI == PRI,
        epoll_flags(interest, opts) & EPOLLET != 0 <==> opts & EDGE == EDGE && opts & LEVEL
            != LEVEL,
        epoll_flags(interest, opts) & EPOLLONESHOT != 0 <==> opts & ONESHOT == ONESHOT,
        epoll_flags(interest, opts) & !(EPOLLIN | EPOLLOUT | EPOLLPRI | EPOLLET | EPOLLONESHOT)
            == 0,
{
    lemma_flags_apart(
        flag_if(interest & READABLE == READABLE, EPOLLIN),
        flag_if(interest & WRITABLE == WRITABLE, EPOLLOUT),
        flag_if(interest & PRI == PRI, EPOLLPRI),
        flag_if(opts & EDGE == EDGE && opts & LEVEL != LEVEL, EPOLLET),
        flag_if(opts & ONESHOT == ONESHOT, EPOLLONESHOT),
    );
    assert(EPOLLIN | EPOLLOUT | EPOLLPRI | EPOLLET | EPOLLONESHOT == 0xc000_0007u32)
        by (bit_vector);
}

/// What is asked for comes back: when the multiplexer reports every flag
/// that an interest in readable, writable and priority readiness was
/// translated to, the readiness read from its record holds that interest.
/// Options never show as readiness.
pub proof fn lemma_interest_is_reported_back(interest: usize, opts: usize)
    ensures
        interest & !(READABLE | WRITABLE | PRI) == 0 ==> readiness_of(
            epoll_flags(interest, opts),
        ) & interest == interest,
        readiness_of(epoll_flags(0, opts)) == 0,
{
    lemma_flags_apart(
        flag_if(interest & READABLE == READABLE, EPOLLIN),
        flag_if(interest & WRITABLE == WRITABLE, EPOLLOUT),
        flag_if(interest & PRI == PRI, EPOLLPRI),
        flag_if(opts & EDGE == EDGE && opts & LEVEL != LEVEL, EPOLLET),
        flag_if(opts & ONESHOT == ONESHOT, EPOLLONESHOT),
    );
    lemma_flags_apart(
        flag_if(0usize & READABLE == READABLE, EPOLLIN),
        flag_if(0usize & WRITABLE == WRITABLE, EPOLLOUT),
        flag_if(0usize & PRI == PRI, EPOLLPRI),
        flag_if(opts & EDGE == EDGE && opts & LEVEL != LEVEL, EPOLLET),
        flag_if(opts & ONESHOT == ONESHOT, EPOLLONESHOT),
    );
    assert(0usize & READABLE != READABLE && 0usize & WRITABLE != WRITABLE && 0usize & PRI != PRI)
        by (bit_vector);
    assert(READABLE | WRITABLE | PRI == 0x43usize && READABLE | PRI == 0x41usize) by (bit_vector);
    let flags = epoll_flags(interest, opts);
    if interest & !(READABLE | WRITABLE | PRI) == 0 {
        lemma_kinds_cover_interest(
            interest,
            kind_if(flags & EPOLLIN != 0, READABLE),
            kind_if(flags & EPOLLPRI != 0, READABLE | PRI),
            kind_if(flags & EPOLLOUT != 0, WRITABLE),
        );
    }
    assert(0usize | 0usize | 0usize | 0usize | 0usize == 0) by (bit_vector);
}

/// An event record carries the token of its registration: the change that
/// registers a descriptor hands the multiplexer a number from which the
/// token is read back unchanged.
pub proof fn lemma_record_carries_token(token: Token, flags: u32)
    ensures
        (RawEvent { events: flags, data: token@ as u64 }).token() == token@,
        (RawEvent { events: flags, data: token@ as u64 }).event()@.1 == token,
{
    crate::event::lemma_event_is_its_pair(
        (RawEvent { events: flags, data: token@ as u64 }).event(),
        Ready::of(readiness_of(flags)),
        token,
    );
}

} // verus!
