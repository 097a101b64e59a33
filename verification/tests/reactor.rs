use futures_net::direction::{Direction, READ_MASK, WRITE_MASK};
use futures_net::evented::EventedFd;
use futures_net::event::Event;
use futures_net::poll_evented::PollEvented;
use futures_net::reactor::{Channels, Reactor, Side};
use futures_net::ready::Ready;
use futures_net::selector::{CtlOp, Selector, EPOLLET, EPOLLIN, EPOLLOUT};
use futures_net::sys::{Failure, FailureKind, Step};
use futures_net::table::TokenTable;
use futures_net::token::{Token, AWAKEN};
use futures_net::unix_ready::UnixReady;

#[test]
fn token_is_its_number() {
    assert_eq!(Token::from(5usize), Token(5));
    assert_eq!(usize::from(Token(9)), 9);
    assert_eq!(Token(3).0, 3);
    assert!(Token(1) < Token(2));
    assert_eq!(AWAKEN, usize::MAX);
}

#[test]
fn channels_keep_two_directions_apart() {
    let mut channels: Channels<u8> = Channels::new();
    assert_eq!(channels.poll_ready(Side::Read, 1), Step::Pending);
    assert_eq!(channels.poll_ready(Side::Write, 2), Step::Pending);
    let wakes = channels.dispatch(Ready::readable());
    assert_eq!((wakes.read, wakes.write), (Some(1), None));
    assert_eq!(channels.poll_ready(Side::Read, 1), Step::Ready(Ready::readable()));
    assert_eq!(channels.poll_ready(Side::Write, 3), Step::Pending);
    channels.clear_ready(Side::Read, 4);
    let wakes = channels.dispatch(Ready::readable() | Ready::writable());
    assert_eq!((wakes.read, wakes.write), (Some(4), Some(3)));
}

#[test]
fn table_hands_out_distinct_tokens() {
    let mut table = TokenTable::new();
    let a = table.insert("a");
    let b = table.insert("b");
    let c = table.insert("c");
    assert_eq!((a, b, c), (Token(0), Token(1), Token(2)));
    assert_eq!(table.get(a), Some(&"a"));
    assert_eq!(table.get(b), Some(&"b"));
    assert_eq!(table.get(c), Some(&"c"));
    assert_eq!(table.get(Token(3)), None);
    assert_eq!(table.get(Token(AWAKEN)), None);
    assert!(table.contains(b));
    assert!(!table.contains(Token(7)));
}

#[test]
fn table_reuses_a_token_only_after_removal() {
    let mut table = TokenTable::new();
    let mut live = Vec::new();
    for i in 0..50usize {
        let t = table.insert(i);
        assert!(!live.contains(&t));
        assert_ne!(t, Token(AWAKEN));
        live.push(t);
    }
    let gone = live.remove(20);
    assert_eq!(table.remove(gone), Some(20));
    assert_eq!(table.remove(gone), None);
    assert!(!table.contains(gone));
    let again = table.insert(1000);
    assert_eq!(again, gone);
    assert_eq!(table.get(again), Some(&1000));
    let fresh = table.insert(1001);
    assert!(!live.contains(&fresh) && fresh != again);
    assert_eq!(fresh, Token(50));
}

#[test]
fn table_frees_tokens_last_out_first_in() {
    let mut table = TokenTable::new();
    for i in 0..5usize {
        table.insert(i);
    }
    assert_eq!(table.remove(Token(1)), Some(1));
    assert_eq!(table.remove(Token(3)), Some(3));
    assert_eq!(table.remove(Token(9)), None);
    assert_eq!(table.insert(30), Token(3));
    assert_eq!(table.insert(10), Token(1));
    assert_eq!(table.insert(50), Token(5));
}

#[test]
fn table_entry_changes_in_place() {
    let mut table = TokenTable::new();
    let a = table.insert(1);
    let b = table.insert(2);
    *table.get_mut(a).unwrap() += 10;
    assert_eq!(table.get(a), Some(&11));
    assert_eq!(table.get(b), Some(&2));
    assert!(table.get_mut(Token(2)).is_none());
    table.remove(a);
    assert!(table.get_mut(a).is_none());
}

#[test]
fn direction_masks() {
    assert_eq!(READ_MASK, 0b100_1101);
    assert_eq!(WRITE_MASK, 0b000_1110);
}

#[test]
fn direction_goes_round_its_states() {
    let mut d: Direction<&str> = Direction::new(Ready::from_usize(READ_MASK));
    assert!(d.cached().is_empty());
    assert!(!d.is_ready());
    assert!(!d.is_awaited());
    assert_eq!(d.poll_ready("task"), Step::Pending);
    assert!(d.is_awaited());
    assert!(!d.is_ready());
    assert_eq!(d.dispatch(Ready::readable()), Some("task"));
    assert!(d.is_ready());
    assert!(!d.is_awaited());
    assert_eq!(d.poll_ready("task"), Step::Ready(Ready::readable()));
    assert!(!d.is_awaited());
    d.clear_ready("task");
    assert!(d.cached().is_empty());
    assert!(d.is_awaited());
    assert_eq!(d.poll_ready("other"), Step::Pending);
    assert_eq!(d.dispatch(Ready::readable()), Some("other"));
}

#[test]
fn direction_wakes_once_per_transition() {
    let mut d: Direction<u32> = Direction::new(Ready::from_usize(READ_MASK));
    assert_eq!(d.poll_ready(1), Step::Pending);
    assert_eq!(d.dispatch(Ready::readable()), Some(1));
    assert_eq!(d.dispatch(Ready::readable()), None);
    assert_eq!(d.dispatch(Ready::from(UnixReady::hup())), None);
    assert_eq!(d.cached().bits(), 0b1001);
    assert_eq!(d.poll_ready(2), Step::Ready(Ready::from_usize(0b1001)));
    assert_eq!(d.dispatch(Ready::readable()), None);
}

#[test]
fn direction_ignores_kinds_of_the_other_direction() {
    let mut d: Direction<u32> = Direction::new(Ready::from_usize(READ_MASK));
    assert_eq!(d.poll_ready(1), Step::Pending);
    assert_eq!(d.dispatch(Ready::writable()), None);
    assert!(d.cached().is_empty());
    assert!(d.is_awaited());
    assert_eq!(d.dispatch(Ready::from_usize(0x1000)), None);
    assert_eq!(d.dispatch(Ready::writable() | Ready::readable()), Some(1));
    assert_eq!(d.cached(), Ready::readable());
    let mut w: Direction<u32> = Direction::new(Ready::from_usize(WRITE_MASK));
    assert_eq!(w.dispatch(Ready::readable() | UnixReady::priority()), None);
    assert!(w.cached().is_empty());
    assert_eq!(w.dispatch(Ready::from(UnixReady::error())), None);
    assert_eq!(w.cached().bits(), 0b0100);
}

#[test]
fn direction_without_waiter_becomes_ready_silently() {
    let mut d: Direction<u32> = Direction::new(Ready::from_usize(WRITE_MASK));
    assert_eq!(d.dispatch(Ready::writable()), None);
    assert_eq!(d.poll_ready(5), Step::Ready(Ready::writable()));
    assert!(!d.is_awaited());
}

#[test]
fn reactor_gives_fresh_tokens_and_frees_them() {
    let mut reactor: Reactor<u32> = Reactor::new();
    let a = reactor.add();
    let b = reactor.add();
    assert_ne!(a, b);
    assert!(reactor.contains(a) && reactor.contains(b));
    assert!(reactor.remove(a));
    assert!(!reactor.contains(a));
    assert!(!reactor.remove(a));
    let c = reactor.add();
    assert_eq!(c, a);
    assert_ne!(c, b);
    assert_ne!(c, Token(AWAKEN));
}

#[test]
fn reactor_drops_events_for_stale_tokens() {
    let mut reactor: Reactor<u32> = Reactor::new();
    let a = reactor.add();
    assert_eq!(reactor.poll_ready(a, Side::Read, 1), Some(Step::Pending));
    assert!(reactor.remove(a));
    let wakes = reactor.dispatch(Event::new(Ready::readable(), a));
    assert_eq!((wakes.read, wakes.write), (None, None));
    let wakes = reactor.dispatch(Event::new(Ready::readable(), Token(AWAKEN)));
    assert_eq!((wakes.read, wakes.write), (None, None));
    assert_eq!(reactor.poll_ready(a, Side::Read, 1), None);
    assert!(!reactor.clear_ready(a, Side::Read, 1));
    let b = reactor.add();
    assert_eq!(b, a);
    assert_eq!(reactor.poll_ready(b, Side::Read, 2), Some(Step::Pending));
}

#[test]
fn reactor_wakes_each_direction_for_its_kinds() {
    let mut reactor: Reactor<&str> = Reactor::new();
    let t = reactor.add();
    let other = reactor.add();
    assert_eq!(reactor.poll_ready(t, Side::Read, "reader"), Some(Step::Pending));
    assert_eq!(reactor.poll_ready(t, Side::Write, "writer"), Some(Step::Pending));
    assert_eq!(reactor.poll_ready(other, Side::Read, "bystander"), Some(Step::Pending));
    let wakes = reactor.dispatch(Event::new(Ready::writable(), t));
    assert_eq!((wakes.read, wakes.write), (None, Some("writer")));
    let wakes = reactor.dispatch(Event::new(Ready::readable(), t));
    assert_eq!((wakes.read, wakes.write), (Some("reader"), None));
    let wakes = reactor.dispatch(Event::new(Ready::readable() | Ready::writable(), t));
    assert_eq!((wakes.read, wakes.write), (None, None));
    assert_eq!(reactor.poll_ready(other, Side::Read, "bystander"), Some(Step::Pending));
}

#[test]
fn turn_dispatches_in_order_and_collects_the_wakes() {
    let mut reactor: Reactor<&str> = Reactor::new();
    let a = reactor.add();
    let b = reactor.add();
    reactor.poll_ready(a, Side::Read, "a reads");
    reactor.poll_ready(a, Side::Write, "a writes");
    reactor.poll_ready(b, Side::Read, "b reads");
    let events = vec![
        Event::new(Ready::writable(), a),
        Event::new(Ready::readable(), Token(40)),
        Event::new(Ready::readable(), b),
        Event::new(Ready::readable() | Ready::writable(), a),
        Event::new(Ready::readable(), b),
    ];
    assert_eq!(reactor.turn(&events), vec!["a writes", "b reads", "a reads"]);
    assert_eq!(reactor.turn(&events), Vec::<&str>::new());
    assert_eq!(reactor.turn(&Vec::new()), Vec::<&str>::new());
    assert_eq!(reactor.poll_ready(b, Side::Read, "b"), Some(Step::Ready(Ready::readable())));
    let both = Event::new(Ready::from(UnixReady::hup()), a);
    assert!(reactor.clear_ready(a, Side::Read, "r"));
    assert!(reactor.clear_ready(a, Side::Write, "w"));
    assert_eq!(reactor.turn(&vec![both, both]), vec!["r", "w"]);
}

#[test]
fn hang_up_wakes_both_directions() {
    let mut reactor: Reactor<&str> = Reactor::new();
    let t = reactor.add();
    reactor.poll_ready(t, Side::Read, "reader");
    reactor.poll_ready(t, Side::Write, "writer");
    let wakes = reactor.dispatch(Event::new(Ready::from(UnixReady::hup()), t));
    assert_eq!((wakes.read, wakes.write), (Some("reader"), Some("writer")));
    let hup = Ready::from(UnixReady::hup());
    assert_eq!(reactor.poll_ready(t, Side::Read, "reader"), Some(Step::Ready(hup)));
    assert_eq!(reactor.poll_ready(t, Side::Write, "writer"), Some(Step::Ready(hup)));
}

#[test]
fn clearing_one_direction_keeps_the_other() {
    let mut reactor: Reactor<u8> = Reactor::new();
    let t = reactor.add();
    reactor.dispatch(Event::new(Ready::readable() | Ready::writable(), t));
    assert!(reactor.clear_ready(t, Side::Read, 1));
    assert_eq!(reactor.poll_ready(t, Side::Write, 2), Some(Step::Ready(Ready::writable())));
    assert_eq!(reactor.poll_ready(t, Side::Read, 1), Some(Step::Pending));
    assert!(reactor.clear_ready(t, Side::Write, 2));
    assert_eq!(reactor.poll_ready(t, Side::Write, 2), Some(Step::Pending));
}

#[test]
fn listener_sees_one_wake_per_connection() {
    let created: Result<i32, ()> = Ok(3);
    let selector = Selector::new(created).unwrap();
    let mut reactor: Reactor<&str> = Reactor::new();
    let fd = 5;
    let listener = PollEvented::new(EventedFd(&fd), &mut reactor);
    let ctl = listener.register(&selector);
    assert_eq!(ctl.op, CtlOp::Add);
    assert_eq!(ctl.fd, 5);
    assert_eq!(ctl.events, EPOLLIN | EPOLLOUT | EPOLLET);
    assert_eq!(ctl.data, listener.token().0 as u64);
    assert_eq!(PollEvented::<EventedFd>::interest().bits(), 3);
    assert!(PollEvented::<EventedFd>::opts().is_edge());

    assert_eq!(listener.poll_read_ready(&mut reactor, "acceptor"), Some(Step::Pending));
    let wakes = reactor.dispatch(Event::new(Ready::readable(), listener.token()));
    assert_eq!((wakes.read, wakes.write), (Some("acceptor"), None));
    assert_eq!(
        listener.poll_read_ready(&mut reactor, "acceptor"),
        Some(Step::Ready(Ready::readable()))
    );
    let accepted: Result<Option<&str>, Failure<&str>> = Ok(Some("peer"));
    assert_eq!(
        listener.settle(&mut reactor, Side::Read, accepted, "acceptor"),
        Some(Step::Ready(Ok("peer")))
    );
    let drained: Result<Option<&str>, Failure<&str>> =
        Err(Failure { kind: FailureKind::WouldBlock, cause: "EAGAIN" });
    assert_eq!(
        listener.settle(&mut reactor, Side::Read, drained, "acceptor"),
        Some(Step::Pending)
    );
    assert_eq!(listener.poll_read_ready(&mut reactor, "acceptor"), Some(Step::Pending));
    let wakes = reactor.dispatch(Event::new(Ready::writable(), listener.token()));
    assert_eq!(wakes.read, None);
    let wakes = reactor.dispatch(Event::new(Ready::readable(), listener.token()));
    assert_eq!(wakes.read, Some("acceptor"));

    let gone = listener.deregister(&selector);
    assert_eq!(gone, selector.deregister(5));
    let token = listener.token();
    let io = listener.into_inner(&mut reactor);
    assert_eq!(*io.0, 5);
    assert!(!reactor.contains(token));
    assert_eq!(reactor.add(), token);
}

#[test]
fn settle_tells_outcomes_apart() {
    let mut reactor: Reactor<u8> = Reactor::new();
    let mut io = PollEvented::new(String::from("socket"), &mut reactor);
    assert_eq!(io.get_ref(), "socket");
    io.get_mut().push('!');
    assert_eq!(io.get_ref(), "socket!");
    reactor.dispatch(Event::new(Ready::readable() | Ready::writable(), io.token()));

    let value: Result<Option<u32>, Failure<&str>> = Ok(Some(7));
    assert_eq!(io.settle(&mut reactor, Side::Write, value, 1), Some(Step::Ready(Ok(7))));
    assert_eq!(io.poll_write_ready(&mut reactor, 1), Some(Step::Ready(Ready::writable())));

    let failed: Result<Option<u32>, Failure<&str>> =
        Err(Failure { kind: FailureKind::Other, cause: "ECONNRESET" });
    assert_eq!(
        io.settle(&mut reactor, Side::Write, failed, 1),
        Some(Step::Ready(Err("ECONNRESET")))
    );
    let interrupted: Result<Option<u32>, Failure<&str>> =
        Err(Failure { kind: FailureKind::Interrupted, cause: "EINTR" });
    assert_eq!(
        io.settle(&mut reactor, Side::Write, interrupted, 1),
        Some(Step::Ready(Err("EINTR")))
    );
    assert_eq!(io.poll_write_ready(&mut reactor, 1), Some(Step::Ready(Ready::writable())));

    let nothing: Result<Option<u32>, Failure<&str>> = Ok(None);
    assert_eq!(io.settle(&mut reactor, Side::Write, nothing, 1), Some(Step::Pending));
    assert_eq!(io.poll_write_ready(&mut reactor, 1), Some(Step::Pending));
    assert_eq!(io.poll_read_ready(&mut reactor, 1), Some(Step::Ready(Ready::readable())));

    assert!(io.clear_read_ready(&mut reactor, 3));
    assert_eq!(io.poll_read_ready(&mut reactor, 3), Some(Step::Pending));
    reactor.dispatch(Event::new(Ready::writable(), io.token()));
    assert!(io.clear_write_ready(&mut reactor, 4));
    assert_eq!(io.poll_write_ready(&mut reactor, 4), Some(Step::Pending));

    let token = io.token();
    assert!(reactor.remove(token));
    let blocked: Result<Option<u32>, Failure<&str>> =
        Err(Failure { kind: FailureKind::WouldBlock, cause: "EAGAIN" });
    assert_eq!(io.settle(&mut reactor, Side::Read, blocked, 1), None);
    let value: Result<Option<u32>, Failure<&str>> = Ok(Some(9));
    assert_eq!(io.settle(&mut reactor, Side::Read, value, 1), Some(Step::Ready(Ok(9))));
    assert_eq!(io.poll_read_ready(&mut reactor, 1), None);
    assert!(!io.clear_write_ready(&mut reactor, 1));
}
