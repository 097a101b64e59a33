use futures_net::event::Event;
use futures_net::poll_opt::PollOpt;
use futures_net::ready::Ready;
use futures_net::selector::{
    after_wait, epoll_to_ready, event_from_raw, ioevent_to_epoll, max_events, poll_millis,
    timeout_millis,
    Ctl, CtlOp, RawEvent, Selector, Waited, EPOLLERR, EPOLLET, EPOLLHUP, EPOLLIN, EPOLLONESHOT,
    EPOLLOUT, EPOLLPRI, EPOLLRDHUP, MAX_WAIT, WAIT_FOREVER,
};
use futures_net::sys::{Failure, FailureKind};
use futures_net::token::{Token, AWAKEN};
use futures_net::unix_ready::UnixReady;

fn selector(epfd: i32) -> Selector {
    let created: Result<i32, ()> = Ok(epfd);
    Selector::new(created).unwrap()
}

#[test]
fn flags_are_those_of_the_platform() {
    assert_eq!(EPOLLIN, libc::EPOLLIN as u32);
    assert_eq!(EPOLLPRI, libc::EPOLLPRI as u32);
    assert_eq!(EPOLLOUT, libc::EPOLLOUT as u32);
    assert_eq!(EPOLLERR, libc::EPOLLERR as u32);
    assert_eq!(EPOLLHUP, libc::EPOLLHUP as u32);
    assert_eq!(EPOLLRDHUP, libc::EPOLLRDHUP as u32);
    assert_eq!(EPOLLONESHOT, libc::EPOLLONESHOT as u32);
    assert_eq!(EPOLLET, libc::EPOLLET as u32);
}

#[test]
fn interest_translates_to_flags() {
    let both = Ready::readable() | Ready::writable();
    assert_eq!(ioevent_to_epoll(Ready::empty(), PollOpt::empty()), 0);
    assert_eq!(ioevent_to_epoll(Ready::readable(), PollOpt::empty()), EPOLLIN);
    assert_eq!(ioevent_to_epoll(Ready::writable(), PollOpt::empty()), EPOLLOUT);
    assert_eq!(ioevent_to_epoll(both, PollOpt::edge()), EPOLLIN | EPOLLOUT | EPOLLET);
    assert_eq!(
        ioevent_to_epoll(Ready::from(UnixReady::priority()), PollOpt::level()),
        EPOLLPRI
    );
    assert_eq!(
        ioevent_to_epoll(both, PollOpt::edge() | PollOpt::oneshot()),
        0xc000_0005
    );
    assert_eq!(
        ioevent_to_epoll(Ready::readable(), PollOpt::oneshot()),
        EPOLLIN | EPOLLONESHOT
    );
}

#[test]
fn level_wins_over_edge() {
    assert_eq!(
        ioevent_to_epoll(Ready::readable(), PollOpt::edge() | PollOpt::level()),
        EPOLLIN
    );
    assert_eq!(ioevent_to_epoll(Ready::readable(), PollOpt::all()), EPOLLIN | EPOLLONESHOT);
}

#[test]
fn error_and_hup_interest_ask_for_no_flag() {
    let kinds = Ready::from(UnixReady::error() | UnixReady::hup());
    assert_eq!(ioevent_to_epoll(kinds, PollOpt::edge()), EPOLLET);
    assert_eq!(ioevent_to_epoll(Ready::all(), PollOpt::empty()), EPOLLIN | EPOLLOUT | EPOLLPRI);
    assert_eq!(ioevent_to_epoll(Ready::empty(), PollOpt::urgent()), 0);
}

#[test]
fn flags_translate_to_readiness() {
    assert_eq!(epoll_to_ready(0), Ready::empty());
    assert_eq!(epoll_to_ready(EPOLLIN), Ready::readable());
    assert_eq!(epoll_to_ready(EPOLLOUT), Ready::writable());
    assert_eq!(epoll_to_ready(EPOLLPRI).bits(), 0b100_0001);
    assert_eq!(epoll_to_ready(EPOLLERR), Ready::from(UnixReady::error()));
    assert_eq!(epoll_to_ready(EPOLLHUP), Ready::from(UnixReady::hup()));
    assert_eq!(epoll_to_ready(EPOLLRDHUP), Ready::from(UnixReady::hup()));
    assert_eq!(epoll_to_ready(EPOLLRDHUP | EPOLLHUP), Ready::from(UnixReady::hup()));
    assert_eq!(epoll_to_ready(EPOLLIN | EPOLLOUT | EPOLLERR).bits(), 0b0111);
    assert_eq!(epoll_to_ready(EPOLLET | EPOLLONESHOT), Ready::empty());
    assert_eq!(epoll_to_ready(u32::MAX).bits(), 0b100_1111);
}

#[test]
fn interest_is_reported_back() {
    let opts = [
        PollOpt::empty(),
        PollOpt::edge(),
        PollOpt::level(),
        PollOpt::oneshot(),
        PollOpt::all(),
    ];
    for mask in [0usize, 1, 2, 3, 0x40, 0x41, 0x42, 0x43] {
        for o in opts {
            let interest = Ready::from_usize(mask);
            let back = epoll_to_ready(ioevent_to_epoll(interest, o));
            assert!(back.contains(interest));
        }
    }
    for o in opts {
        assert!(epoll_to_ready(ioevent_to_epoll(Ready::empty(), o)).is_empty());
    }
}

#[test]
fn changes_for_the_interest_set() {
    let s = selector(9);
    assert_eq!(s.epfd(), 9);
    assert_eq!(
        s.register(4, Token(17), Ready::readable(), PollOpt::edge()),
        Ctl { epfd: 9, op: CtlOp::Add, fd: 4, events: EPOLLIN | EPOLLET, data: 17 }
    );
    assert_eq!(
        s.reregister(4, Token(18), Ready::writable(), PollOpt::level()),
        Ctl { epfd: 9, op: CtlOp::Modify, fd: 4, events: EPOLLOUT, data: 18 }
    );
    assert_eq!(
        s.deregister(4),
        Ctl { epfd: 9, op: CtlOp::Delete, fd: 4, events: 0, data: 0 }
    );
    assert_eq!(
        s.register(-1, Token(usize::MAX), Ready::empty(), PollOpt::empty()).data,
        usize::MAX as u64
    );
}

#[test]
fn selector_hands_on_the_error_of_creation() {
    let failed: Result<i32, &str> = Err("too many open files");
    assert_eq!(Selector::new(failed).err(), Some("too many open files"));
}

#[test]
fn record_becomes_event() {
    let raw = RawEvent { events: EPOLLIN | EPOLLHUP, data: 42 };
    let event = event_from_raw(raw);
    assert_eq!(event.token(), Token(42));
    assert_eq!(event.readiness().bits(), 0b1001);
    let s = selector(3);
    let ctl = s.register(5, Token(77), Ready::readable(), PollOpt::edge());
    let back = event_from_raw(RawEvent { events: ctl.events, data: ctl.data });
    assert_eq!(back, Event::new(Ready::readable(), Token(77)));
}

#[test]
fn select_reads_records_in_order_and_skips_the_awakener() {
    let s = selector(3);
    let records = vec![
        RawEvent { events: EPOLLIN, data: 1 },
        RawEvent { events: EPOLLIN, data: AWAKEN as u64 },
        RawEvent { events: EPOLLOUT, data: 2 },
        RawEvent { events: EPOLLERR | EPOLLIN, data: 1 },
    ];
    let mut events = vec![Event::new(Ready::all(), Token(99))];
    let awoken = s.select(&records, Token(AWAKEN), &mut events);
    assert!(awoken);
    assert_eq!(
        events,
        vec![
            Event::new(Ready::readable(), Token(1)),
            Event::new(Ready::writable(), Token(2)),
            Event::new(Ready::from_usize(0b0101), Token(1)),
        ]
    );
    let awoken = s.select(&records[..1].to_vec(), Token(AWAKEN), &mut events);
    assert!(!awoken);
    assert_eq!(events, vec![Event::new(Ready::readable(), Token(1))]);
    let awoken = s.select(&Vec::new(), Token(AWAKEN), &mut events);
    assert!(!awoken);
    assert!(events.is_empty());
}

#[test]
fn timeouts_round_up_to_milliseconds() {
    assert_eq!(timeout_millis(None), -1);
    assert_eq!(timeout_millis(None), WAIT_FOREVER);
    assert_eq!(timeout_millis(Some((0, 0))), 0);
    assert_eq!(timeout_millis(Some((0, 1))), 1);
    assert_eq!(timeout_millis(Some((0, 1_000_000))), 1);
    assert_eq!(timeout_millis(Some((0, 1_000_001))), 2);
    assert_eq!(timeout_millis(Some((1, 500_000_000))), 1500);
    assert_eq!(timeout_millis(Some((3, 999_999_999))), 4000);
    assert_eq!(timeout_millis(Some((2_147_483, 647_000_000))), 2_147_483_647);
    assert_eq!(timeout_millis(Some((2_147_483, 647_000_001))), MAX_WAIT);
    assert_eq!(timeout_millis(Some((2_147_484, 0))), MAX_WAIT);
    assert_eq!(timeout_millis(Some((u64::MAX, u32::MAX))), 0x7fff_ffff);
    assert_eq!(timeout_millis(Some((0, u32::MAX))), 4295);
}

#[test]
fn poll_does_not_block_with_events_at_hand() {
    assert_eq!(poll_millis(None, true), 0);
    assert_eq!(poll_millis(Some((5, 0)), true), 0);
    assert_eq!(poll_millis(None, false), -1);
    assert_eq!(poll_millis(Some((5, 1)), false), 5001);
}

#[test]
fn wait_makes_room_for_at_least_one_record() {
    assert_eq!(max_events(0), 1);
    assert_eq!(max_events(1), 1);
    assert_eq!(max_events(1024), 1024);
    assert_eq!(max_events(0x7fff_fffe), 0x7fff_fffe);
    assert_eq!(max_events(0x7fff_ffff), i32::MAX);
    assert_eq!(max_events(0x8000_0000), i32::MAX);
    assert_eq!(max_events(usize::MAX), i32::MAX);
}

#[test]
fn interrupted_wait_is_made_again() {
    let brought: Result<usize, Failure<&str>> = Ok(3);
    assert_eq!(after_wait(brought), Waited::Events(3));
    let interrupted = Err(Failure { kind: FailureKind::Interrupted, cause: "EINTR" });
    assert_eq!(after_wait(interrupted), Waited::Again);
    let failed = Err(Failure { kind: FailureKind::Other, cause: "EBADF" });
    assert_eq!(after_wait(failed), Waited::Failed("EBADF"));
    let blocked = Err(Failure { kind: FailureKind::WouldBlock, cause: "EAGAIN" });
    assert_eq!(after_wait(blocked), Waited::Failed("EAGAIN"));
}
