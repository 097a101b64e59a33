use futures_net::event::{kind_mut, Event};
use futures_net::poll_opt::{opt_as_usize, opt_from_usize, PollOpt};
use futures_net::ready::{
    ready_as_usize, ready_from_usize, Ready, ERROR, HUP, LIO, PRI, READY_ALL,
};
use futures_net::token::Token;
use futures_net::unix_ready::UnixReady;

#[test]
fn test_debug_pollopt() {
    assert_eq!("(empty)", PollOpt::empty().fmt());
    assert_eq!("Edge-Triggered", PollOpt::edge().fmt());
    assert_eq!("Level-Triggered", PollOpt::level().fmt());
    assert_eq!("OneShot", PollOpt::oneshot().fmt());
}

#[test]
fn test_debug_ready() {
    assert_eq!("(empty)", Ready::empty().fmt());
    assert_eq!("Readable", Ready::readable().fmt());
    assert_eq!("Writable", Ready::writable().fmt());
}

#[test]
fn test_ready_all() {
    let readable = Ready::readable().as_usize();
    let writable = Ready::writable().as_usize();

    assert_eq!(
        READY_ALL | readable | writable,
        ERROR + HUP + LIO + PRI + readable + writable
    );

    assert!(!Ready::from(UnixReady::priority()).is_writable());
}

#[test]
fn fmt_joins_names_in_fixed_order() {
    assert_eq!("Readable | Writable", (Ready::writable() | Ready::readable()).fmt());
    assert_eq!(
        "Readable | Writable | Error | Hup",
        Ready::from_usize(0b1111).fmt()
    );
    assert_eq!("Error", Ready::from(UnixReady::error()).fmt());
    assert_eq!("(empty)", Ready::from(UnixReady::priority()).fmt());
    assert_eq!(
        "Edge-Triggered | OneShot",
        (PollOpt::oneshot() | PollOpt::edge()).fmt()
    );
    assert_eq!(
        "Edge-Triggered | Level-Triggered | OneShot",
        PollOpt::all().fmt()
    );
    assert_eq!("(empty)", PollOpt::urgent().fmt());
    assert_eq!("Priority", UnixReady::priority().fmt());
    assert_eq!(
        "Readable | Hup | Priority",
        (UnixReady::from(Ready::readable()) | UnixReady::hup() | UnixReady::priority()).fmt()
    );
    assert_eq!(
        "Readable | Writable | Error | Hup | Priority",
        UnixReady::from(Ready::all()).fmt()
    );
    assert_eq!("(empty)", UnixReady::from(Ready::empty()).fmt());
}

#[test]
fn union_contains_operands() {
    let masks = [0usize, 1, 2, 3, 4, 8, 0x40, 0x4f, 0xff, usize::MAX];
    for &x in masks.iter() {
        for &y in masks.iter() {
            let a = Ready::from_usize(x);
            let b = Ready::from_usize(y);
            assert!((a | b).contains(a));
            assert!((a | b).contains(b));
            assert!(a.contains(a));
            assert!((a - a).is_empty());
            assert_eq!(a.contains(b), (a & b) == b);
        }
    }
}

#[test]
fn edge_oneshot_is_not_level() {
    let opts = PollOpt::edge() | PollOpt::oneshot();
    assert!(opts.is_edge() && opts.is_oneshot() && !opts.is_level());
    assert!(!opts.is_urgent());
    assert_eq!(opts.bits(), 0b0101);
}

#[test]
fn ready_constructors_and_masks() {
    assert_eq!(Ready::empty().bits(), 0);
    assert_eq!(Ready::readable().bits(), 0b00001);
    assert_eq!(Ready::writable().bits(), 0b00010);
    assert_eq!(Ready::all().bits(), 0b100_1111);
    assert_eq!(READY_ALL, 0b100_1100);
    assert!(Ready::empty().is_empty());
    assert!(!Ready::readable().is_empty());
    assert!(Ready::readable().is_readable());
    assert!(!Ready::readable().is_writable());
    assert!(Ready::writable().is_writable());
    assert!(Ready::all().is_readable() && Ready::all().is_writable());
    assert_eq!(Ready::from_usize(0x123).as_usize(), 0x123);
    assert_eq!(ready_as_usize(ready_from_usize(77)), 77);
    assert_eq!(ready_from_usize(1), Ready::readable());
}

#[test]
fn ready_insert_and_remove() {
    let mut r = Ready::empty();
    r.insert(Ready::readable());
    assert_eq!(r, Ready::readable());
    r.insert(Ready::writable());
    assert_eq!(r.bits(), 3);
    r.remove(Ready::readable());
    assert_eq!(r, Ready::writable());
    r.remove(Ready::readable());
    assert_eq!(r, Ready::writable());
    r.remove(Ready::all());
    assert!(r.is_empty());
}

#[test]
fn ready_operators() {
    let a = Ready::from_usize(0b0110);
    let b = Ready::from_usize(0b0011);
    assert_eq!((a | b).bits(), 0b0111);
    assert_eq!((a & b).bits(), 0b0010);
    assert_eq!((a ^ b).bits(), 0b0101);
    assert_eq!((a - b).bits(), 0b0100);
    assert_eq!((!a).bits(), !0b0110usize);
    let mut c = a;
    c |= b;
    assert_eq!(c.bits(), 0b0111);
    c &= b;
    assert_eq!(c.bits(), 0b0011);
    c ^= a;
    assert_eq!(c.bits(), 0b0101);
    c -= Ready::readable();
    assert_eq!(c.bits(), 0b0100);
}

#[test]
fn ready_operators_with_platform_kinds() {
    let ready = Ready::readable() | UnixReady::hup();
    assert!(ready.is_readable());
    assert!(UnixReady::from(ready).is_hup());
    assert_eq!((ready & UnixReady::hup()).bits(), HUP);
    assert_eq!((ready ^ UnixReady::hup()).bits(), 1);
    assert_eq!((ready - UnixReady::hup()).bits(), 1);
    let mut r = Ready::writable();
    r |= UnixReady::error();
    assert_eq!(r.bits(), 0b0110);
    r &= UnixReady::error();
    assert_eq!(r.bits(), ERROR);
    r ^= UnixReady::priority();
    assert_eq!(r.bits(), ERROR | PRI);
    r -= UnixReady::error();
    assert_eq!(r.bits(), PRI);
}

#[test]
fn poll_opt_constructors_and_masks() {
    assert_eq!(PollOpt::empty().bits(), 0);
    assert_eq!(PollOpt::edge().bits(), 0b0001);
    assert_eq!(PollOpt::level().bits(), 0b0010);
    assert_eq!(PollOpt::oneshot().bits(), 0b0100);
    assert_eq!(PollOpt::urgent().bits(), 0b1000);
    assert_eq!(PollOpt::all().bits(), 0b0111);
    assert!(PollOpt::edge().is_edge());
    assert!(!PollOpt::edge().is_level());
    assert!(PollOpt::level().is_level());
    assert!(PollOpt::oneshot().is_oneshot());
    assert!(PollOpt::urgent().is_urgent());
    assert!(!PollOpt::all().is_urgent());
    assert!(PollOpt::all().contains(PollOpt::edge() | PollOpt::level()));
    assert!(!PollOpt::edge().contains(PollOpt::all()));
    assert_eq!(opt_as_usize(opt_from_usize(5)), 5);
    assert_eq!(opt_from_usize(2), PollOpt::level());
}

#[test]
fn poll_opt_insert_remove_and_operators() {
    let mut o = PollOpt::empty();
    o.insert(PollOpt::edge());
    o.insert(PollOpt::oneshot());
    assert_eq!(o.bits(), 0b0101);
    o.remove(PollOpt::edge());
    assert_eq!(o, PollOpt::oneshot());
    let a = opt_from_usize(0b0110);
    let b = opt_from_usize(0b0011);
    assert_eq!((a | b).bits(), 0b0111);
    assert_eq!((a & b).bits(), 0b0010);
    assert_eq!((a ^ b).bits(), 0b0101);
    assert_eq!((a - b).bits(), 0b0100);
    assert_eq!((!a).bits(), !0b0110usize);
    assert!((a - a).bits() == 0);
}

#[test]
fn unix_ready_kinds() {
    assert_eq!(UnixReady::error().bits(), 0b000_0100);
    assert_eq!(UnixReady::hup().bits(), 0b000_1000);
    assert_eq!(UnixReady::priority().bits(), 0b100_0000);
    assert!(UnixReady::error().is_error());
    assert!(UnixReady::hup().is_hup());
    assert!(UnixReady::priority().is_priority());
    assert!(!UnixReady::error().is_hup());
    assert!(!UnixReady::hup().is_priority());
    assert!(!UnixReady::priority().is_error());
}

#[test]
fn unix_ready_conversion_keeps_every_bit() {
    let ready = Ready::readable();
    let mut unix_ready = UnixReady::from(ready) | UnixReady::hup();
    unix_ready.insert(UnixReady::error());
    assert!(unix_ready.is_readable());
    assert!(unix_ready.is_hup());
    assert!(unix_ready.is_error());
    let ready = Ready::from(unix_ready);
    assert!(ready.is_readable());
    assert_eq!(ready.bits(), 0b1101);
    for mask in [0usize, 1, 0x4c, 0x4f, 0xdead_beef, usize::MAX] {
        let r = Ready::from_usize(mask);
        assert_eq!(Ready::from(UnixReady::from(r)), r);
        assert_eq!(UnixReady::from(r).bits(), mask);
        let u = UnixReady::from(r);
        assert_eq!(UnixReady::from(Ready::from(u)), u);
    }
    unix_ready.remove(UnixReady::hup());
    assert!(!unix_ready.is_hup());
    assert!(unix_ready.contains(UnixReady::error()));
    assert!(!unix_ready.contains(UnixReady::priority()));
}

#[test]
fn unix_ready_operators() {
    let a = UnixReady::error() | UnixReady::hup();
    let b = UnixReady::hup() | UnixReady::priority();
    assert_eq!((a & b), UnixReady::hup());
    assert_eq!((a ^ b), UnixReady::error() | UnixReady::priority());
    assert_eq!((a - b), UnixReady::error());
    assert_eq!((!a).bits(), !0b1100usize);
    assert!((a | b).contains(a) && (a | b).contains(b));
    assert!((a - a).is_empty());
}

#[test]
fn event_holds_readiness_and_token() {
    let mut event = Event::new(Ready::readable(), Token(7));
    assert_eq!(event.readiness(), Ready::readable());
    assert_eq!(event.token(), Token(7));
    *kind_mut(&mut event) = Ready::writable() | Ready::readable();
    assert_eq!(event.readiness().bits(), 3);
    assert_eq!(event.token(), Token(7));
    kind_mut(&mut event).remove(Ready::readable());
    assert_eq!(event, Event::new(Ready::writable(), Token(7)));
}
