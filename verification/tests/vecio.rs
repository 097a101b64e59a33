use futures_net::vecio::{readv_args, writev_args};
use iovec::IoVec;

#[test]
fn write_is_handed_every_buffer() {
    let a = b"hello".to_vec();
    let b = b"wide world".to_vec();
    let bufs: &[&IoVec] = &[a[..].into(), b[..].into()];
    let (os, count) = writev_args(bufs);
    assert_eq!(count, 2);
    assert_eq!(os.len(), 2);
    assert_eq!(os[0].iov_len, 5);
    assert_eq!(os[1].iov_len, 10);
    let none: &[&IoVec] = &[];
    let (os, count) = writev_args(none);
    assert_eq!(count, 0);
    assert!(os.is_empty());
}

#[test]
fn read_is_handed_every_buffer() {
    let mut a = [0u8; 10];
    let mut b = [0u8; 3];
    let mut c = [0u8; 1];
    let bufs: &mut [&mut IoVec] = &mut [
        (&mut a[..]).into(),
        (&mut b[..]).into(),
        (&mut c[..]).into(),
    ];
    let (os, count) = readv_args(bufs);
    assert_eq!(count, 3);
    assert_eq!(os.len(), 3);
    assert_eq!(os[0].iov_len, 10);
    assert_eq!(os[1].iov_len, 3);
    assert_eq!(os[2].iov_len, 1);
}
