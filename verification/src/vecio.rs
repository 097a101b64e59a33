//! Vectored reads and writes: what is handed to the operating system for a
//! list of buffers.

use vstd::prelude::*;
use crate::sys::bounded_count;
use crate::sys::COUNT_MAX;

verus! {

/// A buffer of a vectored read or write, as `iovec::IoVec` holds it.
#[verifier::external_type_specification]
#[verifier::external_body]
pub struct ExIoVec(iovec::IoVec);

/// A buffer of a vectored read or write, as the operating system takes it:
/// `libc::iovec`.
#[verifier::external_type_specification]
#[verifier::external_body]
pub struct ExOsIoVec(libc::iovec);

/// Calls `iovec::unix::as_os_slice`, which hands back the same buffers in
/// the form that the operating system takes. The contract claims only that
/// there are as many as were handed in.
#[verifier::external_body]
fn as_os_slice<'a>(bufs: &'a [&iovec::IoVec]) -> (os: &'a [libc::iovec])
    ensures
        os@.len() == bufs@.len(),
{
    iovec::unix::as_os_slice(bufs)
}

/// Calls `iovec::unix::as_os_slice_mut`, which hands back the same buffers
/// in the form that the operating system takes, for filling. The contract
/// claims only that there are as many as were handed in.
#[verifier::external_body]
fn as_os_slice_mut<'a>(bufs: &'a mut [&mut iovec::IoVec]) -> (os: &'a mut [libc::iovec])
    ensures
        os@.len() == old(bufs)@.len(),
{
    iovec::unix::as_os_slice_mut(bufs)
}

/// What a vectored write is handed for the given buffers: the buffers in
/// the form that the operating system takes, and how many of them the call
/// is to use, which is all of them up to the greatest count that a call
/// takes.
pub fn writev_args<'a>(bufs: &'a [&iovec::IoVec]) -> (args: (&'a [libc::iovec], i32))
    ensures
        args.0@.len() == bufs@.len(),
        bufs@.len() <= COUNT_MAX ==> args.1 == bufs@.len(),
        bufs@.len() > COUNT_MAX ==> args.1 == COUNT_MAX,
{
    let slice = as_os_slice(bufs);
    let count = bounded_count(slice.len());
    (slice, count)
}

/// What a vectored read is handed for the given buffers: the buffers in the
/// form that the operating system takes, for filling, and how many of them
/// the call is to use, which is all of them up to the greatest count that a
/// call takes.
pub fn readv_args<'a>(bufs: &'a mut [&mut iovec::IoVec]) -> (args: (&'a mut [libc::iovec], i32))
    ensures
        args.0@.len() == old(bufs)@.len(),
        old(bufs)@.len() <= COUNT_MAX ==> args.1 == old(bufs)@.len(),
        old(bufs)@.len() > COUNT_MAX ==> args.1 == COUNT_MAX,
{
    let slice = as_os_slice_mut(bufs);
    let count = bounded_count(slice.len());
    (slice, count)
}

} // verus!
