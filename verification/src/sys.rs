//! What the reactor makes of the outcomes of system calls.
//!
//! The calls themselves are made elsewhere; these functions take what a call
//! returned and say what it means.

use vstd::prelude::*;

verus! {

/// How the reactor tells the failures of a system call apart.
#[derive(Copy, Clone, Debug, PartialEq, Eq, Structural)]
pub enum FailureKind {
    /// The operation could not be done at once on a non-blocking descriptor.
    WouldBlock,
    /// A signal arrived before the call had done anything.
    Interrupted,
    /// Any other failure.
    Other,
}

/// A failed system call: what kind of failure it was, and the error itself,
/// which the reactor only carries along.
#[derive(Debug)]
pub struct Failure<E> {
    pub kind: FailureKind,
    pub cause: E,
}

/// Either a result that is there now, or word that it is not there yet and
/// the caller has to suspend.
#[derive(Debug, PartialEq, Eq)]
pub enum Step<T> {
    Ready(T),
    Pending,
}

/// Return values among which -1 reports a failed system call.
pub trait IsMinusOne {
    /// Whether the value is -1.
    spec fn minus_one(&self) -> bool;

    /// Whether the value is -1.
    fn is_minus_one(&self) -> (r: bool)
        ensures
            r == self.minus_one(),
    ;
}

impl IsMinusOne for i32 {
    open spec fn minus_one(&self) -> bool {
        *self == -1
    }

    fn is_minus_one(&self) -> (r: bool)
        ensures
            r == (*self == -1),
    {
        *self == -1
    }
}

impl IsMinusOne for isize {
    open spec fn minus_one(&self) -> bool {
        *self == -1
    }

    fn is_minus_one(&self) -> (r: bool)
        ensures
            r == (*self == -1),
    {
        *self == -1
    }
}

/// Turns the return value of a system call into a result: -1 gives the
/// error that the operating system holds for the call, read by the caller as
/// `os_error`; any other value is handed back.
pub fn cvt<T: IsMinusOne, E>(t: T, os_error: E) -> (r: Result<T, E>)
    ensures
        t.minus_one() ==> r == Err::<T, E>(os_error),
        !t.minus_one() ==> r == Ok::<T, E>(t),
{
    if t.is_minus_one() {
        Err(os_error)
    } else {
        Ok(t)
    }
}

/// The greatest count that a system call takes: counts are handed over as
/// signed 32-bit numbers.
pub const COUNT_MAX: usize = 0x7fff_ffff;

/// The count to hand to a system call when `len` items are at hand, such as
/// the buffers of a vectored read or write, or the room for event records:
/// all of them, up to the greatest count that a call takes.
pub fn bounded_count(len: usize) -> (count: i32)
    ensures
        len <= COUNT_MAX ==> count == len,
        len > COUNT_MAX ==> count == COUNT_MAX,
{
    if len < COUNT_MAX {
        len as i32
    } else {
        0x7fff_ffff
    }
}

/// Turns the return value of a vectored read or write into a result: a
/// negative value gives the error that the operating system holds for the
/// call, read by the caller as `os_error`; any other value is the number of
/// bytes moved.
pub fn transferred<E>(rc: isize, os_error: E) -> (r: Result<usize, E>)
    ensures
        rc < 0 ==> r == Err::<usize, E>(os_error),
        rc >= 0 ==> r == Ok::<usize, E>(rc as usize),
{
    if rc < 0 {
        Err(os_error)
    } else {
        Ok(rc as usize)
    }
}

} // verus!
