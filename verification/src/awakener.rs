//! The self-pipe that interrupts a blocking wait.
//!
//! One end of a pipe is registered with the multiplexer; a byte written to
//! the other end makes it readable and so ends the wait. The awakener holds
//! the two ends and decides what the outcome of each write and read means;
//! the writes and reads are made by its owner.

use vstd::prelude::*;
use crate::sys::Failure;
use crate::sys::FailureKind;

verus! {

/// The byte that a wake-up writes. Its value carries no meaning.
pub const WAKE_BYTE: u8 = 1;

/// The most bytes that one read of the drain asks for.
pub const DRAIN_CHUNK: usize = 128;

/// The two ends of the pipe: `reader` is registered with the multiplexer,
/// `writer` is written to for a wake-up. Both are non-blocking.
pub struct Awakener<P> {
    reader: P,
    writer: P,
}

impl<P> Awakener<P> {
    /// The end that the multiplexer watches.
    pub closed spec fn spec_reader(&self) -> P {
        self.reader
    }

    /// The end that wake-ups are written to.
    pub closed spec fn spec_writer(&self) -> P {
        self.writer
    }

    /// Makes an awakener from the outcome of opening a pipe: from its read
    /// and write end, in that order, or else the error is handed on.
    pub fn new<E>(pipe: Result<(P, P), E>) -> (r: Result<Awakener<P>, E>)
        ensures
            match pipe {
                Ok((rd, wr)) => r is Ok && r->Ok_0.spec_reader() == rd && r->Ok_0.spec_writer()
                    == wr,
                Err(e) => r == Err::<Awakener<P>, E>(e),
            },
    {
        match pipe {
            Ok((rd, wr)) => Ok(Awakener { reader: rd, writer: wr }),
            Err(e) => Err(e),
        }
    }

    /// Says what a wake-up came to, given the outcome of writing
    /// [`WAKE_BYTE`] to the write end.
    ///
    /// A write that would block counts as success: the pipe is full, so the
    /// read end is readable already and the wait ends without another byte.
    /// Any other failure is handed on.
    pub fn wakeup<E>(&self, written: Result<usize, Failure<E>>) -> (r: Result<(), E>)
        ensures
            match written {
                Ok(_) => r is Ok,
                Err(failure) => if failure.kind == FailureKind::WouldBlock {
                    r is Ok
                } else {
                    r == Err::<(), E>(failure.cause)
                },
            },
    {
        match written {
            Ok(_) => Ok(()),
            Err(failure) => {
                match failure.kind {
                    FailureKind::WouldBlock => Ok(()),
                    _ => Err(failure.cause),
                }
            },
        }
    }

    /// Says whether the drain goes on, given the outcome of reading up to
    /// [`DRAIN_CHUNK`] bytes from the read end.
    ///
    /// The drain reads again as long as a read brought bytes, and ends with
    /// the first read that brought none or failed: the pipe is then empty,
    /// so the next wake-up makes the read end readable anew.
    pub fn cleanup<E>(&self, read: &Result<usize, E>) -> (again: bool)
        ensures
            again == (read matches Ok(n) && n > 0),
    {
        match read {
            Ok(n) => *n > 0,
            Err(_) => false,
        }
    }

    /// The end that the multiplexer watches.
    pub fn reader(&self) -> (end: &P)
        ensures
            *end == self.spec_reader(),
    {
        &self.reader
    }

    /// The end that wake-ups are written to.
    pub fn writer(&self) -> (end: &P)
        ensures
            *end == self.spec_writer(),
    {
        &self.writer
    }
}

} // verus!
