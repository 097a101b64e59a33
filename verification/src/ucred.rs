//! The credentials of the process at the other end of a socket.

use vstd::prelude::*;

verus! {

/// Credentials of a process.
#[derive(Copy, Clone, Debug, PartialEq, Eq, Structural, Hash)]
pub struct UCred {
    /// The user ID of the process.
    pub uid: u32,
    /// The group ID of the process.
    pub gid: u32,
}

/// Says what a query for the credentials of a peer came to, given what the
/// socket option call returned, the length that it reported for the record
/// it filled in, the length that such a record has, and the IDs read from
/// the record.
///
/// The query succeeded if the call returned 0 and filled in a whole record.
/// If not it gives the error that the operating system holds for the call,
/// read by the caller as `os_error`.
pub fn peer_cred<E>(ret: i32, reported: usize, expected: usize, uid: u32, gid: u32, os_error: E) -> (r:
    Result<UCred, E>)
    ensures
        ret == 0 && reported == expected ==> r == Ok::<UCred, E>(UCred { uid, gid }),
        !(ret == 0 && reported == expected) ==> r == Err::<UCred, E>(os_error),
{
    if ret == 0 && reported == expected {
        Ok(UCred { uid, gid })
    } else {
        Err(os_error)
    }
}

} // verus!
