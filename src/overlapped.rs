//! Overlapped reads and writes made synchronous: the transfer is issued with
//! a fresh event attached, and when the facility answers "pending" the caller
//! blocks on its completion before returning.

use vstd::prelude::*;
use crate::status::{Error, ERROR_IO_PENDING, facility_error, is_win32_error};

verus! {

/// The issuing call was queued; its completion has to be awaited.
pub open spec fn is_io_pending(e: Error) -> bool {
    e == facility_error(ERROR_IO_PENDING)
}

/// Where a transfer stands once it has been issued.
#[derive(Clone, Copy, Debug, PartialEq, Eq, Structural)]
pub enum Issued {
    /// The transfer completed at once, moving this many bytes.
    Completed(usize),
    /// The transfer is under way; wait for its completion.
    Pending,
}

/// Handles the reply of the read or write call: `Ok(n)` when it completed at
/// once with `n` bytes transferred. "I/O pending" means the completion must
/// be awaited; any other failure ends the transfer with that error.
pub fn after_issue(issued: Result<u32, Error>) -> (r: Result<Issued, Error>)
    ensures
        match issued {
            Ok(n) => r == Ok::<Issued, Error>(Issued::Completed(n as usize)) && n as usize == n,
            Err(e) => if is_io_pending(e) {
                r == Ok::<Issued, Error>(Issued::Pending)
            } else {
                r == Err::<Issued, Error>(e)
            },
        },
{
    match issued {
        Ok(n) => Ok(Issued::Completed(n as usize)),
        Err(e) => if is_win32_error(e, ERROR_IO_PENDING) {
            Ok(Issued::Pending)
        } else {
            Err(e)
        },
    }
}

/// Handles the result of the blocking wait for a pending transfer: the byte
/// count that the completion reports, or the failure of the wait.
pub fn after_wait(waited: Result<u32, Error>) -> (r: Result<usize, Error>)
    ensures
        match waited {
            Ok(n) => r == Ok::<usize, Error>(n as usize) && n as usize == n,
            Err(e) => r == Err::<usize, Error>(e),
        },
{
    match waited {
        Ok(n) => Ok(n as usize),
        Err(e) => Err(e),
    }
}

} // verus!
