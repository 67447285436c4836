//! One-shot wait for a change of a configuration-registry key: register for
//! a notification, then block on its event up to a timeout.

use vstd::prelude::*;
use crate::status::{Error, as_signed, to_signed};

verus! {

/// Wait status: the awaited object was signalled.
pub const WAIT_OBJECT_0: u32 = 0;

/// Wait status: the timeout elapsed first.
pub const WAIT_TIMEOUT: u32 = 258;

/// Classifies the status returned by the wait on the change-notification
/// event. A signal means the key changed; an elapsed timeout is its own
/// condition, `Error::TimedOut`; any other status is a failure of the wait,
/// reported with the thread's last OS error code.
pub fn change_wait_outcome(wait_status: u32, last_error: u32) -> (r: Result<(), Error>)
    ensures
        wait_status == WAIT_OBJECT_0 ==> r == Ok::<(), Error>(()),
        wait_status == WAIT_TIMEOUT ==> r == Err::<(), Error>(Error::TimedOut),
        wait_status != WAIT_OBJECT_0 && wait_status != WAIT_TIMEOUT ==> r == Err::<(), Error>(
            Error::Facility { code: as_signed(last_error) },
        ),
{
    if wait_status == WAIT_OBJECT_0 {
        Ok(())
    } else if wait_status == WAIT_TIMEOUT {
        Err(Error::TimedOut)
    } else {
        Err(Error::Facility { code: to_signed(last_error) })
    }
}

} // verus!
