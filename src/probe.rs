//! The two-phase "probe the size, then fetch" query: a first call with no
//! buffer reports the size it needs, a second call fills a buffer of exactly
//! that size.

use vstd::prelude::*;
use crate::status::{Error, ERROR_INSUFFICIENT_BUFFER, facility_error, is_win32_error};
use crate::wide::{decodes_wide, units_of_le_bytes, registry_bytes_to_string};

verus! {

/// The probe reported that its (absent) buffer was too small: the expected
/// reply of the first call, which carries no failure.
pub open spec fn is_insufficient_buffer(e: Error) -> bool {
    e == facility_error(ERROR_INSUFFICIENT_BUFFER)
}

/// What the first call's reply decides: the byte count of the buffer for the
/// second call, or the error that ends the query.
pub open spec fn probe_decision(first: Result<(), Error>, required_size: u32) -> Result<nat, Error> {
    match first {
        Ok(()) => Ok(required_size as nat),
        Err(e) => if is_insufficient_buffer(e) {
            Ok(required_size as nat)
        } else {
            Err(e)
        },
    }
}

pub open spec fn zeroed(n: nat) -> Seq<u8> {
    Seq::new(n, |i: int| 0u8)
}

/// A zeroed buffer of `n` bytes.
pub fn zeroed_buffer(n: usize) -> (r: Vec<u8>)
    ensures
        r@ == zeroed(n as nat),
{
    let mut buffer: Vec<u8> = Vec::new();
    let mut i: usize = 0;
    while i < n
        invariant
            0 <= i <= n,
            buffer@ == zeroed(i as nat),
        decreases n - i,
    {
        buffer.push(0);
        i = i + 1;
        assert(buffer@ =~= zeroed(i as nat));
    }
    buffer
}

/// Handles the reply of the probing call, which was made without a buffer
/// and reported `required_size` bytes. "Insufficient buffer" is the expected
/// reply and leads on to the fetch, with a zeroed buffer of exactly the
/// reported size; any other failure ends the query with that error.
pub fn buffer_for_probe(first: Result<(), Error>, required_size: u32) -> (r: Result<Vec<u8>, Error>)
    ensures
        r is Err <==> (first is Err && !is_insufficient_buffer(first->Err_0)),
        r is Err ==> r == Err::<Vec<u8>, Error>(first->Err_0),
        r is Ok ==> r->Ok_0@ == zeroed(required_size as nat),
        match probe_decision(first, required_size) {
            Ok(n) => r is Ok && r->Ok_0@ == zeroed(n),
            Err(e) => r == Err::<Vec<u8>, Error>(e),
        },
{
    match first {
        Err(e) => {
            if !is_win32_error(e, ERROR_INSUFFICIENT_BUFFER) {
                return Err(e);
            }
        },
        Ok(()) => {},
    }
    Ok(zeroed_buffer(required_size as usize))
}

/// Handles the reply of the fetching call, which filled `buffer` with a
/// registry string value: a failure is returned as it is; otherwise the
/// null-terminated little-endian UTF-16 text in the buffer is decoded, and a
/// malformed one yields `Error::Decode`, distinct from any facility error.
pub fn property_from_fetch(second: Result<(), Error>, buffer: &[u8]) -> (r: Result<String, Error>)
    ensures
        second is Err ==> r == Err::<String, Error>(second->Err_0),
        second is Ok ==> decodes_wide(units_of_le_bytes(buffer@), r),
{
    match second {
        Err(e) => Err(e),
        Ok(()) => registry_bytes_to_string(buffer),
    }
}

} // verus!
