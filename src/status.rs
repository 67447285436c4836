//! Status codes of the facility and the uniform error value of this crate.

use vstd::prelude::*;
use windows::Win32::Foundation::WIN32_ERROR;

verus! {

/// Win32 status: the output buffer was too small; the required size was reported.
pub const ERROR_INSUFFICIENT_BUFFER: u32 = 122;

/// Win32 status: an enumeration index lies past the last item.
pub const ERROR_NO_MORE_ITEMS: u32 = 259;

/// Win32 status: an overlapped operation was queued and has not completed yet.
pub const ERROR_IO_PENDING: u32 = 997;

/// Every failure this crate reports.
#[derive(Clone, Copy, Debug, PartialEq, Eq, Structural)]
pub enum Error {
    /// The facility failed; `code` is the raw OS error code, as an
    /// `std::io::Error` built from it would carry it.
    Facility { code: i32 },
    /// A wide-character buffer did not hold valid UTF-16.
    Decode,
    /// A bounded wait elapsed without the awaited event.
    TimedOut,
}

/// The `i32` with the same 32 bits as `x` (two's complement).
pub open spec fn as_signed(x: u32) -> i32 {
    if x < 0x8000_0000 {
        x as i32
    } else {
        (x - 0x1_0000_0000) as i32
    }
}

/// The `i32` with the same 32 bits as `x`.
pub fn to_signed(x: u32) -> (r: i32)
    ensures
        r == as_signed(x),
{
    if x < 0x8000_0000 {
        x as i32
    } else {
        ((x - 0x8000_0000) as i32) - 0x7FFF_FFFF - 1
    }
}

/// The HRESULT that stands for a Win32 status code (`HRESULT_FROM_WIN32`):
/// codes that are zero or negative as `i32` keep their bits; the others keep
/// their low sixteen bits under the Win32 facility (7) with the failure bit
/// set, that is `0x8007_0000 | (code & 0xFFFF)`.
pub open spec fn hresult_from_win32(code: u32) -> i32 {
    if code == 0 || code >= 0x8000_0000 {
        as_signed(code)
    } else {
        (0x8007_0000 + code % 0x1_0000 - 0x1_0000_0000) as i32
    }
}

/// Relies on `windows::Win32::Foundation::WIN32_ERROR::to_hresult`, which is
/// `HRESULT::from_win32` of the code.
#[verifier::external_body]
pub(crate) fn win32_to_hresult(code: u32) -> (r: i32)
    ensures
        r == hresult_from_win32(code),
{
    WIN32_ERROR(code).to_hresult().0
}

/// The error that a failed facility call with Win32 status `code` yields.
pub open spec fn facility_error(code: u32) -> Error {
    Error::Facility { code: hresult_from_win32(code) }
}

/// The error value for a facility call that failed with Win32 status `code`.
pub fn error_from_win32(code: u32) -> (r: Error)
    ensures
        r == facility_error(code),
{
    Error::Facility { code: win32_to_hresult(code) }
}

/// Whether `e` is the facility failure with Win32 status `code`.
pub fn is_win32_error(e: Error, code: u32) -> (r: bool)
    ensures
        r == (e == facility_error(code)),
{
    match e {
        Error::Facility { code: c } => c == win32_to_hresult(code),
        _ => false,
    }
}

} // verus!
