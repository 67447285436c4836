use device_setup::overlapped::{after_issue, after_wait, Issued};
use device_setup::status::{error_from_win32, Error, ERROR_IO_PENDING};

#[test]
fn immediate_completion_returns_count() {
    assert_eq!(after_issue(Ok(1500)), Ok(Issued::Completed(1500)));
    assert_eq!(after_issue(Ok(0)), Ok(Issued::Completed(0)));
}

#[test]
fn pending_then_signalled_returns_completion_count() {
    assert_eq!(after_issue(Err(error_from_win32(ERROR_IO_PENDING))), Ok(Issued::Pending));
    assert_eq!(after_wait(Ok(42)), Ok(42));
    assert_eq!(after_wait(Ok(u32::MAX)), Ok(u32::MAX as usize));
}

#[test]
fn other_issue_errors_are_fatal() {
    let e = error_from_win32(6);
    assert_eq!(after_issue(Err(e)), Err(e));
    assert_eq!(after_issue(Err(Error::Decode)), Err(Error::Decode));
}

#[test]
fn failed_completion_wait_is_reported() {
    let e = error_from_win32(995);
    assert_eq!(after_wait(Err(e)), Err(e));
}
