use device_setup::probe::{buffer_for_probe, property_from_fetch, zeroed_buffer};
use device_setup::status::{error_from_win32, Error, ERROR_INSUFFICIENT_BUFFER, ERROR_NO_MORE_ITEMS};
use device_setup::wide::registry_string_bytes;

#[test]
fn insufficient_buffer_leads_to_sized_fetch() {
    let r = buffer_for_probe(Err(error_from_win32(ERROR_INSUFFICIENT_BUFFER)), 24);
    assert_eq!(r, Ok(vec![0u8; 24]));
}

#[test]
fn successful_probe_also_leads_to_fetch() {
    assert_eq!(buffer_for_probe(Ok(()), 6), Ok(vec![0u8; 6]));
    assert_eq!(buffer_for_probe(Ok(()), 0), Ok(Vec::new()));
}

#[test]
fn other_probe_errors_are_surfaced() {
    let denied = error_from_win32(5);
    assert_eq!(buffer_for_probe(Err(denied), 24), Err(denied));
    let invalid = error_from_win32(13);
    assert_eq!(buffer_for_probe(Err(invalid), 0), Err(invalid));
    assert_eq!(buffer_for_probe(Err(Error::Decode), 8), Err(Error::Decode));
}

#[test]
fn fetch_error_is_always_fatal() {
    let e = error_from_win32(ERROR_INSUFFICIENT_BUFFER);
    assert_eq!(property_from_fetch(Err(e), &[65, 0, 0, 0]), Err(e));
    let gone = error_from_win32(ERROR_NO_MORE_ITEMS);
    assert_eq!(property_from_fetch(Err(gone), &[]), Err(gone));
}

#[test]
fn fetched_property_is_decoded() {
    let bytes = registry_string_bytes("tap0901");
    assert_eq!(property_from_fetch(Ok(()), &bytes), Ok("tap0901".to_string()));
}

#[test]
fn malformed_property_is_a_decode_error() {
    assert_eq!(property_from_fetch(Ok(()), &[0x00, 0xD8, 0x41, 0x00, 0, 0]), Err(Error::Decode));
}

#[test]
fn two_phase_query_against_simulated_property() {
    let stored = registry_string_bytes("Virtual Ethernet Adapter");
    let required = stored.len() as u32;
    let mut buffer = buffer_for_probe(Err(error_from_win32(ERROR_INSUFFICIENT_BUFFER)), required).unwrap();
    assert_eq!(buffer.len(), stored.len());
    buffer.copy_from_slice(&stored);
    assert_eq!(property_from_fetch(Ok(()), &buffer), Ok("Virtual Ethernet Adapter".to_string()));
}

#[test]
fn zeroed_buffer_has_requested_length() {
    assert_eq!(zeroed_buffer(0), Vec::<u8>::new());
    assert_eq!(zeroed_buffer(3), vec![0u8, 0, 0]);
}
