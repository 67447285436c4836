use device_setup::detail::{DriverInfoDetail, HARDWARE_ID_UNITS, SECTION_NAME_UNITS};
use device_setup::status::Error;

fn field(text: &str, capacity: usize) -> Vec<u16> {
    let mut units: Vec<u16> = text.encode_utf16().collect();
    units.resize(capacity, 0);
    units
}

fn sample() -> DriverInfoDetail {
    let mut hardware_id = field("tap0901", HARDWARE_ID_UNITS);
    let compat: Vec<u16> = "gen_a\0gen_b\0\0".encode_utf16().collect();
    hardware_id[8..8 + compat.len()].copy_from_slice(&compat);
    DriverInfoDetail {
        inf_date: 132_000_000_000_000_000,
        compat_ids_offset: 8,
        compat_ids_length: compat.len() as u32,
        section_name: field("tap0901.ndi", SECTION_NAME_UNITS),
        inf_file_name: field("C:\\Windows\\INF\\oem3.inf", 260),
        drv_description: field("TAP-Windows Adapter V9", 256),
        hardware_id,
    }
}

#[test]
fn text_fields_decode_up_to_terminator() {
    let d = sample();
    assert_eq!(d.section_name_text(), Ok("tap0901.ndi".to_string()));
    assert_eq!(d.inf_file_name_text(), Ok("C:\\Windows\\INF\\oem3.inf".to_string()));
    assert_eq!(d.description_text(), Ok("TAP-Windows Adapter V9".to_string()));
    assert_eq!(d.hardware_id_text(), Ok("tap0901".to_string()));
}

#[test]
fn compat_ids_taken_by_offset_and_length() {
    let d = sample();
    let expected: Vec<u16> = "gen_a\0gen_b\0\0".encode_utf16().collect();
    assert_eq!(d.compat_ids(), Some(expected));
}

#[test]
fn compat_ids_outside_area_are_refused() {
    let mut d = sample();
    d.compat_ids_offset = HARDWARE_ID_UNITS as u32;
    d.compat_ids_length = 1;
    assert_eq!(d.compat_ids(), None);
    d.compat_ids_offset = u32::MAX;
    assert_eq!(d.compat_ids(), None);
    d.compat_ids_offset = HARDWARE_ID_UNITS as u32;
    d.compat_ids_length = 0;
    assert_eq!(d.compat_ids(), Some(Vec::new()));
}

#[test]
fn malformed_description_is_a_decode_error() {
    let mut d = sample();
    d.drv_description[0] = 0xDC00;
    assert_eq!(d.description_text(), Err(Error::Decode));
}
