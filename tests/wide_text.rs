use device_setup::status::Error;
use device_setup::wide::{
    le_bytes_to_wide, registry_bytes_to_string, registry_string_bytes, to_wide_nul, wide_to_le_bytes,
    wide_to_string,
};

#[test]
fn to_wide_nul_appends_terminator() {
    assert_eq!(to_wide_nul("ab"), vec![97u16, 98, 0]);
    assert_eq!(to_wide_nul(""), vec![0u16]);
    assert_eq!(to_wide_nul("\u{1F600}"), vec![0xD83Du16, 0xDE00, 0]);
}

#[test]
fn wide_to_string_stops_at_terminator() {
    assert_eq!(wide_to_string(&[72, 105, 0, 88, 89]), Ok("Hi".to_string()));
    assert_eq!(wide_to_string(&[0, 72]), Ok(String::new()));
    assert_eq!(wide_to_string(&[]), Ok(String::new()));
}

#[test]
fn wide_to_string_without_terminator_takes_whole_buffer() {
    assert_eq!(wide_to_string(&[79, 75]), Ok("OK".to_string()));
}

#[test]
fn wide_to_string_decodes_surrogate_pairs() {
    assert_eq!(wide_to_string(&[0xD83D, 0xDE00, 0]), Ok("\u{1F600}".to_string()));
}

#[test]
fn wide_to_string_rejects_unpaired_surrogate() {
    assert_eq!(wide_to_string(&[0xD800, 65, 0]), Err(Error::Decode));
    assert_eq!(wide_to_string(&[65, 0xDC00]), Err(Error::Decode));
}

#[test]
fn unpaired_surrogate_after_terminator_is_ignored() {
    assert_eq!(wide_to_string(&[65, 0, 0xD800]), Ok("A".to_string()));
}

#[test]
fn le_bytes_round_trip() {
    assert_eq!(wide_to_le_bytes(&[0x1234, 0x00FF]), vec![0x34u8, 0x12, 0xFF, 0x00]);
    assert_eq!(le_bytes_to_wide(&[0x34, 0x12, 0xFF, 0x00]), vec![0x1234u16, 0x00FF]);
    assert_eq!(le_bytes_to_wide(&[0x34, 0x12, 0x99]), vec![0x1234u16]);
}

#[test]
fn registry_string_bytes_is_utf16le_with_terminator() {
    assert_eq!(registry_string_bytes("Hi"), vec![72u8, 0, 105, 0, 0, 0]);
    assert_eq!(registry_string_bytes(""), vec![0u8, 0]);
    assert_eq!(registry_string_bytes("\u{e9}"), vec![0xE9u8, 0, 0, 0]);
}

#[test]
fn registry_string_decodes_whole_text_whatever_the_capacity() {
    let text = "ROOT\\NET\\0000";
    let exact = registry_string_bytes(text);
    assert_eq!(registry_bytes_to_string(&exact), Ok(text.to_string()));
    for extra in [1usize, 2, 3, 17, 64] {
        let mut padded = exact.clone();
        padded.extend(std::iter::repeat(0xAAu8).take(extra));
        assert_eq!(registry_bytes_to_string(&padded), Ok(text.to_string()));
    }
}

#[test]
fn registry_string_round_trips_non_ascii() {
    let text = "Carte r\u{e9}seau \u{1F600}";
    assert_eq!(registry_bytes_to_string(&registry_string_bytes(text)), Ok(text.to_string()));
}
