use minibox::xbox::is_xbox_controller;

#[test]
fn classifier_accepts_matching_payload() {
    // Manufacturer-specific record with vendor code 0x0006, then a
    // partial 16-bit UUID record carrying the HID service UUID 0x1812.
    let p = [0x03, 0xFF, 0x06, 0x00, 0x03, 0x02, 0x12, 0x18];
    assert!(is_xbox_controller(&p));
}

#[test]
fn classifier_accepts_complete_uuid_list() {
    // The HID UUID sits in the second chunk of a complete-UUID record.
    let p = [0x03, 0xFF, 0x06, 0x00, 0x05, 0x03, 0xAA, 0xBB, 0x12, 0x18];
    assert!(is_xbox_controller(&p));
}

#[test]
fn classifier_rejects_without_uuid_record() {
    let p = [0x03, 0xFF, 0x06, 0x00];
    assert!(!is_xbox_controller(&p));
}

#[test]
fn classifier_rejects_without_manufacturer_record() {
    let p = [0x03, 0x02, 0x12, 0x18];
    assert!(!is_xbox_controller(&p));
}

#[test]
fn classifier_rejects_wrong_vendor_code() {
    let p = [0x03, 0xFF, 0x07, 0x00, 0x03, 0x02, 0x12, 0x18];
    assert!(!is_xbox_controller(&p));
}

#[test]
fn classifier_rejects_overlong_record() {
    // The second record claims 5 bytes but only 3 remain: scanning must
    // stop there, without reading out of bounds.
    let p = [0x03, 0xFF, 0x06, 0x00, 0x05, 0x02, 0x12, 0x18];
    assert!(!is_xbox_controller(&p));
}

#[test]
fn classifier_stops_at_zero_length_record() {
    let p = [0x03, 0xFF, 0x06, 0x00, 0x00, 0x02, 0x12, 0x18];
    assert!(!is_xbox_controller(&p));
}

#[test]
fn classifier_match_before_trailing_garbage() {
    // Both records precede a truncated trailer; the earlier matches win.
    let p = [0x03, 0xFF, 0x06, 0x00, 0x03, 0x02, 0x12, 0x18, 0x09];
    assert!(is_xbox_controller(&p));
}

#[test]
fn classifier_rejects_empty_payload() {
    let p: [u8; 0] = [];
    assert!(!is_xbox_controller(&p));
}

#[test]
fn classifier_ignores_incomplete_uuid_chunk() {
    // A lone trailing byte is not a complete chunk and cannot match.
    let p = [0x03, 0xFF, 0x06, 0x00, 0x02, 0x02, 0x12];
    assert!(!is_xbox_controller(&p));
}
