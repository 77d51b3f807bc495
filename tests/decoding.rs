use heartrate_monitor::measurement::{decode, HeartRateReading, MalformedPayload};

fn reading(value: u16, contact: Option<bool>) -> HeartRateReading {
    HeartRateReading { value, sensor_contact_detected: contact }
}

#[test]
fn eight_bit_value_without_contact_support() {
    assert_eq!(decode(&[0x00, 0x4B]), Ok(reading(75, None)));
}

#[test]
fn eight_bit_value_with_contact_detected() {
    assert_eq!(decode(&[0x06, 0x4B]), Ok(reading(75, Some(true))));
}

#[test]
fn sixteen_bit_value_needs_two_bytes() {
    assert_eq!(decode(&[0x05, 0x4B]), Err(MalformedPayload::MissingValueBytes));
    assert_eq!(decode(&[0x05, 0x4B, 0x00]), Ok(reading(75, Some(false))));
}

#[test]
fn sixteen_bit_value_is_little_endian() {
    assert_eq!(decode(&[0x01, 0x34, 0x12]), Ok(reading(0x1234, None)));
    assert_eq!(decode(&[0x01, 0xFF, 0xFF]), Ok(reading(u16::MAX, None)));
}

#[test]
fn narrow_value_ignores_following_bytes() {
    assert_eq!(decode(&[0x00, 0xC8, 0x01, 0x02]), Ok(reading(200, None)));
    assert_eq!(decode(&[0x00, 0xFF]), Ok(reading(255, None)));
}

#[test]
fn contact_bit_ignored_without_support_bit() {
    assert_eq!(decode(&[0x02, 0x50]), Ok(reading(80, None)));
    assert_eq!(decode(&[0x03, 0x50, 0x00]), Ok(reading(80, None)));
}

#[test]
fn contact_bit_reported_with_support_bit() {
    assert_eq!(decode(&[0x04, 0x50]), Ok(reading(80, Some(false))));
    assert_eq!(decode(&[0x07, 0x50, 0x01]), Ok(reading(336, Some(true))));
}

#[test]
fn other_flag_bits_are_ignored() {
    assert_eq!(decode(&[0xF8, 0x3C, 0x11, 0x22]), Ok(reading(60, None)));
    assert_eq!(decode(&[0xFE, 0x3C]), Ok(reading(60, Some(true))));
}

#[test]
fn empty_payload_is_malformed() {
    assert_eq!(decode(&[]), Err(MalformedPayload::MissingFlags));
    assert_eq!(MalformedPayload::MissingFlags.reason(), "missing flags");
}

#[test]
fn flags_without_value_are_malformed() {
    assert_eq!(decode(&[0x01]), Err(MalformedPayload::MissingValueBytes));
    assert_eq!(decode(&[0x00]), Err(MalformedPayload::MissingValueBytes));
    assert_eq!(MalformedPayload::MissingValueBytes.reason(), "missing value byte(s)");
}
