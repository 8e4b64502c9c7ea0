use optee_teec::{Error, Uuid};

#[test]
fn parse_then_render_roundtrips_lowercase() {
    let text = "8abcf200-2450-11e4-abe2-0002a5d5c51b";
    let uuid = Uuid::parse_str(text).unwrap();
    assert_eq!(uuid.to_canonical_string(), text);
}

#[test]
fn parse_then_render_lowercases_uppercase_input() {
    let uuid = Uuid::parse_str("8ABCF200-2450-11E4-ABE2-0002A5D5C51B").unwrap();
    assert_eq!(uuid.to_canonical_string(), "8abcf200-2450-11e4-abe2-0002a5d5c51b");
}

#[test]
fn parse_fields_are_big_endian() {
    let uuid = Uuid::parse_str("8abcf200-2450-11e4-abe2-0002a5d5c51b").unwrap();
    let (time_low, time_mid, time_hi_and_version, node) = uuid.as_fields();
    assert_eq!(time_low, 0x8abcf200);
    assert_eq!(time_mid, 0x2450);
    assert_eq!(time_hi_and_version, 0x11e4);
    assert_eq!(node, [0xab, 0xe2, 0x00, 0x02, 0xa5, 0xd5, 0xc5, 0x1b]);
}

#[test]
fn parse_rejects_malformed_text() {
    assert_eq!(Uuid::parse_str(""), Err(Error::ParseError));
    assert_eq!(Uuid::parse_str("8abcf200-2450-11e4-abe2-0002a5d5c51"), Err(Error::ParseError));
    assert_eq!(Uuid::parse_str("8abcf200-2450-11e4-abe2-0002a5d5c51bb"), Err(Error::ParseError));
    assert_eq!(Uuid::parse_str("8abcf200x2450-11e4-abe2-0002a5d5c51b"), Err(Error::ParseError));
    assert_eq!(Uuid::parse_str("8abcf200-2450-11e4-abe2-0002a5d5c51g"), Err(Error::ParseError));
    assert_eq!(Uuid::parse_str("8abcf2002450-11e4--abe20002a5d5c51b1"), Err(Error::ParseError));
}

#[test]
fn from_bytes_recovers_the_four_fields() {
    let bytes: [u8; 16] = [70, 235, 208, 238, 14, 109, 67, 201, 185, 13, 204, 195, 90, 145, 63, 62];
    let uuid = Uuid::from_bytes(bytes);
    let (time_low, time_mid, time_hi_and_version, node) = uuid.as_fields();
    assert_eq!(time_low, 0x46ebd0ee);
    assert_eq!(time_mid, 0x0e6d);
    assert_eq!(time_hi_and_version, 0x43c9);
    assert_eq!(node, [185, 13, 204, 195, 90, 145, 63, 62]);
    assert_eq!(uuid.to_bytes(), bytes.to_vec());
}

#[test]
fn from_slice_accepts_exactly_sixteen_bytes() {
    let bytes: [u8; 16] = [70, 235, 208, 238, 14, 109, 67, 201, 185, 13, 204, 195, 90, 145, 63, 62];
    let uuid = Uuid::from_slice(&bytes).unwrap();
    assert_eq!(uuid, Uuid::from_bytes(bytes));
    assert_eq!(Uuid::from_slice(&bytes[..15]), Err(Error::ParseError));
    assert_eq!(Uuid::from_slice(&[]), Err(Error::ParseError));
    assert_eq!(Uuid::from_slice(&[0u8; 17]), Err(Error::ParseError));
}

#[test]
fn new_raw_keeps_the_fields() {
    let node = [0xab, 0xe2, 0x00, 0x02, 0xa5, 0xd5, 0xc5, 0x1b];
    let uuid = Uuid::new_raw(0x8abcf200, 0x2450, 0x11e4, node);
    assert_eq!(uuid.as_fields(), (0x8abcf200, 0x2450, 0x11e4, node));
    assert_eq!(uuid.to_canonical_string(), "8abcf200-2450-11e4-abe2-0002a5d5c51b");
}

#[test]
fn render_pads_every_field_with_zeroes() {
    let uuid = Uuid::new_raw(0x1, 0x2, 0x3, [0, 0, 0, 0, 0, 0, 0, 4]);
    assert_eq!(uuid.to_canonical_string(), "00000001-0002-0003-0000-000000000004");
}
