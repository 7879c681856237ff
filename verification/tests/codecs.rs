use postgres_types::Type;
use psqlpy::codecs::{array_type_to_single_type, InternalChar, InternalUuid, RawBuf, ANY_OID, CHAR_OID};

#[test]
fn from_sql_round_trips_full_byte_range() {
    for b in 0u16..=255 {
        let byte = b as u8;
        let buf = [byte];
        let decoded = InternalChar::from_sql(&buf).expect("char decode");
        assert_eq!(decoded.byte(), byte, "byte 0x{byte:02x} not preserved");
    }
}

#[test]
fn accepts_only_char_type() {
    assert!(InternalChar::accepts(Type::CHAR.oid()));
    assert!(!InternalChar::accepts(Type::TEXT.oid()));
    assert!(!InternalChar::accepts(Type::VARCHAR.oid()));
    assert!(!InternalChar::accepts(Type::BPCHAR.oid()));
}

#[test]
fn char_oid_matches_postgres() {
    assert_eq!(CHAR_OID, Type::CHAR.oid());
    assert_eq!(ANY_OID, Type::ANY.oid());
}

#[test]
fn internal_char_wrong_length() {
    assert_eq!(InternalChar::from_sql(&[]).unwrap_err(), "\"char\" expected 1 byte, got 0");
    assert_eq!(InternalChar::from_sql(&[1, 2]).unwrap_err(), "\"char\" expected 1 byte, got 2");
}

#[test]
fn internal_char_is_latin1() {
    let c = InternalChar::from_sql(&[0xe9]).unwrap();
    assert_eq!(c.to_char(), 'é');
    assert_eq!(InternalChar::from_sql(&[b'a']).unwrap().to_char(), 'a');
}

#[test]
fn raw_buf_keeps_bytes() {
    let bytes = [1u8, 2, 3];
    assert_eq!(RawBuf::from_sql_nullable(Some(&bytes)).0, Some(&bytes[..]));
    assert_eq!(RawBuf::from_sql_nullable(None).0, None);
    assert!(RawBuf::accepts(Type::INT4.oid()));
}

#[test]
fn uuid_text_form() {
    let raw: Vec<u8> = vec![
        0x12, 0x3e, 0x45, 0x67, 0xe8, 0x9b, 0x12, 0xd3, 0xa4, 0x56, 0x42, 0x66, 0x14, 0x17, 0x40, 0x00,
    ];
    let u = InternalUuid::from_sql(&raw).unwrap();
    assert_eq!(u.to_text(), "123e4567-e89b-12d3-a456-426614174000");
    let zero = InternalUuid::from_sql(&[0u8; 16]).unwrap();
    assert_eq!(zero.to_text(), "00000000-0000-0000-0000-000000000000");
    let ff = InternalUuid::from_sql(&[0xffu8; 16]).unwrap();
    assert_eq!(ff.to_text(), "ffffffff-ffff-ffff-ffff-ffffffffffff");
    assert!(InternalUuid::accepts(Type::UUID.oid()));
}

#[test]
fn uuid_wrong_length() {
    assert_eq!(
        InternalUuid::from_sql(&[0u8; 15]).unwrap_err(),
        "invalid message length: uuid size mismatch"
    );
}

#[test]
fn array_types_map_to_elements() {
    assert_eq!(array_type_to_single_type(Type::BOOL_ARRAY.oid()), Type::BOOL.oid());
    assert_eq!(array_type_to_single_type(Type::INT4_ARRAY.oid()), Type::INT4.oid());
    assert_eq!(array_type_to_single_type(Type::TEXT_ARRAY.oid()), Type::TEXT.oid());
    assert_eq!(array_type_to_single_type(Type::VARCHAR_ARRAY.oid()), Type::VARCHAR.oid());
    assert_eq!(array_type_to_single_type(Type::UUID_ARRAY.oid()), Type::UUID_ARRAY.oid());
    assert_eq!(array_type_to_single_type(Type::INT4.oid()), ANY_OID);
}
