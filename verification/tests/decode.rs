use psqlpy::arrays::ArrayToken;
use psqlpy::decode::{
    decode_binary_value, DecodedValue, BOOL_OID, INET_OID, INT2_OID, INT4_OID, INT8_OID, MACADDR_OID, MONEY_OID,
    OID_OID, TEXT_OID, UUID_OID, VARCHAR_OID,
};
use psqlpy::errors::RustPSQLDriverError;

fn decode(oid: u32, name: &str, raw: &[u8]) -> Result<DecodedValue, RustPSQLDriverError> {
    decode_binary_value(oid, name, false, Some(raw))
}

fn conversion_message(r: Result<DecodedValue, RustPSQLDriverError>) -> String {
    match r {
        Err(RustPSQLDriverError::RustToPyValueConversionError(m)) => m,
        Err(other) => panic!("unexpected error {:?}", other),
        Ok(_) => panic!("expected a conversion error"),
    }
}

#[test]
fn null_is_null() {
    assert!(matches!(decode_binary_value(INT4_OID, "int4", false, None), Ok(DecodedValue::Null)));
    assert!(matches!(decode_binary_value(1009, "_text", true, None), Ok(DecodedValue::Null)));
}

#[test]
fn booleans() {
    assert!(matches!(decode(BOOL_OID, "bool", &[1]), Ok(DecodedValue::Bool(true))));
    assert!(matches!(decode(BOOL_OID, "bool", &[7]), Ok(DecodedValue::Bool(true))));
    assert!(matches!(decode(BOOL_OID, "bool", &[0]), Ok(DecodedValue::Bool(false))));
    assert_eq!(
        conversion_message(decode(BOOL_OID, "bool", &[1, 0])),
        "Cannot convert PostgreSQL type bool into Python type, err: invalid buffer size"
    );
}

#[test]
fn integers_are_big_endian() {
    assert!(matches!(decode(INT2_OID, "int2", &[0xff, 0xfe]), Ok(DecodedValue::Int2(-2))));
    assert!(matches!(decode(INT4_OID, "int4", &[0, 0, 1, 0]), Ok(DecodedValue::Int4(256))));
    assert!(matches!(decode(OID_OID, "oid", &[0, 0, 0, 26]), Ok(DecodedValue::Int4(26))));
    assert!(matches!(
        decode(INT8_OID, "int8", &[0x80, 0, 0, 0, 0, 0, 0, 0]),
        Ok(DecodedValue::Int8(i64::MIN))
    ));
    assert!(matches!(decode(MONEY_OID, "money", &[0, 0, 0, 0, 0, 0, 0x30, 0x39]), Ok(DecodedValue::Int8(12345))));
    assert_eq!(
        conversion_message(decode(INT4_OID, "int4", &[0, 0, 0, 1, 2])),
        "Cannot convert PostgreSQL type int4 into Python type, err: invalid buffer size"
    );
    assert!(conversion_message(decode(INT8_OID, "int8", &[1, 2, 3]))
        .starts_with("Cannot convert PostgreSQL type int8 into Python type, err: "));
}

#[test]
fn text_is_utf8() {
    match decode(TEXT_OID, "text", "héllo".as_bytes()) {
        Ok(DecodedValue::Text(s)) => assert_eq!(s, "héllo"),
        _ => panic!("expected text"),
    }
    match decode(VARCHAR_OID, "varchar", b"") {
        Ok(DecodedValue::Text(s)) => assert_eq!(s, ""),
        _ => panic!("expected text"),
    }
    let expected = std::str::from_utf8(&[0x61, 0xff]).unwrap_err().to_string();
    assert_eq!(
        conversion_message(decode(TEXT_OID, "text", &[0x61, 0xff])),
        format!("Cannot convert PostgreSQL type text into Python type, err: {expected}")
    );
}

#[test]
fn uuids_and_mac_addresses() {
    let raw: Vec<u8> = (0u8..16).collect();
    match decode(UUID_OID, "uuid", &raw) {
        Ok(DecodedValue::Uuid(u)) => assert_eq!(u.to_text(), "00010203-0405-0607-0809-0a0b0c0d0e0f"),
        _ => panic!("expected a uuid"),
    }
    assert_eq!(
        conversion_message(decode(UUID_OID, "uuid", &[1, 2])),
        "Cannot convert PostgreSQL type uuid into Python type, err: invalid message length: uuid size mismatch"
    );
    match decode(MACADDR_OID, "macaddr", &[8, 0, 0x2b, 1, 2, 3]) {
        Ok(DecodedValue::Mac6(m)) => assert_eq!(m.inner(), [8, 0, 0x2b, 1, 2, 3]),
        _ => panic!("expected a mac address"),
    }
    match decode(18, "char", b"A") {
        Ok(DecodedValue::Char(c)) => assert_eq!(c.to_char(), 'A'),
        _ => panic!("expected a char"),
    }
}

#[test]
fn inet_addresses() {
    match decode(INET_OID, "inet", &[2, 32, 0, 4, 127, 0, 0, 1]) {
        Ok(DecodedValue::Inet(a)) => assert_eq!(a, vec![127, 0, 0, 1]),
        _ => panic!("expected an address"),
    }
    let mut v6 = vec![3, 64, 0, 16];
    v6.extend_from_slice(&[0x20, 0x01, 0x0d, 0xb8, 0, 0, 0, 0, 0, 0, 0, 0, 0, 0, 0, 1]);
    match decode(INET_OID, "inet", &v6) {
        Ok(DecodedValue::Inet(a)) => assert_eq!(a.len(), 16),
        _ => panic!("expected an address"),
    }
    assert!(conversion_message(decode(INET_OID, "inet", &[9, 32, 0, 4, 127, 0, 0, 1]))
        .starts_with("Cannot convert PostgreSQL type inet into Python type, err: "));
    assert!(decode(INET_OID, "inet", &[2, 33, 0, 4, 127, 0, 0, 1]).is_err());
    assert!(decode(INET_OID, "inet", &[2, 32, 0, 4, 127, 0, 0, 1, 9]).is_err());
}

#[test]
fn arrays_and_other_types() {
    let mut raw = Vec::new();
    raw.extend_from_slice(&1i32.to_be_bytes());
    raw.extend_from_slice(&0i32.to_be_bytes());
    raw.extend_from_slice(&23u32.to_be_bytes());
    raw.extend_from_slice(&2i32.to_be_bytes());
    raw.extend_from_slice(&1i32.to_be_bytes());
    for v in [5i32, 6] {
        raw.extend_from_slice(&4i32.to_be_bytes());
        raw.extend_from_slice(&v.to_be_bytes());
    }
    match decode_binary_value(1007, "_int4", true, Some(&raw)) {
        Ok(DecodedValue::Array(a)) => {
            assert_eq!(a.tokens, vec![ArrayToken::Open, ArrayToken::Item(0), ArrayToken::Item(1), ArrayToken::Close]);
            assert_eq!(a.element_oid, 23);
            assert_eq!(a.elements[1], Some(6i32.to_be_bytes().to_vec()));
        }
        _ => panic!("expected an array"),
    }
    assert_eq!(
        conversion_message(decode_binary_value(1007, "_int4", true, Some(&[0, 0, 0]))).len() > 0,
        true
    );
    match decode(1082, "date", &[0, 0, 1, 2]) {
        Ok(DecodedValue::Bytes(v)) => assert_eq!(v, vec![0, 0, 1, 2]),
        _ => panic!("expected the bytes"),
    }
}
