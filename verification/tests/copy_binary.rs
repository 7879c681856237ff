use psqlpy::copy_binary::{copy_encode_error, encode_copy_field, encode_copy_row, push_be_i16, push_be_i32, CopyBinaryEncoder, COPY_BUFFER_SIZE};
use psqlpy::errors::RustPSQLDriverError;

fn decode_i32(buf: &[u8], offset: usize) -> i32 {
    i32::from_be_bytes([buf[offset], buf[offset + 1], buf[offset + 2], buf[offset + 3]])
}

const SIGNATURE: &[u8] = b"PGCOPY\n\xff\r\n\0";

#[test]
fn encode_copy_field_integer() {
    let value = Some(42i32.to_be_bytes().to_vec());
    let mut buf: Vec<u8> = Vec::new();
    encode_copy_field(&mut buf, &value);
    // 4-byte length prefix + 4-byte INT4 payload
    assert_eq!(buf.len(), 8);
    assert_eq!(decode_i32(&buf, 0), 4);
    assert_eq!(decode_i32(&buf, 4), 42);
}

#[test]
fn encode_copy_field_null() {
    let mut buf: Vec<u8> = Vec::new();
    encode_copy_field(&mut buf, &None);
    // NULL: 4-byte length prefix = -1, no payload
    assert_eq!(buf.len(), 4);
    assert_eq!(decode_i32(&buf, 0), -1);
}

#[test]
fn encode_copy_field_text() {
    let value = Some("hi".as_bytes().to_vec());
    let mut buf: Vec<u8> = Vec::new();
    encode_copy_field(&mut buf, &value);
    // 4-byte length prefix + 2 bytes of UTF-8
    assert_eq!(buf.len(), 6);
    assert_eq!(decode_i32(&buf, 0), 2);
    assert_eq!(&buf[4..], b"hi");
}

#[test]
fn big_endian_writes() {
    let mut buf: Vec<u8> = vec![9];
    push_be_i32(&mut buf, 0x01020304);
    push_be_i32(&mut buf, -2);
    push_be_i16(&mut buf, -1);
    push_be_i16(&mut buf, 0x0a0b);
    assert_eq!(buf, vec![9, 1, 2, 3, 4, 0xff, 0xff, 0xff, 0xfe, 0xff, 0xff, 0x0a, 0x0b]);
}

#[test]
fn big_endian_round_trip() {
    for x in [0i32, 1, -1, i32::MAX, i32::MIN, 123456789, -987654321] {
        let mut buf: Vec<u8> = Vec::new();
        push_be_i32(&mut buf, x);
        assert_eq!(decode_i32(&buf, 0), x);
    }
}

#[test]
fn row_is_count_then_fields() {
    let mut buf: Vec<u8> = Vec::new();
    encode_copy_row(&mut buf, &vec![Some(vec![7u8]), None]);
    assert_eq!(buf, vec![0, 2, 0, 0, 0, 1, 7, 0xff, 0xff, 0xff, 0xff]);
}

#[test]
fn empty_stream_is_header_and_trailer() {
    let enc = CopyBinaryEncoder::new(3);
    let chunks = enc.finish();
    assert_eq!(chunks.len(), 1);
    let mut expected = SIGNATURE.to_vec();
    expected.extend_from_slice(&[0, 0, 0, 0, 0, 0, 0, 0, 0xff, 0xff]);
    assert_eq!(chunks[0], expected);
}

#[test]
fn stream_with_rows() {
    let mut enc = CopyBinaryEncoder::new(2);
    enc.add_row(&vec![Some(vec![1u8, 2]), None]);
    enc.add_row(&vec![None, Some(vec![])]);
    let chunks = enc.finish();
    let stream: Vec<u8> = chunks.concat();
    let mut expected = SIGNATURE.to_vec();
    expected.extend_from_slice(&[0, 0, 0, 0, 0, 0, 0, 0]);
    expected.extend_from_slice(&[0, 2, 0, 0, 0, 2, 1, 2, 0xff, 0xff, 0xff, 0xff]);
    expected.extend_from_slice(&[0, 2, 0xff, 0xff, 0xff, 0xff, 0, 0, 0, 0]);
    expected.extend_from_slice(&[0xff, 0xff]);
    assert_eq!(stream, expected);
}

#[test]
fn large_streams_are_cut_between_records() {
    let mut enc = CopyBinaryEncoder::new(1);
    let payload = vec![0xabu8; 100_000];
    for _ in 0..12 {
        enc.add_row(&vec![Some(payload.clone())]);
    }
    let chunks = enc.finish();
    assert!(chunks.len() >= 2);
    for c in &chunks[..chunks.len() - 1] {
        assert!(c.len() >= COPY_BUFFER_SIZE);
    }
    let stream: Vec<u8> = chunks.concat();
    // header 19 bytes, 12 records of 2 + 4 + 100000 bytes, trailer 2 bytes
    assert_eq!(stream.len(), 19 + 12 * (2 + 4 + 100_000) + 2);
    assert_eq!(&stream[..11], SIGNATURE);
    assert_eq!(&stream[stream.len() - 2..], &[0xff, 0xff]);
}

#[test]
fn row_length_is_checked() {
    let enc = CopyBinaryEncoder::new(3);
    assert!(enc.check_row_len(0, 3).is_ok());
    match enc.check_row_len(4, 2) {
        Err(RustPSQLDriverError::PyToRustValueConversionError(m)) => {
            assert_eq!(m, "Record at index 4 has 2 fields, expected 3")
        }
        _ => panic!("expected a conversion error"),
    }
}

#[test]
fn a_table_without_columns_is_refused() {
    match CopyBinaryEncoder::for_columns(0) {
        Err(RustPSQLDriverError::PyToRustValueConversionError(m)) => {
            assert_eq!(m, "Cannot introspect column types from target table")
        }
        _ => panic!("expected a conversion error"),
    }
    let enc = CopyBinaryEncoder::for_columns(2).unwrap();
    assert!(enc.check_row_len(0, 2).is_ok());
}

#[test]
fn encode_errors_carry_the_message() {
    match copy_encode_error("value too large") {
        RustPSQLDriverError::PyToRustValueConversionError(m) => assert_eq!(m, "COPY binary encode error: value too large"),
        other => panic!("unexpected {:?}", other),
    }
}
