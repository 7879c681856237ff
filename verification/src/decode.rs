//! Reading one column value from PostgreSQL's binary format, by the
//! column's type: the library decides which reader a type takes and what
//! the reader gives back; building the Python object is left to the caller.

use postgres_protocol::types::{bool_from_sql, inet_from_sql, int2_from_sql, int4_from_sql, int8_from_sql, text_from_sql};
use vstd::prelude::*;

use crate::arrays::{array_parse, array_to_nested, conversion_error, conversion_error_text, is_nested_form, NestedArray};
use crate::copy_binary::read_be_i32;
use crate::codecs::{internal_char_error, InternalChar, InternalUuid, CHAR_OID};
use crate::errors::{PSQLPyResult, RustPSQLDriverError};
use crate::extra_types::{MacAddr6, MacAddr8};

verus! {

pub const BOOL_OID: u32 = 16;
pub const NAME_OID: u32 = 19;
pub const INT8_OID: u32 = 20;
pub const INT2_OID: u32 = 21;
pub const INT4_OID: u32 = 23;
pub const TEXT_OID: u32 = 25;
pub const OID_OID: u32 = 26;
pub const XML_OID: u32 = 142;
pub const MACADDR8_OID: u32 = 774;
pub const MONEY_OID: u32 = 790;
pub const MACADDR_OID: u32 = 829;
pub const INET_OID: u32 = 869;
pub const BPCHAR_OID: u32 = 1042;
pub const VARCHAR_OID: u32 = 1043;
pub const UUID_OID: u32 = 2950;

/// The value of 2 big-endian two's-complement bytes.
pub open spec fn read_be_i16(b: Seq<u8>) -> i16 {
    (((b[0] as u16) << 8u16) | (b[1] as u16)) as i16
}

/// The value of 8 big-endian two's-complement bytes.
pub open spec fn read_be_i64(b: Seq<u8>) -> i64 {
    (((b[0] as u64) << 56u64) | ((b[1] as u64) << 48u64) | ((b[2] as u64) << 40u64) | ((b[3] as u64) << 32u64)
        | ((b[4] as u64) << 24u64) | ((b[5] as u64) << 16u64) | ((b[6] as u64) << 8u64) | (b[7] as u64)) as i64
}

/// The address of an `inet` value: a family byte (2 for IPv4, 3 for
/// IPv6), the netmask (at most 32 or 128), a CIDR flag, the address length
/// (4 or 16) and the address, with nothing after it; `None` for any other
/// bytes.
pub open spec fn inet_addr(b: Seq<u8>) -> Option<Seq<u8>> {
    if b.len() < 4 {
        None
    } else if b[0] == 2 && b[1] <= 32 && b[3] == 4 && b.len() == 8 {
        Some(b.subrange(4, 8))
    } else if b[0] == 3 && b[1] <= 128 && b[3] == 16 && b.len() == 20 {
        Some(b.subrange(4, 20))
    } else {
        None
    }
}

/// The error text of `std::str::from_utf8` on bytes that are not UTF-8.
pub uninterp spec fn utf8_error_text(b: Seq<u8>) -> Seq<char>;

/// Reads a `BOOL` with `postgres_protocol::types::bool_from_sql`: one
/// byte, true unless it is zero; any other length is refused with
/// "invalid buffer size".
#[verifier::external_body]
fn read_bool(raw: &[u8]) -> (r: Result<bool, String>)
    ensures
        r is Ok <==> raw@.len() == 1,
        r matches Ok(v) ==> v == (raw@[0] != 0),
        r matches Err(m) ==> m@ == "invalid buffer size"@,
{
    bool_from_sql(raw).map_err(|e| e.to_string())
}

/// Reads an `INT2` with `postgres_protocol::types::int2_from_sql`: exactly
/// two big-endian bytes. Longer input is refused with "invalid buffer
/// size"; the text for shorter input (a read error of the standard
/// library) is not stated.
#[verifier::external_body]
fn read_int2(raw: &[u8]) -> (r: Result<i16, String>)
    ensures
        r is Ok <==> raw@.len() == 2,
        r matches Ok(v) ==> v == read_be_i16(raw@),
        r matches Err(m) ==> (raw@.len() > 2 ==> m@ == "invalid buffer size"@),
{
    int2_from_sql(raw).map_err(|e| e.to_string())
}

/// Reads an `INT4` with `postgres_protocol::types::int4_from_sql`: exactly
/// four big-endian bytes. Longer input is refused with "invalid buffer
/// size"; the text for shorter input is not stated.
#[verifier::external_body]
fn read_int4(raw: &[u8]) -> (r: Result<i32, String>)
    ensures
        r is Ok <==> raw@.len() == 4,
        r matches Ok(v) ==> v == read_be_i32(raw@),
        r matches Err(m) ==> (raw@.len() > 4 ==> m@ == "invalid buffer size"@),
{
    int4_from_sql(raw).map_err(|e| e.to_string())
}

/// Reads an `INT8` with `postgres_protocol::types::int8_from_sql`: exactly
/// eight big-endian bytes. Longer input is refused with "invalid buffer
/// size"; the text for shorter input is not stated.
#[verifier::external_body]
fn read_int8(raw: &[u8]) -> (r: Result<i64, String>)
    ensures
        r is Ok <==> raw@.len() == 8,
        r matches Ok(v) ==> v == read_be_i64(raw@),
        r matches Err(m) ==> (raw@.len() > 8 ==> m@ == "invalid buffer size"@),
{
    int8_from_sql(raw).map_err(|e| e.to_string())
}

/// Reads text with `postgres_protocol::types::text_from_sql`, which checks
/// the bytes with `std::str::from_utf8`: valid UTF-8 gives the characters
/// it encodes; other bytes give the checker's error text, named by
/// `utf8_error_text`.
#[verifier::external_body]
fn read_text(raw: &[u8]) -> (r: Result<String, String>)
    ensures
        r is Ok <==> vstd::utf8::valid_utf8(raw@),
        r matches Ok(s) ==> s@ == vstd::utf8::decode_utf8(raw@),
        r matches Err(m) ==> m@ == utf8_error_text(raw@),
{
    text_from_sql(raw).map(|s| s.to_string()).map_err(|e| e.to_string())
}

/// Reads an `inet` value with `postgres_protocol::types::inet_from_sql`
/// and gives its address bytes, as `inet_addr` describes. The error texts
/// are not stated.
#[verifier::external_body]
fn read_inet(raw: &[u8]) -> (r: Result<Vec<u8>, String>)
    ensures
        r matches Ok(a) ==> inet_addr(raw@) == Some(a@),
        r is Err ==> inet_addr(raw@) is None,
{
    match inet_from_sql(raw) {
        Ok(inet) => match inet.addr() {
            core::net::IpAddr::V4(a) => Ok(a.octets().to_vec()),
            core::net::IpAddr::V6(a) => Ok(a.octets().to_vec()),
        },
        Err(e) => Err(e.to_string()),
    }
}

/// A column value read from the binary format.
pub enum DecodedValue {
    /// SQL `NULL`.
    Null,
    Bool(bool),
    Int2(i16),
    Int4(i32),
    Int8(i64),
    Text(String),
    Char(InternalChar),
    Uuid(InternalUuid),
    Mac6(MacAddr6),
    Mac8(MacAddr8),
    /// The address bytes of an `inet` value (4 or 16).
    Inet(Vec<u8>),
    Array(NestedArray),
    /// A type that is not read here: its bytes, unchanged.
    Bytes(Vec<u8>),
}

/// The text types: `text`, `varchar`, `xml`, `name` and `character(n)`.
pub open spec fn is_text_type(oid: u32) -> bool {
    oid == TEXT_OID || oid == VARCHAR_OID || oid == XML_OID || oid == NAME_OID || oid == BPCHAR_OID
}

/// Whether `r` is the conversion error of the type named `pg_type` with
/// some reader's error text.
pub open spec fn is_conversion_error(r: PSQLPyResult<DecodedValue>, pg_type: Seq<char>) -> bool {
    r matches Err(RustPSQLDriverError::RustToPyValueConversionError(m)) && exists|e: Seq<char>|
        m@ == conversion_error_text(pg_type, e)
}

/// Whether `r` is the conversion error of the type named `pg_type` with
/// the error text `e`.
pub open spec fn is_conversion_error_with(r: PSQLPyResult<DecodedValue>, pg_type: Seq<char>, e: Seq<char>) -> bool {
    r matches Err(RustPSQLDriverError::RustToPyValueConversionError(m)) && m@ == conversion_error_text(pg_type, e)
}

/// What reading the bytes `b` of a value of the type with OID `oid` (named
/// `pg_type`; `is_array` for an array type) gives.
pub open spec fn decode_outcome(
    r: PSQLPyResult<DecodedValue>,
    oid: u32,
    pg_type: Seq<char>,
    is_array: bool,
    b: Seq<u8>,
) -> bool {
    if is_array {
        match array_parse(b) {
            Ok((dims, elems, element_oid)) => r matches Ok(DecodedValue::Array(a)) && is_nested_form(
                a,
                dims,
                elems,
                element_oid,
            ),
            Err(e) => is_conversion_error_with(r, pg_type, e),
        }
    } else if oid == BOOL_OID {
        if b.len() == 1 {
            r matches Ok(DecodedValue::Bool(v)) && v == (b[0] != 0)
        } else {
            is_conversion_error_with(r, pg_type, "invalid buffer size"@)
        }
    } else if oid == INT2_OID {
        if b.len() == 2 {
            r matches Ok(DecodedValue::Int2(v)) && v == read_be_i16(b)
        } else if b.len() > 2 {
            is_conversion_error_with(r, pg_type, "invalid buffer size"@)
        } else {
            is_conversion_error(r, pg_type)
        }
    } else if oid == INT4_OID || oid == OID_OID {
        if b.len() == 4 {
            r matches Ok(DecodedValue::Int4(v)) && v == read_be_i32(b)
        } else if b.len() > 4 {
            is_conversion_error_with(r, pg_type, "invalid buffer size"@)
        } else {
            is_conversion_error(r, pg_type)
        }
    } else if oid == INT8_OID || oid == MONEY_OID {
        if b.len() == 8 {
            r matches Ok(DecodedValue::Int8(v)) && v == read_be_i64(b)
        } else if b.len() > 8 {
            is_conversion_error_with(r, pg_type, "invalid buffer size"@)
        } else {
            is_conversion_error(r, pg_type)
        }
    } else if is_text_type(oid) {
        if vstd::utf8::valid_utf8(b) {
            r matches Ok(DecodedValue::Text(s)) && s@ == vstd::utf8::decode_utf8(b)
        } else {
            is_conversion_error_with(r, pg_type, utf8_error_text(b))
        }
    } else if oid == CHAR_OID {
        if b.len() == 1 {
            r matches Ok(DecodedValue::Char(c)) && c.spec_byte() == b[0]
        } else {
            is_conversion_error_with(r, pg_type, internal_char_error(b.len()))
        }
    } else if oid == UUID_OID {
        if b.len() == 16 {
            r matches Ok(DecodedValue::Uuid(u)) && u.spec_bytes() == b
        } else {
            is_conversion_error_with(r, pg_type, "invalid message length: uuid size mismatch"@)
        }
    } else if oid == MACADDR_OID {
        if b.len() == 6 {
            r matches Ok(DecodedValue::Mac6(a)) && a.spec_inner() == b
        } else {
            is_conversion_error_with(r, pg_type, "Cannot convert PostgreSQL MACADDR into rust MacAddr6"@)
        }
    } else if oid == MACADDR8_OID {
        if b.len() == 8 {
            r matches Ok(DecodedValue::Mac8(a)) && a.spec_inner() == b
        } else {
            is_conversion_error_with(r, pg_type, "Cannot convert PostgreSQL MACADDR8 into rust MacAddr8"@)
        }
    } else if oid == INET_OID {
        match inet_addr(b) {
            Some(addr) => r matches Ok(DecodedValue::Inet(v)) && v@ == addr,
            None => is_conversion_error(r, pg_type),
        }
    } else {
        r matches Ok(DecodedValue::Bytes(v)) && v@ == b
    }
}

/// Reads a column value of the type with OID `type_oid` (named
/// `pg_type`; `is_array` for an array type) from its binary bytes, or
/// `None` for `NULL`. Booleans, integers (`oid` as a 4-byte integer,
/// `money` as an 8-byte one), text, `"char"`, UUIDs, MAC addresses,
/// `inet` and arrays are read; bytes a reader refuses are a conversion
/// error that names the type and carries the reader's error text; any
/// other type is handed back as its bytes.
pub fn decode_binary_value(type_oid: u32, pg_type: &str, is_array: bool, raw: Option<&[u8]>) -> (r: PSQLPyResult<
    DecodedValue,
>)
    ensures
        raw is None ==> r matches Ok(DecodedValue::Null),
        raw matches Some(b) ==> decode_outcome(r, type_oid, pg_type@, is_array, b@),
{
    let b = match raw {
        None => return Ok(DecodedValue::Null),
        Some(b) => b,
    };
    if is_array {
        return match array_to_nested(b, pg_type) {
            Ok(a) => Ok(DecodedValue::Array(a)),
            Err(e) => Err(e),
        };
    }
    if type_oid == BOOL_OID {
        match read_bool(b) {
            Ok(v) => Ok(DecodedValue::Bool(v)),
            Err(e) => Err(conversion_error(pg_type, e.as_str())),
        }
    } else if type_oid == INT2_OID {
        match read_int2(b) {
            Ok(v) => Ok(DecodedValue::Int2(v)),
            Err(e) => Err(conversion_error(pg_type, e.as_str())),
        }
    } else if type_oid == INT4_OID || type_oid == OID_OID {
        match read_int4(b) {
            Ok(v) => Ok(DecodedValue::Int4(v)),
            Err(e) => Err(conversion_error(pg_type, e.as_str())),
        }
    } else if type_oid == INT8_OID || type_oid == MONEY_OID {
        match read_int8(b) {
            Ok(v) => Ok(DecodedValue::Int8(v)),
            Err(e) => Err(conversion_error(pg_type, e.as_str())),
        }
    } else if type_oid == TEXT_OID || type_oid == VARCHAR_OID || type_oid == XML_OID || type_oid == NAME_OID
        || type_oid == BPCHAR_OID {
        match read_text(b) {
            Ok(s) => Ok(DecodedValue::Text(s)),
            Err(e) => Err(conversion_error(pg_type, e.as_str())),
        }
    } else if type_oid == CHAR_OID {
        match InternalChar::from_sql(b) {
            Ok(c) => Ok(DecodedValue::Char(c)),
            Err(e) => Err(conversion_error(pg_type, e.as_str())),
        }
    } else if type_oid == UUID_OID {
        match InternalUuid::from_sql(b) {
            Ok(u) => Ok(DecodedValue::Uuid(u)),
            Err(e) => Err(conversion_error(pg_type, e.as_str())),
        }
    } else if type_oid == MACADDR_OID {
        match MacAddr6::from_sql(b) {
            Ok(a) => Ok(DecodedValue::Mac6(a)),
            Err(e) => Err(conversion_error(pg_type, e.as_str())),
        }
    } else if type_oid == MACADDR8_OID {
        match MacAddr8::from_sql(b) {
            Ok(a) => Ok(DecodedValue::Mac8(a)),
            Err(e) => Err(conversion_error(pg_type, e.as_str())),
        }
    } else if type_oid == INET_OID {
        match read_inet(b) {
            Ok(a) => Ok(DecodedValue::Inet(a)),
            Err(e) => Err(conversion_error(pg_type, e.as_str())),
        }
    } else {
        Ok(DecodedValue::Bytes(vstd::slice::slice_to_vec(b)))
    }
}

/// The number that bytes stand for in base 256, most significant first.
pub open spec fn be_unsigned(b: Seq<u8>) -> nat
    decreases b.len(),
{
    if b.len() == 0 {
        0
    } else {
        be_unsigned(b.drop_last()) * 256 + (b.last() as nat)
    }
}

/// 256 to the power `n`.
pub open spec fn pow256(n: nat) -> nat
    decreases n,
{
    if n == 0 {
        1
    } else {
        256 * pow256((n - 1) as nat)
    }
}

/// The two's-complement value of big-endian bytes: negative exactly when
/// the top bit of the first byte is set.
pub open spec fn be_signed(b: Seq<u8>) -> int {
    if b.len() > 0 && b[0] >= 128 {
        be_unsigned(b) - pow256(b.len())
    } else {
        be_unsigned(b) as int
    }
}

proof fn lemma_be_i16(b: Seq<u8>)
    requires
        b.len() == 2,
    ensures
        read_be_i16(b) as int == be_signed(b),
{
    reveal_with_fuel(be_unsigned, 3);
    reveal_with_fuel(pow256, 3);
    let (b0, b1) = (b[0], b[1]);
    assert(b.drop_last().drop_last().len() == 0);
    assert(be_unsigned(b) == b0 * 256 + b1) by {
        assert(b.drop_last().last() == b0);
        assert(b.last() == b1);
    }
    let x: u16 = ((b0 as u16) << 8u16) | (b1 as u16);
    assert(x == b0 * 256 + b1) by (bit_vector)
        requires
            x == ((b0 as u16) << 8u16) | (b1 as u16),
    ;
    assert((x as i16) as int == (if x >= 32768 { x - 65536 } else { x as int })) by (bit_vector);
    assert(b0 >= 128 <==> x >= 32768) by (bit_vector)
        requires
            x == b0 * 256 + b1,
    ;
}

proof fn lemma_be_i32(b: Seq<u8>)
    requires
        b.len() == 4,
    ensures
        read_be_i32(b) as int == be_signed(b),
{
    reveal_with_fuel(be_unsigned, 5);
    reveal_with_fuel(pow256, 5);
    let (b0, b1, b2, b3) = (b[0], b[1], b[2], b[3]);
    let d1 = b.drop_last();
    let d2 = d1.drop_last();
    let d3 = d2.drop_last();
    assert(d3.drop_last().len() == 0);
    assert(be_unsigned(b) == ((b0 * 256 + b1) * 256 + b2) * 256 + b3) by {
        assert(d3.last() == b0);
        assert(d2.last() == b1);
        assert(d1.last() == b2);
        assert(b.last() == b3);
    }
    let x: u32 = ((b0 as u32) << 24u32) | ((b1 as u32) << 16u32) | ((b2 as u32) << 8u32) | (b3 as u32);
    assert(x == ((b0 * 256 + b1) * 256 + b2) * 256 + b3) by (bit_vector)
        requires
            x == ((b0 as u32) << 24u32) | ((b1 as u32) << 16u32) | ((b2 as u32) << 8u32) | (b3 as u32),
    ;
    assert((x as i32) as int == (if x >= 0x8000_0000 { x - 0x1_0000_0000 } else { x as int })) by (bit_vector);
    assert(b0 >= 128 <==> x >= 0x8000_0000) by (bit_vector)
        requires
            x == ((b0 * 256 + b1) * 256 + b2) * 256 + b3,
    ;
}

proof fn lemma_be_i64(b: Seq<u8>)
    requires
        b.len() == 8,
    ensures
        read_be_i64(b) as int == be_signed(b),
{
    reveal_with_fuel(be_unsigned, 9);
    reveal_with_fuel(pow256, 9);
    let (b0, b1, b2, b3, b4, b5, b6, b7) = (b[0], b[1], b[2], b[3], b[4], b[5], b[6], b[7]);
    let d1 = b.drop_last();
    let d2 = d1.drop_last();
    let d3 = d2.drop_last();
    let d4 = d3.drop_last();
    let d5 = d4.drop_last();
    let d6 = d5.drop_last();
    let d7 = d6.drop_last();
    assert(d7.drop_last().len() == 0);
    let u: int = ((((((b0 * 256 + b1) * 256 + b2) * 256 + b3) * 256 + b4) * 256 + b5) * 256 + b6) * 256 + b7;
    assert(be_unsigned(b) == u) by {
        assert(d7.last() == b0);
        assert(d6.last() == b1);
        assert(d5.last() == b2);
        assert(d4.last() == b3);
        assert(d3.last() == b4);
        assert(d2.last() == b5);
        assert(d1.last() == b6);
        assert(b.last() == b7);
    }
    let x: u64 = ((b0 as u64) << 56u64) | ((b1 as u64) << 48u64) | ((b2 as u64) << 40u64) | ((b3 as u64) << 32u64)
        | ((b4 as u64) << 24u64) | ((b5 as u64) << 16u64) | ((b6 as u64) << 8u64) | (b7 as u64);
    assert(x == ((((((b0 * 256 + b1) * 256 + b2) * 256 + b3) * 256 + b4) * 256 + b5) * 256 + b6) * 256 + b7)
        by (bit_vector)
        requires
            x == ((b0 as u64) << 56u64) | ((b1 as u64) << 48u64) | ((b2 as u64) << 40u64) | ((b3 as u64) << 32u64)
                | ((b4 as u64) << 24u64) | ((b5 as u64) << 16u64) | ((b6 as u64) << 8u64) | (b7 as u64),
    ;
    assert((x as i64) as int == (if x >= 0x8000_0000_0000_0000 {
        x - 0x1_0000_0000_0000_0000
    } else {
        x as int
    })) by (bit_vector);
    assert(b0 >= 128 <==> x >= 0x8000_0000_0000_0000) by (bit_vector)
        requires
            x == ((((((b0 * 256 + b1) * 256 + b2) * 256 + b3) * 256 + b4) * 256 + b5) * 256 + b6) * 256 + b7,
    ;
}

/// What each type is read as, by its PostgreSQL OID: `bool` (16) is one
/// byte, true unless zero; `int2` (21), `int4` (23), `oid` (26), `int8`
/// (20) and `money` (790) are big-endian two's-complement integers of 2,
/// 4 or 8 bytes, and other lengths are refused; `text` (25), `varchar`
/// (1043), `xml` (142), `name` (19) and `character(n)` (1042) are UTF-8
/// text, and bytes that are not UTF-8 are refused; `"char"` (18) is one
/// byte; `uuid` (2950) is 16 bytes; `macaddr` (829) and `macaddr8` (774)
/// are 6 and 8 bytes.
pub proof fn lemma_types_read_by_oid(oid: u32, pg_type: Seq<char>, b: Seq<u8>, r: PSQLPyResult<DecodedValue>)
    requires
        decode_outcome(r, oid, pg_type, false, b),
    ensures
        oid == 16 && b.len() == 1 ==> (r matches Ok(DecodedValue::Bool(v)) && v == (b[0] != 0)),
        oid == 21 && b.len() == 2 ==> (r matches Ok(DecodedValue::Int2(v)) && v as int == be_signed(b)),
        (oid == 23 || oid == 26) && b.len() == 4 ==> (r matches Ok(DecodedValue::Int4(v)) && v as int == be_signed(b)),
        (oid == 20 || oid == 790) && b.len() == 8 ==> (r matches Ok(DecodedValue::Int8(v)) && v as int == be_signed(b)),
        oid == 16 && b.len() != 1 ==> r is Err,
        oid == 21 && b.len() != 2 ==> r is Err,
        (oid == 23 || oid == 26) && b.len() != 4 ==> r is Err,
        (oid == 20 || oid == 790) && b.len() != 8 ==> r is Err,
        (oid == 25 || oid == 1043 || oid == 142 || oid == 19 || oid == 1042) && vstd::utf8::valid_utf8(b) ==> (r matches Ok(
            DecodedValue::Text(s),
        ) && s@ == vstd::utf8::decode_utf8(b)),
        (oid == 25 || oid == 1043 || oid == 142 || oid == 19 || oid == 1042) && !vstd::utf8::valid_utf8(b) ==> r is Err,
        oid == 18 && b.len() == 1 ==> (r matches Ok(DecodedValue::Char(c)) && c.spec_byte() == b[0]),
        oid == 2950 && b.len() == 16 ==> (r matches Ok(DecodedValue::Uuid(u)) && u.spec_bytes() == b),
        oid == 829 && b.len() == 6 ==> (r matches Ok(DecodedValue::Mac6(a)) && a.spec_inner() == b),
        oid == 774 && b.len() == 8 ==> (r matches Ok(DecodedValue::Mac8(a)) && a.spec_inner() == b),
        oid == 869 && inet_addr(b) is Some ==> (r matches Ok(DecodedValue::Inet(a)) && a@ == inet_addr(b)->0),
{
    if oid == 21 && b.len() == 2 {
        lemma_be_i16(b);
    }
    if (oid == 23 || oid == 26) && b.len() == 4 {
        lemma_be_i32(b);
    }
    if (oid == 20 || oid == 790) && b.len() == 8 {
        lemma_be_i64(b);
    }
}

} // verus!
