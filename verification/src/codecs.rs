//! Raw value codecs: PostgreSQL's single-byte `"char"`, raw column
//! buffers, and the element type of an array type.

use vstd::prelude::*;

use crate::text::{decimal, digit_char, push_char, push_decimal, push_str};

verus! {

/// The OID of PostgreSQL's internal single-byte `"char"` type.
pub const CHAR_OID: u32 = 18;

/// The OID of the pseudo-type `any`.
pub const ANY_OID: u32 = 2276;

/// The payload of PostgreSQL's internal `"char"` type (OID 18, distinct from
/// `character(n)`): one byte. Bytes 0 to 255 stand for the code points 0 to
/// 255 (Latin-1).
#[derive(Clone, Copy, Debug, PartialEq, Eq, Structural)]
pub struct InternalChar(u8);

/// The message for a `"char"` value that is not one byte long.
pub open spec fn internal_char_error(len: nat) -> Seq<char> {
    "\"char\" expected 1 byte, got "@ + decimal(len)
}

impl InternalChar {
    pub closed spec fn spec_byte(&self) -> u8 {
        self.0
    }

    /// Decodes the binary wire format, which is exactly one byte.
    pub fn from_sql(raw: &[u8]) -> (r: Result<InternalChar, String>)
        ensures
            raw@.len() == 1 ==> (r matches Ok(c) && c.spec_byte() == raw@[0]),
            raw@.len() != 1 ==> (r matches Err(m) && m@ == internal_char_error(raw@.len())),
    {
        if raw.len() == 1 {
            Ok(InternalChar(raw[0]))
        } else {
            let mut m = String::new();
            push_str(&mut m, "\"char\" expected 1 byte, got ");
            push_decimal(&mut m, raw.len() as u64);
            Err(m)
        }
    }

    /// Only the `"char"` type is decoded this way.
    pub fn accepts(type_oid: u32) -> (b: bool)
        ensures
            b == (type_oid == CHAR_OID),
    {
        type_oid == CHAR_OID
    }

    /// The byte.
    pub fn byte(self) -> (b: u8)
        ensures
            b == self.spec_byte(),
    {
        self.0
    }

    /// The character the byte stands for (Latin-1).
    pub fn to_char(self) -> (c: char)
        ensures
            c as u32 == self.spec_byte() as u32,
    {
        self.0 as char
    }
}

/// The Python `None` as a parameter: SQL `NULL`.
pub struct NonePyType;

/// The lower-case hexadecimal digit of a value below 16.
pub open spec fn hex_digit(d: nat) -> char {
    let r = d % 16;
    if r < 10 { digit_char(r) }
    else if r == 10 { 'a' }
    else if r == 11 { 'b' }
    else if r == 12 { 'c' }
    else if r == 13 { 'd' }
    else if r == 14 { 'e' }
    else { 'f' }
}

/// Bytes written as lower-case hexadecimal, two digits each, high digit
/// first.
pub open spec fn hex_text(bytes: Seq<u8>) -> Seq<char>
    decreases bytes.len(),
{
    if bytes.len() == 0 {
        Seq::empty()
    } else {
        hex_text(bytes.drop_last()) + seq![hex_digit((bytes.last() / 16) as nat), hex_digit((bytes.last() % 16) as nat)]
    }
}

/// The canonical text of a UUID: its sixteen bytes in hexadecimal, in
/// groups of 8, 4, 4, 4 and 12 digits joined by hyphens.
pub open spec fn uuid_text(b: Seq<u8>) -> Seq<char> {
    hex_text(b.subrange(0, 4)) + "-"@ + hex_text(b.subrange(4, 6)) + "-"@ + hex_text(b.subrange(6, 8))
        + "-"@ + hex_text(b.subrange(8, 10)) + "-"@ + hex_text(b.subrange(10, 16))
}

proof fn lemma_hex_text_len(bytes: Seq<u8>)
    ensures
        hex_text(bytes).len() == 2 * bytes.len(),
    decreases bytes.len(),
{
    if bytes.len() > 0 {
        lemma_hex_text_len(bytes.drop_last());
    }
}

/// The canonical text of a UUID is 36 characters long, with hyphens after
/// the 8th, 12th, 16th and 20th hexadecimal digit.
pub proof fn lemma_uuid_text_shape(b: Seq<u8>)
    requires
        b.len() == 16,
    ensures
        uuid_text(b).len() == 36,
        uuid_text(b)[8] == '-',
        uuid_text(b)[13] == '-',
        uuid_text(b)[18] == '-',
        uuid_text(b)[23] == '-',
{
    lemma_hex_text_len(b.subrange(0, 4));
    lemma_hex_text_len(b.subrange(4, 6));
    lemma_hex_text_len(b.subrange(6, 8));
    lemma_hex_text_len(b.subrange(8, 10));
    lemma_hex_text_len(b.subrange(10, 16));
    reveal_strlit("-");
}

fn hex_char(d: u8) -> (c: char)
    requires
        d < 16,
    ensures
        c == hex_digit(d as nat),
{
    if d < 10 {
        if d == 0 { '0' } else if d == 1 { '1' } else if d == 2 { '2' } else if d == 3 { '3' }
        else if d == 4 { '4' } else if d == 5 { '5' } else if d == 6 { '6' } else if d == 7 { '7' }
        else if d == 8 { '8' } else { '9' }
    } else if d == 10 { 'a' } else if d == 11 { 'b' } else if d == 12 { 'c' } else if d == 13 { 'd' }
    else if d == 14 { 'e' } else { 'f' }
}

/// Appends `bytes[from..to]` in hexadecimal.
fn push_hex(out: &mut String, bytes: &Vec<u8>, from: usize, to: usize)
    requires
        from <= to <= bytes.len(),
    ensures
        final(out)@ == old(out)@ + hex_text(bytes@.subrange(from as int, to as int)),
{
    let mut i = from;
    while i < to
        invariant
            from <= i <= to <= bytes.len(),
            out@ == old(out)@ + hex_text(bytes@.subrange(from as int, i as int)),
        decreases to - i,
    {
        let b = bytes[i];
        push_char(out, hex_char(b / 16));
        push_char(out, hex_char(b % 16));
        assert(bytes@.subrange(from as int, i + 1).drop_last() =~= bytes@.subrange(from as int, i as int));
        assert(out@ =~= old(out)@ + hex_text(bytes@.subrange(from as int, i + 1)));
        i = i + 1;
    }
}

/// A UUID as the driver decodes it from the wire: sixteen bytes.
#[derive(Debug)]
pub struct InternalUuid {
    bytes: Vec<u8>,
}

impl InternalUuid {
    #[verifier::type_invariant]
    closed spec fn sixteen_bytes(&self) -> bool {
        self.bytes@.len() == 16
    }

    /// The sixteen bytes.
    pub closed spec fn spec_bytes(&self) -> Seq<u8> {
        self.bytes@
    }

    /// Decodes the binary wire format, which is exactly sixteen bytes.
    pub fn from_sql(raw: &[u8]) -> (r: Result<InternalUuid, String>)
        ensures
            raw@.len() == 16 ==> (r matches Ok(u) && u.spec_bytes() == raw@),
            raw@.len() != 16 ==> (r matches Err(m) && m@ == "invalid message length: uuid size mismatch"@),
    {
        if raw.len() != 16 {
            return Err("invalid message length: uuid size mismatch".to_string());
        }
        let mut bytes: Vec<u8> = Vec::new();
        let mut i: usize = 0;
        while i < 16
            invariant
                i <= 16,
                raw@.len() == 16,
                bytes@ =~= raw@.take(i as int),
            decreases 16 - i,
        {
            bytes.push(raw[i]);
            i = i + 1;
        }
        Ok(InternalUuid { bytes })
    }

    /// Any type is decoded this way.
    pub fn accepts(_type_oid: u32) -> (b: bool)
        ensures
            b,
    {
        true
    }

    /// The canonical text of the UUID, as handed to Python.
    pub fn to_text(&self) -> (s: String)
        ensures
            self.spec_bytes().len() == 16,
            s@ == uuid_text(self.spec_bytes()),
    {
        proof { use_type_invariant(self); }
        let mut s = String::new();
        push_hex(&mut s, &self.bytes, 0, 4);
        push_str(&mut s, "-");
        push_hex(&mut s, &self.bytes, 4, 6);
        push_str(&mut s, "-");
        push_hex(&mut s, &self.bytes, 6, 8);
        push_str(&mut s, "-");
        push_hex(&mut s, &self.bytes, 8, 10);
        push_str(&mut s, "-");
        push_hex(&mut s, &self.bytes, 10, 16);
        assert(s@ =~= uuid_text(self.spec_bytes()));
        s
    }
}

/// A column's raw buffer: its bytes, or `None` for NULL.
pub struct RawBuf<'a>(pub Option<&'a [u8]>);

impl<'a> RawBuf<'a> {
    /// Keeps the raw bytes of a value, whatever its type.
    pub fn from_sql_nullable(raw: Option<&'a [u8]>) -> (b: Self)
        ensures
            b.0 == raw,
    {
        RawBuf(raw)
    }

    /// Any type is accepted.
    pub fn accepts(_type_oid: u32) -> (b: bool)
        ensures
            b,
    {
        true
    }
}

/// The element type of an array type, by OID, for the array types the
/// driver converts; `any` for every other type. (The UUID array maps to
/// itself.)
pub open spec fn element_type_oid(array_oid: u32) -> u32 {
    if array_oid == 1000 {
        16
    } else if array_oid == 2951 {
        2951
    } else if array_oid == 1015 {
        1043
    } else if array_oid == 1009 {
        25
    } else if array_oid == 1005 {
        21
    } else if array_oid == 1007 {
        23
    } else if array_oid == 1016 {
        20
    } else if array_oid == 1021 {
        700
    } else if array_oid == 1022 {
        701
    } else if array_oid == 791 {
        790
    } else if array_oid == 1041 {
        869
    } else if array_oid == 199 {
        114
    } else if array_oid == 3807 {
        3802
    } else if array_oid == 1182 {
        1082
    } else if array_oid == 1183 {
        1083
    } else if array_oid == 1115 {
        1114
    } else if array_oid == 1185 {
        1184
    } else if array_oid == 1187 {
        1186
    } else if array_oid == 1040 {
        829
    } else if array_oid == 775 {
        774
    } else if array_oid == 1017 {
        600
    } else if array_oid == 1020 {
        603
    } else if array_oid == 1019 {
        602
    } else if array_oid == 629 {
        628
    } else if array_oid == 1018 {
        601
    } else if array_oid == 719 {
        718
    } else {
        ANY_OID
    }
}

/// The element type of an array type, by OID.
pub fn array_type_to_single_type(array_oid: u32) -> (oid: u32)
    ensures
        oid == element_type_oid(array_oid),
{
    match array_oid {
        1000 => 16,  // BOOL[] -> BOOL
        2951 => 2951,  // UUID[] -> UUID[]
        1015 => 1043,  // VARCHAR[] -> VARCHAR
        1009 => 25,  // TEXT[] -> TEXT
        1005 => 21,  // INT2[] -> INT2
        1007 => 23,  // INT4[] -> INT4
        1016 => 20,  // INT8[] -> INT8
        1021 => 700,  // FLOAT4[] -> FLOAT4
        1022 => 701,  // FLOAT8[] -> FLOAT8
        791 => 790,  // MONEY[] -> MONEY
        1041 => 869,  // INET[] -> INET
        199 => 114,  // JSON[] -> JSON
        3807 => 3802,  // JSONB[] -> JSONB
        1182 => 1082,  // DATE[] -> DATE
        1183 => 1083,  // TIME[] -> TIME
        1115 => 1114,  // TIMESTAMP[] -> TIMESTAMP
        1185 => 1184,  // TIMESTAMPTZ[] -> TIMESTAMPTZ
        1187 => 1186,  // INTERVAL[] -> INTERVAL
        1040 => 829,  // MACADDR[] -> MACADDR
        775 => 774,  // MACADDR8[] -> MACADDR8
        1017 => 600,  // POINT[] -> POINT
        1020 => 603,  // BOX[] -> BOX
        1019 => 602,  // PATH[] -> PATH
        629 => 628,  // LINE[] -> LINE
        1018 => 601,  // LSEG[] -> LSEG
        719 => 718,  // CIRCLE[] -> CIRCLE
        _ => ANY_OID,
    }
}

} // verus!
