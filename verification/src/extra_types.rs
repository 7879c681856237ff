//! Wrapper types by which users pick the PostgreSQL type of a parameter.

use std::str::FromStr;

use vstd::prelude::*;

use crate::errors::{PSQLPyResult, RustPSQLDriverError};
use crate::text::{push_char, push_signed_decimal, push_str, signed_decimal};

verus! {

/// Marks a parameter as an array.
pub struct PythonArray;

/// Marks a parameter as a decimal.
pub struct PythonDecimal;

/// Marks a parameter as a UUID.
pub struct PythonUUID;

/// Marks a parameter as an enum.
pub struct PythonEnum;


/// A `i16` parameter, sent as PostgreSQL's `SmallInt`.
#[derive(Clone, Copy, Debug, PartialEq, Eq, Structural)]
pub struct SmallInt {
    inner_value: i16,
}

impl SmallInt {
    pub closed spec fn spec_inner(&self) -> i16 {
        self.inner_value
    }

    pub fn new_class(inner_value: i16) -> (v: Self)
        ensures
            v.spec_inner() == inner_value,
    {
        Self { inner_value }
    }

    pub fn inner(&self) -> (v: i16)
        ensures
            v == self.spec_inner(),
    {
        self.inner_value
    }

    /// The type's name and the value, as `SmallInt, <value>`.
    pub fn __str__(&self) -> (s: String)
        ensures
            s@ == "SmallInt, "@ + signed_decimal(self.spec_inner() as int),
    {
        let mut s = String::new();
        push_str(&mut s, "SmallInt, ");
        push_signed_decimal(&mut s, self.inner_value as i64);
        s
    }
}


/// A `i32` parameter, sent as PostgreSQL's `Integer`.
#[derive(Clone, Copy, Debug, PartialEq, Eq, Structural)]
pub struct Integer {
    inner_value: i32,
}

impl Integer {
    pub closed spec fn spec_inner(&self) -> i32 {
        self.inner_value
    }

    pub fn new_class(inner_value: i32) -> (v: Self)
        ensures
            v.spec_inner() == inner_value,
    {
        Self { inner_value }
    }

    pub fn inner(&self) -> (v: i32)
        ensures
            v == self.spec_inner(),
    {
        self.inner_value
    }

    /// The type's name and the value, as `Integer, <value>`.
    pub fn __str__(&self) -> (s: String)
        ensures
            s@ == "Integer, "@ + signed_decimal(self.spec_inner() as int),
    {
        let mut s = String::new();
        push_str(&mut s, "Integer, ");
        push_signed_decimal(&mut s, self.inner_value as i64);
        s
    }
}


/// A `i64` parameter, sent as PostgreSQL's `BigInt`.
#[derive(Clone, Copy, Debug, PartialEq, Eq, Structural)]
pub struct BigInt {
    inner_value: i64,
}

impl BigInt {
    pub closed spec fn spec_inner(&self) -> i64 {
        self.inner_value
    }

    pub fn new_class(inner_value: i64) -> (v: Self)
        ensures
            v.spec_inner() == inner_value,
    {
        Self { inner_value }
    }

    pub fn inner(&self) -> (v: i64)
        ensures
            v == self.spec_inner(),
    {
        self.inner_value
    }

    /// The type's name and the value, as `BigInt, <value>`.
    pub fn __str__(&self) -> (s: String)
        ensures
            s@ == "BigInt, "@ + signed_decimal(self.spec_inner() as int),
    {
        let mut s = String::new();
        push_str(&mut s, "BigInt, ");
        push_signed_decimal(&mut s, self.inner_value as i64);
        s
    }
}


/// A `i64` parameter, sent as PostgreSQL's `Money`.
#[derive(Clone, Copy, Debug, PartialEq, Eq, Structural)]
pub struct Money {
    inner_value: i64,
}

impl Money {
    pub closed spec fn spec_inner(&self) -> i64 {
        self.inner_value
    }

    pub fn new_class(inner_value: i64) -> (v: Self)
        ensures
            v.spec_inner() == inner_value,
    {
        Self { inner_value }
    }

    pub fn inner(&self) -> (v: i64)
        ensures
            v == self.spec_inner(),
    {
        self.inner_value
    }

    /// The type's name and the value, as `Money, <value>`.
    pub fn __str__(&self) -> (s: String)
        ensures
            s@ == "Money, "@ + signed_decimal(self.spec_inner() as int),
    {
        let mut s = String::new();
        push_str(&mut s, "Money, ");
        push_signed_decimal(&mut s, self.inner_value as i64);
        s
    }
}


/// A text parameter, sent as PostgreSQL's `TEXT`.
#[derive(Clone, Debug)]
pub struct Text {
    inner: String,
}

impl Text {
    pub closed spec fn spec_inner(&self) -> Seq<char> {
        self.inner@
    }

    pub fn new_pytext(text_value: String) -> (v: Self)
        ensures
            v.spec_inner() == text_value@,
    {
        Self { inner: text_value }
    }

    pub fn inner(&self) -> (v: String)
        ensures
            v@ == self.spec_inner(),
    {
        self.inner.clone()
    }
}


/// A text parameter, sent as PostgreSQL's `VARCHAR`.
#[derive(Clone, Debug)]
pub struct VarChar {
    inner: String,
}

impl VarChar {
    pub closed spec fn spec_inner(&self) -> Seq<char> {
        self.inner@
    }

    pub fn new_varchar(text_value: String) -> (v: Self)
        ensures
            v.spec_inner() == text_value@,
    {
        Self { inner: text_value }
    }

    pub fn inner(&self) -> (v: String)
        ensures
            v@ == self.spec_inner(),
    {
        self.inner.clone()
    }
}


/// A parameter of a user-defined type, given as its binary representation.
#[derive(Clone, Debug)]
pub struct CustomType {
    inner: Vec<u8>,
}

impl CustomType {
    pub closed spec fn spec_inner(&self) -> Seq<u8> {
        self.inner@
    }

    pub fn new_class(type_bytes: Vec<u8>) -> (v: Self)
        ensures
            v.spec_inner() == type_bytes@,
    {
        CustomType { inner: type_bytes }
    }

    pub fn inner(&self) -> (v: Vec<u8>)
        ensures
            v@ == self.spec_inner(),
    {
        let mut v: Vec<u8> = Vec::new();
        let mut i: usize = 0;
        while i < self.inner.len()
            invariant
                i <= self.inner.len(),
                v@ =~= self.inner@.take(i as int),
            decreases self.inner.len() - i,
        {
            v.push(self.inner[i]);
            assert(self.inner@.take(i as int + 1) =~= self.inner@.take(i as int).push(self.inner@[i as int]));
            i = i + 1;
        }
        assert(self.inner@.take(self.inner.len() as int) =~= self.inner@);
        v
    }
}


/// Whether `c` may separate the byte pairs of a MAC address.
pub open spec fn is_mac_delimiter(c: char) -> bool {
    c == '-' || c == ':' || c == '.'
}

/// The value of a hexadecimal digit of either case.
pub open spec fn hex_value(c: char) -> Option<u8> {
    let n = c as u32;
    if 48 <= n <= 57 {
        Some((n - 48) as u8)
    } else if 97 <= n <= 102 {
        Some((n - 87) as u8)
    } else if 65 <= n <= 70 {
        Some((n - 55) as u8)
    } else {
        None
    }
}

/// The `n` bytes written in `s` as pairs of hexadecimal digits, each pair
/// with an optional separator before it (the first one too); all the
/// separators used are the same character, and nothing follows the last
/// pair. `delimiter` is the separator seen so far.
pub open spec fn mac_bytes(s: Seq<char>, n: nat, delimiter: Option<char>) -> Option<Seq<u8>>
    decreases n,
{
    if n == 0 {
        if s.len() == 0 { Some(Seq::empty()) } else { None }
    } else {
        let sep = s.len() > 0 && is_mac_delimiter(s[0]);
        let rest = if sep { s.skip(1) } else { s };
        let d = if sep { Some(s[0]) } else { delimiter };
        if sep && delimiter is Some && delimiter != Some(s[0]) {
            None
        } else if rest.len() >= 2 && hex_value(rest[0]) is Some && hex_value(rest[1]) is Some {
            match mac_bytes(rest.skip(2), (n - 1) as nat, d) {
                Some(b) => Some(seq![(hex_value(rest[0]).unwrap() * 16 + hex_value(rest[1]).unwrap()) as u8] + b),
                None => None,
            }
        } else {
            None
        }
    }
}

/// Parses a MAC address of 6 bytes with `macaddr::MacAddr6::from_str`,
/// which accepts exactly the texts that `mac_bytes` describes. On failure,
/// the parser's error text, which is not stated here.
#[verifier::external_body]
fn parse_macaddr6(s: &str) -> (r: Result<[u8; 6], String>)
    ensures
        match r {
            Ok(b) => mac_bytes(s@, 6, None) == Some(b@),
            Err(_) => mac_bytes(s@, 6, None) is None,
        },
{
    match macaddr::MacAddr6::from_str(s) {
        Ok(addr) => Ok(addr.into_array()),
        Err(err) => Err(err.to_string()),
    }
}

/// The upper-case hexadecimal digit of a value below 16.
pub open spec fn upper_hex_digit(d: nat) -> char {
    let r = d % 16;
    if r < 10 { crate::text::digit_char(r) }
    else if r == 10 { 'A' }
    else if r == 11 { 'B' }
    else if r == 12 { 'C' }
    else if r == 13 { 'D' }
    else if r == 14 { 'E' }
    else { 'F' }
}

/// A MAC address as text: each byte as two upper-case hexadecimal digits,
/// the bytes separated by colons (as the `macaddr` crate shows it).
pub open spec fn mac_text(b: Seq<u8>) -> Seq<char>
    decreases b.len(),
{
    if b.len() == 0 {
        Seq::empty()
    } else {
        let pair = seq![upper_hex_digit((b.last() / 16) as nat), upper_hex_digit((b.last() % 16) as nat)];
        if b.len() == 1 {
            pair
        } else {
            mac_text(b.drop_last()) + seq![':'] + pair
        }
    }
}

fn upper_hex_char(d: u8) -> (c: char)
    requires
        d < 16,
    ensures
        c == upper_hex_digit(d as nat),
{
    if d < 10 {
        if d == 0 { '0' } else if d == 1 { '1' } else if d == 2 { '2' } else if d == 3 { '3' }
        else if d == 4 { '4' } else if d == 5 { '5' } else if d == 6 { '6' } else if d == 7 { '7' }
        else if d == 8 { '8' } else { '9' }
    } else if d == 10 { 'A' } else if d == 11 { 'B' } else if d == 12 { 'C' } else if d == 13 { 'D' }
    else if d == 14 { 'E' } else { 'F' }
}

/// The text of a MAC address.
fn mac_to_text(b: &[u8]) -> (s: String)
    ensures
        s@ == mac_text(b@),
{
    let mut s = String::new();
    let mut i: usize = 0;
    while i < b.len()
        invariant
            i <= b.len(),
            s@ == mac_text(b@.take(i as int)),
        decreases b.len() - i,
    {
        let ghost before = s@;
        if i > 0 {
            push_char(&mut s, ':');
        }
        push_char(&mut s, upper_hex_char(b[i] / 16));
        push_char(&mut s, upper_hex_char(b[i] % 16));
        assert(b@.take(i as int + 1).drop_last() =~= b@.take(i as int));
        assert(b@.take(i as int + 1).last() == b@[i as int]);
        if i == 0 {
            assert(b@.take(0) =~= Seq::<u8>::empty());
        }
        assert(s@ =~= mac_text(b@.take(i as int + 1)));
        i = i + 1;
    }
    assert(b@.take(b.len() as int) =~= b@);
    s
}

/// A MAC address parameter (6 bytes).
#[derive(Clone, Copy, Debug)]
pub struct MacAddr6 {
    inner: [u8; 6],
}

impl MacAddr6 {
    pub closed spec fn spec_inner(&self) -> Seq<u8> {
        self.inner@
    }

    /// Reads a MAC address from text (pairs of hexadecimal digits, see
    /// `mac_bytes`); any other text is a MAC address conversion error.
    pub fn new_class(value: &str) -> (r: PSQLPyResult<Self>)
        ensures
            match mac_bytes(value@, 6, None) {
                Some(b) => r matches Ok(a) && a.spec_inner() == b,
                None => r matches Err(e) && e is RustMacAddrConversionError,
            },
    {
        match parse_macaddr6(value) {
            Ok(bytes) => Ok(MacAddr6 { inner: bytes }),
            Err(message) => Err(RustPSQLDriverError::RustMacAddrConversionError(message)),
        }
    }

    pub fn inner(self) -> (b: [u8; 6])
        ensures
            b@ == self.spec_inner(),
    {
        self.inner
    }

    /// Decodes the binary wire format of `macaddr`, which is exactly six
    /// bytes.
    pub fn from_sql(raw: &[u8]) -> (r: Result<Self, String>)
        ensures
            raw@.len() == 6 ==> (r matches Ok(a) && a.spec_inner() == raw@),
            raw@.len() != 6 ==> (r matches Err(m) && m@ == "Cannot convert PostgreSQL MACADDR into rust MacAddr6"@),
    {
        if raw.len() != 6 {
            return Err("Cannot convert PostgreSQL MACADDR into rust MacAddr6".to_string());
        }
        let inner: [u8; 6] = [raw[0], raw[1], raw[2], raw[3], raw[4], raw[5]];
        assert(inner@ =~= raw@);
        Ok(MacAddr6 { inner })
    }

    /// The address as text, as handed to Python.
    pub fn to_text(&self) -> (s: String)
        ensures
            s@ == mac_text(self.spec_inner()),
    {
        mac_to_text(self.inner.as_slice())
    }
}


/// Parses a MAC address of 8 bytes with `macaddr::MacAddr8::from_str`,
/// which accepts exactly the texts that `mac_bytes` describes. On failure,
/// the parser's error text, which is not stated here.
#[verifier::external_body]
fn parse_macaddr8(s: &str) -> (r: Result<[u8; 8], String>)
    ensures
        match r {
            Ok(b) => mac_bytes(s@, 8, None) == Some(b@),
            Err(_) => mac_bytes(s@, 8, None) is None,
        },
{
    match macaddr::MacAddr8::from_str(s) {
        Ok(addr) => Ok(addr.into_array()),
        Err(err) => Err(err.to_string()),
    }
}

/// A MAC address parameter (8 bytes).
#[derive(Clone, Copy, Debug)]
pub struct MacAddr8 {
    inner: [u8; 8],
}

impl MacAddr8 {
    pub closed spec fn spec_inner(&self) -> Seq<u8> {
        self.inner@
    }

    /// Reads a MAC address from text (pairs of hexadecimal digits, see
    /// `mac_bytes`); any other text is a MAC address conversion error.
    pub fn new_class(value: &str) -> (r: PSQLPyResult<Self>)
        ensures
            match mac_bytes(value@, 8, None) {
                Some(b) => r matches Ok(a) && a.spec_inner() == b,
                None => r matches Err(e) && e is RustMacAddrConversionError,
            },
    {
        match parse_macaddr8(value) {
            Ok(bytes) => Ok(MacAddr8 { inner: bytes }),
            Err(message) => Err(RustPSQLDriverError::RustMacAddrConversionError(message)),
        }
    }

    pub fn inner(self) -> (b: [u8; 8])
        ensures
            b@ == self.spec_inner(),
    {
        self.inner
    }

    /// Decodes the binary wire format of `macaddr8`, which is exactly eight
    /// bytes.
    pub fn from_sql(raw: &[u8]) -> (r: Result<Self, String>)
        ensures
            raw@.len() == 8 ==> (r matches Ok(a) && a.spec_inner() == raw@),
            raw@.len() != 8 ==> (r matches Err(m) && m@ == "Cannot convert PostgreSQL MACADDR8 into rust MacAddr8"@),
    {
        if raw.len() != 8 {
            return Err("Cannot convert PostgreSQL MACADDR8 into rust MacAddr8".to_string());
        }
        let inner: [u8; 8] = [raw[0], raw[1], raw[2], raw[3], raw[4], raw[5], raw[6], raw[7]];
        assert(inner@ =~= raw@);
        Ok(MacAddr8 { inner })
    }

    /// The address as text, as handed to Python.
    pub fn to_text(&self) -> (s: String)
        ensures
            s@ == mac_text(self.spec_inner()),
    {
        mac_to_text(self.inner.as_slice())
    }
}

} // verus!
