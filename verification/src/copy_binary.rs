//! The binary `COPY FROM STDIN` stream.
//!
//! A stream is a header (the signature `PGCOPY\n\xff\r\n\0`, a flags word
//! and a header-extension length, both zero), then one tuple per record (a
//! 16-bit field count, then each field as a 32-bit big-endian length
//! followed by that many bytes, or the length -1 for NULL), then the trailer
//! (a field count of -1). The encoder cuts the stream into chunks of at
//! least `COPY_BUFFER_SIZE` bytes, cut only between records, so that it can
//! be sent in large writes.

use vstd::prelude::*;

use crate::errors::{PSQLPyResult, RustPSQLDriverError};
use crate::text::{decimal, push_decimal, push_str};

verus! {

/// A chunk is handed out once the buffer holds at least this many bytes.
pub const COPY_BUFFER_SIZE: usize = 524288;

/// The 4 big-endian bytes of `x`.
pub open spec fn be_u32(x: u32) -> Seq<u8> {
    seq![(x >> 24u32) as u8, ((x >> 16u32) & 0xffu32) as u8, ((x >> 8u32) & 0xffu32) as u8, (x & 0xffu32) as u8]
}

/// The 4 big-endian two's-complement bytes of `x`.
pub open spec fn be_i32(x: i32) -> Seq<u8> {
    be_u32(x as u32)
}

/// The 2 big-endian two's-complement bytes of `x`.
pub open spec fn be_i16(x: i16) -> Seq<u8> {
    seq![((x as u16) >> 8u16) as u8, ((x as u16) & 0xffu16) as u8]
}

/// The value of 4 big-endian two's-complement bytes.
pub open spec fn read_be_i32(b: Seq<u8>) -> i32 {
    (((b[0] as u32) << 24u32) | ((b[1] as u32) << 16u32) | ((b[2] as u32) << 8u32) | (b[3] as u32)) as i32
}

/// The stream's header.
pub open spec fn copy_header() -> Seq<u8> {
    seq![0x50u8, 0x47u8, 0x43u8, 0x4fu8, 0x50u8, 0x59u8, 0x0au8, 0xffu8, 0x0du8, 0x0au8, 0x00u8]
        + be_i32(0) + be_i32(0)
}

/// The stream's trailer.
pub open spec fn copy_trailer() -> Seq<u8> {
    be_i16(-1i16)
}

/// One field: its length and bytes, or the length -1 for NULL.
pub open spec fn field_bytes(f: Option<Seq<u8>>) -> Seq<u8> {
    match f {
        Some(p) => be_i32(p.len() as i32) + p,
        None => be_i32(-1i32),
    }
}

pub open spec fn fields_bytes(fs: Seq<Option<Seq<u8>>>) -> Seq<u8>
    decreases fs.len(),
{
    if fs.len() == 0 {
        Seq::empty()
    } else {
        fields_bytes(fs.drop_last()) + field_bytes(fs.last())
    }
}

/// One tuple: the field count, then the fields.
pub open spec fn row_bytes(fs: Seq<Option<Seq<u8>>>) -> Seq<u8> {
    be_i16(fs.len() as i16) + fields_bytes(fs)
}

pub open spec fn rows_bytes(rows: Seq<Seq<Option<Seq<u8>>>>) -> Seq<u8>
    decreases rows.len(),
{
    if rows.len() == 0 {
        Seq::empty()
    } else {
        rows_bytes(rows.drop_last()) + row_bytes(rows.last())
    }
}

/// The whole stream for a sequence of records.
pub open spec fn copy_stream(rows: Seq<Seq<Option<Seq<u8>>>>) -> Seq<u8> {
    copy_header() + rows_bytes(rows) + copy_trailer()
}

/// The chunks, one after the other.
pub open spec fn flatten(chunks: Seq<Seq<u8>>) -> Seq<u8>
    decreases chunks.len(),
{
    if chunks.len() == 0 {
        Seq::empty()
    } else {
        flatten(chunks.drop_last()) + chunks.last()
    }
}

pub open spec fn field_view(f: Option<Vec<u8>>) -> Option<Seq<u8>> {
    match f {
        Some(b) => Some(b@),
        None => None,
    }
}

pub open spec fn fields_view(fs: Seq<Option<Vec<u8>>>) -> Seq<Option<Seq<u8>>> {
    fs.map_values(|f: Option<Vec<u8>>| field_view(f))
}

pub open spec fn chunks_view(cs: Seq<Vec<u8>>) -> Seq<Seq<u8>> {
    cs.map_values(|c: Vec<u8>| c@)
}

/// A field's length prefix reads back as its length.
pub proof fn lemma_be_i32_reads_back(x: i32)
    ensures
        read_be_i32(be_i32(x)) == x,
{
    let u = x as u32;
    assert((((((u >> 24u32) as u8) as u32) << 24u32) | (((((u >> 16u32) & 0xffu32) as u8) as u32) << 16u32)
        | (((((u >> 8u32) & 0xffu32) as u8) as u32) << 8u32) | (((u & 0xffu32) as u8) as u32)) == u)
        by (bit_vector);
    assert(((u as i32) == x)) by (bit_vector)
        requires u == x as u32;
}

/// A framed field reads back: its first 4 bytes give the payload's length
/// (-1 for NULL), the payload follows, and what comes after the field is
/// left as it was.
pub proof fn lemma_field_reads_back(f: Option<Seq<u8>>, rest: Seq<u8>)
    requires
        f matches Some(p) ==> p.len() <= i32::MAX,
    ensures
        ({
            let b = field_bytes(f) + rest;
            let n: int = match f {
                Some(p) => p.len() as int,
                None => 0,
            };
            &&& read_be_i32(b.take(4)) == (match f {
                Some(p) => p.len() as i32,
                None => -1i32,
            })
            &&& (f matches Some(p) ==> b.subrange(4, 4 + n) == p)
            &&& b.skip(4 + n) == rest
        }),
{
    let b = field_bytes(f) + rest;
    match f {
        Some(p) => {
            lemma_be_i32_reads_back(p.len() as i32);
            assert(b.take(4) =~= be_i32(p.len() as i32));
            assert(b.subrange(4, 4 + p.len() as int) =~= p);
            assert(b.skip(4 + p.len() as int) =~= rest);
        },
        None => {
            lemma_be_i32_reads_back(-1i32);
            assert(b.take(4) =~= be_i32(-1i32));
            assert(b.skip(4) =~= rest);
        },
    }
}

fn push_be_u32(buf: &mut Vec<u8>, x: u32)
    ensures
        final(buf)@ == old(buf)@ + be_u32(x),
{
    buf.push((x >> 24u32) as u8);
    buf.push(((x >> 16u32) & 0xffu32) as u8);
    buf.push(((x >> 8u32) & 0xffu32) as u8);
    buf.push((x & 0xffu32) as u8);
    assert(buf@ =~= old(buf)@ + be_u32(x));
}

/// Appends the 4 big-endian bytes of `x`.
pub fn push_be_i32(buf: &mut Vec<u8>, x: i32)
    ensures
        final(buf)@ == old(buf)@ + be_i32(x),
{
    push_be_u32(buf, x as u32);
}

/// Appends the 2 big-endian bytes of `x`.
pub fn push_be_i16(buf: &mut Vec<u8>, x: i16)
    ensures
        final(buf)@ == old(buf)@ + be_i16(x),
{
    buf.push(((x as u16) >> 8u16) as u8);
    buf.push(((x as u16) & 0xffu16) as u8);
    assert(buf@ =~= old(buf)@ + be_i16(x));
}

fn push_bytes(buf: &mut Vec<u8>, bytes: &Vec<u8>)
    ensures
        final(buf)@ == old(buf)@ + bytes@,
{
    let mut i: usize = 0;
    while i < bytes.len()
        invariant
            i <= bytes.len(),
            buf@ == old(buf)@ + bytes@.take(i as int),
        decreases bytes.len() - i,
    {
        buf.push(bytes[i]);
        assert(bytes@.take(i as int + 1) =~= bytes@.take(i as int).push(bytes@[i as int]));
        assert(buf@ =~= old(buf)@ + bytes@.take(i as int + 1));
        i = i + 1;
    }
    assert(bytes@.take(bytes.len() as int) =~= bytes@);
}

/// Appends one field: its 32-bit big-endian length and its bytes, or the
/// length -1 when the value is NULL.
pub fn encode_copy_field(buf: &mut Vec<u8>, value: &Option<Vec<u8>>)
    requires
        value matches Some(p) ==> p.len() <= i32::MAX,
    ensures
        final(buf)@ == old(buf)@ + field_bytes(field_view(*value)),
{
    match value {
        Some(payload) => {
            push_be_i32(buf, payload.len() as i32);
            push_bytes(buf, payload);
            assert(buf@ =~= old(buf)@ + field_bytes(field_view(*value)));
        },
        None => push_be_i32(buf, -1),
    }
}

/// A value that could not be serialised for the stream, reported as a
/// conversion error carrying the serialiser's message.
pub fn copy_encode_error(message: &str) -> (e: RustPSQLDriverError)
    ensures
        e matches RustPSQLDriverError::PyToRustValueConversionError(m)
            && m@ == "COPY binary encode error: "@ + message@,
{
    let mut m = String::new();
    push_str(&mut m, "COPY binary encode error: ");
    push_str(&mut m, message);
    RustPSQLDriverError::PyToRustValueConversionError(m)
}

/// Appends one tuple: the field count and the fields.
pub fn encode_copy_row(buf: &mut Vec<u8>, fields: &Vec<Option<Vec<u8>>>)
    requires
        fields.len() <= i16::MAX,
        forall|i: int| 0 <= i < fields.len() ==> (#[trigger] fields@[i] matches Some(p) ==> p.len() <= i32::MAX),
    ensures
        final(buf)@ == old(buf)@ + row_bytes(fields_view(fields@)),
{
    let ghost fv = fields_view(fields@);
    push_be_i16(buf, fields.len() as i16);
    let ghost start = buf@;
    let mut i: usize = 0;
    while i < fields.len()
        invariant
            i <= fields.len() <= i16::MAX,
            fv == fields_view(fields@),
            forall|j: int| 0 <= j < fields.len() ==> (#[trigger] fields@[j] matches Some(p) ==> p.len() <= i32::MAX),
            buf@ == start + fields_bytes(fv.take(i as int)),
        decreases fields.len() - i,
    {
        assert(fields@[i as int] matches Some(p) ==> p.len() <= i32::MAX);
        encode_copy_field(buf, &fields[i]);
        assert(fv.take(i as int + 1).drop_last() =~= fv.take(i as int));
        assert(buf@ =~= start + fields_bytes(fv.take(i as int + 1)));
        i = i + 1;
    }
    assert(fv.take(fields.len() as int) =~= fv);
    assert(buf@ =~= old(buf)@ + row_bytes(fv));
}

/// An encoder of a binary `COPY` stream with a fixed number of fields per
/// record.
pub struct CopyBinaryEncoder {
    n_cols: usize,
    buf: Vec<u8>,
    chunks: Vec<Vec<u8>>,
    rows: Ghost<Seq<Seq<Option<Seq<u8>>>>>,
}

impl CopyBinaryEncoder {
    /// The number of fields each record must have.
    pub closed spec fn spec_n_cols(&self) -> nat {
        self.n_cols as nat
    }

    /// The records encoded so far.
    pub closed spec fn spec_rows(&self) -> Seq<Seq<Option<Seq<u8>>>> {
        self.rows@
    }

    /// The chunks handed out so far, and the bytes not yet handed out,
    /// together make up the stream so far; every handed-out chunk is at
    /// least `COPY_BUFFER_SIZE` bytes long.
    pub closed spec fn well_formed(&self) -> bool {
        &&& self.n_cols <= i16::MAX
        &&& flatten(chunks_view(self.chunks@)) + self.buf@ == copy_header() + rows_bytes(self.rows@)
        &&& forall|i: int| 0 <= i < self.chunks@.len() ==> #[trigger] self.chunks@[i].len() >= COPY_BUFFER_SIZE
        &&& forall|i: int| 0 <= i < self.rows@.len() ==> #[trigger] self.rows@[i].len() == self.n_cols
    }

    /// Starts a stream whose records have `n_cols` fields.
    pub fn new(n_cols: usize) -> (e: Self)
        requires
            n_cols <= i16::MAX,
        ensures
            e.well_formed(),
            e.spec_n_cols() == n_cols,
            e.spec_rows() == Seq::<Seq<Option<Seq<u8>>>>::empty(),
    {
        let mut buf: Vec<u8> = Vec::new();
        buf.push(0x50u8);
        buf.push(0x47u8);
        buf.push(0x43u8);
        buf.push(0x4fu8);
        buf.push(0x50u8);
        buf.push(0x59u8);
        buf.push(0x0au8);
        buf.push(0xffu8);
        buf.push(0x0du8);
        buf.push(0x0au8);
        buf.push(0x00u8);
        push_be_i32(&mut buf, 0);
        push_be_i32(&mut buf, 0);
        let e = CopyBinaryEncoder { n_cols, buf, chunks: Vec::new(), rows: Ghost(Seq::empty()) };
        assert(chunks_view(e.chunks@) =~= Seq::<Seq<u8>>::empty());
        assert(flatten(chunks_view(e.chunks@)) + e.buf@ =~= copy_header() + rows_bytes(e.rows@));
        e
    }

    /// Starts a stream for a table whose columns were introspected: a table
    /// without columns cannot be copied into.
    pub fn for_columns(n_cols: usize) -> (r: PSQLPyResult<Self>)
        requires
            n_cols <= i16::MAX,
        ensures
            n_cols > 0 ==> (r matches Ok(e) && e.well_formed() && e.spec_n_cols() == n_cols
                && e.spec_rows() == Seq::<Seq<Option<Seq<u8>>>>::empty()),
            n_cols == 0 ==> (r matches Err(RustPSQLDriverError::PyToRustValueConversionError(m))
                && m@ == "Cannot introspect column types from target table"@),
    {
        if n_cols == 0 {
            return Err(RustPSQLDriverError::PyToRustValueConversionError(
                "Cannot introspect column types from target table".to_owned(),
            ));
        }
        Ok(CopyBinaryEncoder::new(n_cols))
    }

    /// Checks that the record at `row_idx` has `n_fields` fields, as many
    /// as the stream's records must have.
    pub fn check_row_len(&self, row_idx: usize, n_fields: usize) -> (r: PSQLPyResult<()>)
        ensures
            r is Ok <==> n_fields == self.spec_n_cols(),
            r matches Err(e) ==> (e matches RustPSQLDriverError::PyToRustValueConversionError(m)
                && m@ == "Record at index "@ + decimal(row_idx as nat) + " has "@ + decimal(n_fields as nat)
                + " fields, expected "@ + decimal(self.spec_n_cols())),
    {
        if n_fields == self.n_cols {
            Ok(())
        } else {
            let mut m = String::new();
            push_str(&mut m, "Record at index ");
            push_decimal(&mut m, row_idx as u64);
            push_str(&mut m, " has ");
            push_decimal(&mut m, n_fields as u64);
            push_str(&mut m, " fields, expected ");
            push_decimal(&mut m, self.n_cols as u64);
            assert(m@ =~= "Record at index "@ + decimal(row_idx as nat) + " has "@ + decimal(n_fields as nat)
                + " fields, expected "@ + decimal(self.n_cols as nat));
            Err(RustPSQLDriverError::PyToRustValueConversionError(m))
        }
    }

    /// Encodes one record, and hands out the buffered bytes as a chunk once
    /// they reach `COPY_BUFFER_SIZE`.
    pub fn add_row(&mut self, fields: &Vec<Option<Vec<u8>>>)
        requires
            old(self).well_formed(),
            fields.len() == old(self).spec_n_cols(),
            forall|i: int| 0 <= i < fields.len() ==> (#[trigger] fields@[i] matches Some(p) ==> p.len() <= i32::MAX),
        ensures
            final(self).well_formed(),
            final(self).spec_n_cols() == old(self).spec_n_cols(),
            final(self).spec_rows() == old(self).spec_rows().push(fields_view(fields@)),
    {
        let ghost old_rows = self.rows@;
        let ghost new_rows = old_rows.push(fields_view(fields@));
        let ghost old_buf = self.buf@;
        let ghost flat = flatten(chunks_view(self.chunks@));
        assert(flat + old_buf == copy_header() + rows_bytes(old_rows));
        encode_copy_row(&mut self.buf, fields);
        assert(self.buf@ == old_buf + row_bytes(fields_view(fields@)));
        assert(flat + self.buf@ =~= (flat + old_buf) + row_bytes(fields_view(fields@)));
        self.rows = Ghost(new_rows);
        assert(new_rows.drop_last() =~= old_rows);
        assert(new_rows.last() == fields_view(fields@));
        assert(rows_bytes(new_rows) == rows_bytes(old_rows) + row_bytes(fields_view(fields@)));
        assert(fields_view(fields@).len() == fields@.len());
        assert(flatten(chunks_view(self.chunks@)) + self.buf@ =~= copy_header() + rows_bytes(new_rows));
        if self.buf.len() >= COPY_BUFFER_SIZE {
            let mut chunk: Vec<u8> = Vec::new();
            std::mem::swap(&mut chunk, &mut self.buf);
            let ghost before = chunks_view(self.chunks@);
            self.chunks.push(chunk);
            assert(chunks_view(self.chunks@) =~= before.push(chunk@));
            assert(chunks_view(self.chunks@).drop_last() =~= before);
            assert(flatten(chunks_view(self.chunks@)) + self.buf@ =~= copy_header() + rows_bytes(new_rows));
        }
    }

    /// Ends the stream with its trailer and hands out all its chunks.
    pub fn finish(self) -> (chunks: Vec<Vec<u8>>)
        requires
            self.well_formed(),
        ensures
            flatten(chunks_view(chunks@)) == copy_stream(self.spec_rows()),
            chunks.len() > 0,
            forall|i: int| 0 <= i < chunks@.len() - 1 ==> #[trigger] chunks@[i].len() >= COPY_BUFFER_SIZE,
    {
        let mut buf = self.buf;
        let mut chunks = self.chunks;
        let ghost before = chunks_view(chunks@);
        push_be_i16(&mut buf, -1);
        chunks.push(buf);
        assert(chunks_view(chunks@) =~= before.push(buf@));
        assert(chunks_view(chunks@).drop_last() =~= before);
        assert(flatten(chunks_view(chunks@)) =~= copy_stream(self.rows@));
        chunks
    }
}

} // verus!
