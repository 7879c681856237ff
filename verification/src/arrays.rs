//! The shape of a PostgreSQL array as nested lists.
//!
//! An array arrives as its elements in row-major order and the length of
//! each dimension. It is handed to Python as nested lists: one level of
//! lists per dimension, the last level holding the elements. The shape is
//! given as a stream of tokens (open a list, an element by its position,
//! close the list). Where the elements run out before the dimensions say,
//! the lists stop early.

use postgres_protocol::types::array_from_sql;
use tokio_postgres::fallible_iterator::FallibleIterator;
use vstd::prelude::*;

use crate::errors::{PSQLPyResult, RustPSQLDriverError};
use crate::text::push_str;

verus! {

/// A step in building nested lists.
#[derive(Clone, Copy, Debug, PartialEq, Eq, Structural)]
pub enum ArrayToken {
    /// Start a new list.
    Open,
    /// Append the element at this position of the flat data.
    Item(usize),
    /// End the current list.
    Close,
}

/// The number of elements one entry of dimension `from` spans: the
/// product of the lengths of the dimensions from `from` on.
pub open spec fn dims_product(dims: Seq<usize>, from: int) -> int
    decreases dims.len() - from,
{
    if from < 0 || from >= dims.len() {
        1
    } else {
        dims[from] * dims_product(dims, from + 1)
    }
}

/// `x`, or the largest `usize` when `x` is larger.
pub open spec fn capped(x: int) -> int {
    if x > usize::MAX { usize::MAX as int } else { x }
}

/// The elements at positions `from` to `to` (exclusive), in order.
pub open spec fn item_tokens(from: int, to: int) -> Seq<ArrayToken> {
    if to <= from {
        Seq::empty()
    } else {
        Seq::new((to - from) as nat, |k: int| ArrayToken::Item((from + k) as usize))
    }
}

/// The list for dimension `i` whose first element is at position `off`,
/// over `n` elements in all.
pub open spec fn nested_tokens(dims: Seq<usize>, n: int, i: int, off: int) -> Seq<ArrayToken>
    decreases dims.len() - i, 1int, 0int,
{
    if i < 0 || i >= dims.len() || off >= n {
        seq![ArrayToken::Open, ArrayToken::Close]
    } else if i + 1 >= dims.len() {
        let end = if off + dims[i] > n { n } else { off + dims[i] };
        seq![ArrayToken::Open] + item_tokens(off, end) + seq![ArrayToken::Close]
    } else {
        seq![ArrayToken::Open] + sublists(dims, n, i, off, dims[i] as int) + seq![ArrayToken::Close]
    }
}

/// The first `count` lists of dimension `i + 1` inside a list of dimension
/// `i`, the first of them starting at `off`; they stop once the elements
/// run out.
pub open spec fn sublists(dims: Seq<usize>, n: int, i: int, off: int, count: int) -> Seq<ArrayToken>
    decreases dims.len() - i, 0int, count,
{
    if i < 0 || i + 1 >= dims.len() || count <= 0 || off >= n {
        Seq::empty()
    } else {
        nested_tokens(dims, n, i + 1, off) + sublists(dims, n, i, off + dims_product(dims, i + 1), count - 1)
    }
}

proof fn lemma_dims_product_nonneg(dims: Seq<usize>, from: int)
    ensures
        dims_product(dims, from) >= 0,
    decreases dims.len() - from,
{
    if 0 <= from < dims.len() {
        lemma_dims_product_nonneg(dims, from + 1);
        let p = dims_product(dims, from + 1);
        let d = dims[from] as int;
        assert(d * p >= 0) by (nonlinear_arith)
            requires
                d >= 0,
                p >= 0,
        ;
    }
}

/// The positions of the elements among the tokens, in order.
pub open spec fn token_items(tokens: Seq<ArrayToken>) -> Seq<int>
    decreases tokens.len(),
{
    if tokens.len() == 0 {
        Seq::empty()
    } else {
        token_items(tokens.drop_last()) + match tokens.last() {
            ArrayToken::Item(p) => seq![p as int],
            _ => Seq::empty(),
        }
    }
}

/// The positions from `a` to `b` (exclusive).
pub open spec fn positions(a: int, b: int) -> Seq<int> {
    if b <= a { Seq::empty() } else { Seq::new((b - a) as nat, |k: int| a + k) }
}

proof fn lemma_token_items_concat(x: Seq<ArrayToken>, y: Seq<ArrayToken>)
    ensures
        token_items(x + y) == token_items(x) + token_items(y),
    decreases y.len(),
{
    if y.len() == 0 {
        assert(x + y =~= x);
        assert(token_items(y) =~= Seq::<int>::empty());
        assert(token_items(x) + token_items(y) =~= token_items(x));
    } else {
        lemma_token_items_concat(x, y.drop_last());
        assert((x + y).drop_last() =~= x + y.drop_last());
        assert((x + y).last() == y.last());
        let tail = match y.last() {
            ArrayToken::Item(p) => seq![p as int],
            _ => Seq::<int>::empty(),
        };
        assert(token_items(x + y) == token_items(x + y.drop_last()) + tail);
        assert(token_items(y) == token_items(y.drop_last()) + tail);
        assert(token_items(x + y) =~= token_items(x) + token_items(y));
    }
}

proof fn lemma_item_tokens_items(a: int, b: int)
    requires
        0 <= a,
        b <= usize::MAX + 1,
    ensures
        token_items(item_tokens(a, b)) == positions(a, b),
    decreases b - a,
{
    if b <= a {
        assert(item_tokens(a, b) =~= Seq::<ArrayToken>::empty());
        assert(token_items(item_tokens(a, b)) =~= Seq::<int>::empty());
    } else {
        lemma_item_tokens_items(a, b - 1);
        assert(item_tokens(a, b).drop_last() =~= item_tokens(a, b - 1));
        assert(item_tokens(a, b).last() == ArrayToken::Item((b - 1) as usize));
        assert(positions(a, b) =~= positions(a, b - 1) + seq![b - 1]);
    }
}

proof fn lemma_positions_concat(a: int, b: int, c: int)
    requires
        a <= b <= c,
    ensures
        positions(a, b) + positions(b, c) == positions(a, c),
{
    assert(positions(a, b) + positions(b, c) =~= positions(a, c));
}

proof fn lemma_open_close_items(x: Seq<ArrayToken>)
    ensures
        token_items(seq![ArrayToken::Open] + x + seq![ArrayToken::Close]) == token_items(x),
{
    lemma_token_items_concat(seq![ArrayToken::Open], x);
    lemma_token_items_concat(seq![ArrayToken::Open] + x, seq![ArrayToken::Close]);
    assert(token_items(Seq::<ArrayToken>::empty()) =~= Seq::<int>::empty());
    assert(token_items(seq![ArrayToken::Open]) =~= Seq::<int>::empty()) by {
        assert(seq![ArrayToken::Open].drop_last() =~= Seq::<ArrayToken>::empty());
    }
    assert(token_items(seq![ArrayToken::Close]) =~= Seq::<int>::empty()) by {
        assert(seq![ArrayToken::Close].drop_last() =~= Seq::<ArrayToken>::empty());
    }
    assert(token_items(seq![ArrayToken::Open] + x + seq![ArrayToken::Close]) =~= token_items(x));
}

proof fn lemma_nested_items(dims: Seq<usize>, n: int, i: int, off: int)
    requires
        0 <= i < dims.len(),
        0 <= off,
        off + dims_product(dims, i) <= n,
        n <= usize::MAX + 1,
    ensures
        token_items(nested_tokens(dims, n, i, off)) == positions(off, off + dims_product(dims, i)),
    decreases dims.len() - i, 1int, 0int,
{
    lemma_dims_product_nonneg(dims, i + 1);
    let p = dims_product(dims, i + 1);
    let d = dims[i] as int;
    if off >= n {
        assert(d * p <= 0);
        assert(d * p == 0) by (nonlinear_arith)
            requires
                d * p <= 0,
                d >= 0,
                p >= 0,
        ;
        assert(token_items(nested_tokens(dims, n, i, off)) =~= Seq::<int>::empty()) by {
            lemma_open_close_items(Seq::<ArrayToken>::empty());
            assert(seq![ArrayToken::Open, ArrayToken::Close] =~= seq![ArrayToken::Open] + Seq::<ArrayToken>::empty()
                + seq![ArrayToken::Close]);
        }
        assert(positions(off, off + dims_product(dims, i)) =~= Seq::<int>::empty());
    } else if i + 1 >= dims.len() {
        assert(p == 1);
        assert(dims_product(dims, i) == d);
        lemma_open_close_items(item_tokens(off, off + d));
        lemma_item_tokens_items(off, off + d);
    } else {
        lemma_sublists_items(dims, n, i, off, d);
        lemma_open_close_items(sublists(dims, n, i, off, d));
        assert(dims_product(dims, i) == d * p);
    }
}

proof fn lemma_sublists_items(dims: Seq<usize>, n: int, i: int, off: int, count: int)
    requires
        0 <= i,
        i + 1 < dims.len(),
        0 <= off,
        0 <= count,
        off + count * dims_product(dims, i + 1) <= n,
        n <= usize::MAX + 1,
    ensures
        token_items(sublists(dims, n, i, off, count)) == positions(off, off + count * dims_product(dims, i + 1)),
    decreases dims.len() - i, 0int, count,
{
    lemma_dims_product_nonneg(dims, i + 1);
    let p = dims_product(dims, i + 1);
    if count == 0 {
        assert(count * p == 0) by (nonlinear_arith)
            requires
                count == 0,
        ;
        assert(token_items(sublists(dims, n, i, off, count)) =~= Seq::<int>::empty());
        assert(positions(off, off + count * p) =~= Seq::<int>::empty());
    } else {
        assert(count * p == p + (count - 1) * p) by (nonlinear_arith);
        assert((count - 1) * p >= 0) by (nonlinear_arith)
            requires
                count >= 1,
                p >= 0,
        ;
        if off >= n {
            assert(count * p == 0);
            assert(p == 0) by (nonlinear_arith)
                requires
                    count * p == 0,
                    count >= 1,
            ;
            assert(token_items(sublists(dims, n, i, off, count)) =~= Seq::<int>::empty());
            assert(positions(off, off + count * p) =~= Seq::<int>::empty());
        } else {
            lemma_nested_items(dims, n, i + 1, off);
            lemma_sublists_items(dims, n, i, off + p, count - 1);
            lemma_token_items_concat(nested_tokens(dims, n, i + 1, off), sublists(dims, n, i, off + p, count - 1));
            lemma_positions_concat(off, off + p, off + count * p);
        }
    }
}

/// Flattening the nested lists of an array whose dimensions account for
/// all its elements gives back every element, in order, each once.
pub proof fn lemma_nest_array_flattens(dims: Seq<usize>, n: int)
    requires
        dims.len() > 0,
        dims_product(dims, 0) == n,
        n <= usize::MAX,
    ensures
        token_items(nested_tokens(dims, n, 0, 0)) == positions(0, n),
{
    lemma_nested_items(dims, n, 0, 0);
}

/// The span of one entry of dimension `from`, capped at the largest
/// `usize`.
fn product_from(dims: &Vec<usize>, from: usize) -> (p: usize)
    ensures
        p == capped(dims_product(dims@, from as int)),
{
    let mut acc: usize = 1;
    let mut j: usize = dims.len();
    while j > from
        invariant
            from <= j <= dims.len() || (j == dims.len() && from > dims.len()),
            acc == capped(dims_product(dims@, j as int)),
        decreases j,
    {
        j = j - 1;
        proof {
            lemma_dims_product_nonneg(dims@, j as int + 1);
        }
        let d = dims[j];
        let ghost p = dims_product(dims@, j as int + 1);
        assert(dims_product(dims@, j as int) == d * p);
        acc = match acc.checked_mul(d) {
            Some(v) => {
                assert(capped(d * p) == acc * d) by (nonlinear_arith)
                    requires
                        acc == capped(p),
                        acc * d <= usize::MAX,
                        p >= 0,
                        d >= 0,
                        acc >= 0,
                ;
                v
            },
            None => {
                assert(capped(d * p) == usize::MAX) by (nonlinear_arith)
                    requires
                        acc == capped(p),
                        acc * d > usize::MAX,
                        p >= 0,
                        d >= 0,
                        acc >= 0,
                ;
                usize::MAX
            },
        };
    }
    if from > dims.len() {
        assert(dims_product(dims@, from as int) == 1);
    }
    acc
}

/// Appends the list for dimension `i` whose first element is at `off`.
fn push_nested(dims: &Vec<usize>, n: usize, i: usize, off: usize, out: &mut Vec<ArrayToken>)
    ensures
        final(out)@ == old(out)@ + nested_tokens(dims@, n as int, i as int, off as int),
    decreases dims.len() - i,
{
    if i >= dims.len() || off >= n {
        out.push(ArrayToken::Open);
        out.push(ArrayToken::Close);
        assert(out@ =~= old(out)@ + nested_tokens(dims@, n as int, i as int, off as int));
        return;
    }
    if i + 1 >= dims.len() {
        let end: usize = if n - off < dims[i] { n } else { off + dims[i] };
        out.push(ArrayToken::Open);
        let ghost start = out@;
        let mut p = off;
        while p < end
            invariant
                off <= p <= end,
                out@ == start + item_tokens(off as int, p as int),
            decreases end - p,
        {
            out.push(ArrayToken::Item(p));
            assert(item_tokens(off as int, p as int + 1) =~= item_tokens(off as int, p as int).push(ArrayToken::Item(p)));
            p = p + 1;
        }
        out.push(ArrayToken::Close);
        assert(out@ =~= old(out)@ + nested_tokens(dims@, n as int, i as int, off as int));
        return;
    }
    let sub = product_from(dims, i + 1);
    proof {
        lemma_dims_product_nonneg(dims@, i as int + 1);
    }
    let ghost big_p = dims_product(dims@, i as int + 1);
    out.push(ArrayToken::Open);
    let ghost opened = out@;
    assert(opened == old(out)@ + seq![ArrayToken::Open]);
    let count = dims[i];
    let mut k: usize = 0;
    let mut cur: usize = off;
    let ghost mut cur_math: int = off as int;
    assert(out@ + sublists(dims@, n as int, i as int, cur_math, count - k) =~= opened
        + sublists(dims@, n as int, i as int, off as int, count as int));
    while k < count && cur < n
        invariant
            i + 1 < dims.len(),
            count == dims@[i as int],
            k <= count,
            sub == capped(big_p),
            big_p == dims_product(dims@, i as int + 1),
            big_p >= 0,
            cur_math >= 0,
            (cur < n) == (cur_math < n),
            cur < n ==> cur == cur_math,
            out@ + sublists(dims@, n as int, i as int, cur_math, count - k) == opened
                + sublists(dims@, n as int, i as int, off as int, count as int),
        decreases count - k,
    {
        let ghost before = out@;
        assert(sublists(dims@, n as int, i as int, cur_math, count - k) == nested_tokens(dims@, n as int, i as int + 1, cur_math)
            + sublists(dims@, n as int, i as int, cur_math + big_p, count - k - 1));
        push_nested(dims, n, i + 1, cur, out);
        assert(out@ + sublists(dims@, n as int, i as int, cur_math + big_p, count - (k + 1)) =~= before
            + sublists(dims@, n as int, i as int, cur_math, count - k));
        cur = cur.saturating_add(sub);
        proof {
            cur_math = cur_math + big_p;
        }
        k = k + 1;
    }
    assert(sublists(dims@, n as int, i as int, cur_math, count - k) =~= Seq::<ArrayToken>::empty());
    out.push(ArrayToken::Close);
    assert(out@ =~= old(out)@ + nested_tokens(dims@, n as int, i as int, off as int));
}

/// The nested lists of an array with these dimension lengths over `n`
/// elements, as tokens.
pub fn nest_array(dims: &Vec<usize>, n: usize) -> (tokens: Vec<ArrayToken>)
    ensures
        tokens@ == nested_tokens(dims@, n as int, 0, 0),
{
    let mut out: Vec<ArrayToken> = Vec::new();
    push_nested(dims, n, 0, 0, &mut out);
    assert(out@ =~= nested_tokens(dims@, n as int, 0, 0));
    out
}


/// Checks that `n_elements` values, in row-major order, fill an array
/// whose dimensions have the lengths `dims`: a nested Python sequence that
/// is not rectangular gives a different count and is refused.
pub fn check_array_shape(dims: &Vec<usize>, n_elements: usize) -> (r: PSQLPyResult<()>)
    ensures
        r is Ok <==> dims_product(dims@, 0) == n_elements,
        r matches Err(e) ==> (e matches RustPSQLDriverError::PyToRustValueConversionError(m)
            && m@ == "Cannot convert python sequence to PostgreSQL ARRAY, error - the dimensions do not match the number of elements"@),
{
    // `p` is the product of the lengths from `i` on, unless `exceeded`
    // records that this product is larger than `n_elements`.
    let mut i: usize = dims.len();
    let mut p: usize = 1;
    let mut exceeded = false;
    while i > 0
        invariant
            i <= dims.len(),
            !exceeded ==> p == dims_product(dims@, i as int),
            exceeded ==> dims_product(dims@, i as int) > n_elements,
        decreases i,
    {
        let d = dims[i - 1];
        let ghost rest = dims_product(dims@, i as int);
        assert(dims_product(dims@, i - 1) == d * rest);
        if d == 0 {
            assert(d * rest == 0) by (nonlinear_arith)
                requires
                    d == 0,
            ;
            p = 0;
            exceeded = false;
        } else if exceeded {
            assert(d * rest > n_elements) by (nonlinear_arith)
                requires
                    d >= 1,
                    rest > n_elements,
            ;
        } else {
            assert(p * d == d * rest) by (nonlinear_arith)
                requires
                    p == rest,
            ;
            match p.checked_mul(d) {
                Some(q) => {
                    if q <= n_elements {
                        p = q;
                    } else {
                        exceeded = true;
                    }
                },
                None => {
                    exceeded = true;
                },
            }
        }
        i = i - 1;
    }
    if !exceeded && p == n_elements {
        Ok(())
    } else {
        Err(RustPSQLDriverError::PyToRustValueConversionError(
            "Cannot convert python sequence to PostgreSQL ARRAY, error - the dimensions do not match the number of elements".to_string(),
        ))
    }
}

/// An array as read from the wire: the length of each dimension, the
/// elements in row-major order (`None` for NULL), and the elements' type.
pub struct ArrayParts {
    pub dims: Vec<usize>,
    pub elements: Vec<Option<Vec<u8>>>,
    pub element_oid: u32,
}

/// The elements, by their bytes.
pub open spec fn elements_view(e: Seq<Option<Vec<u8>>>) -> Seq<Option<Seq<u8>>> {
    e.map_values(|x: Option<Vec<u8>>| match x {
        Some(v) => Some(v@),
        None => None,
    })
}

/// What `postgres_protocol::types::array_from_sql` reads from a binary
/// array, with all of its elements: the dimension lengths, the elements and
/// their type; when it refuses the bytes, the text of its error.
pub uninterp spec fn array_parse(raw: Seq<u8>) -> Result<(Seq<usize>, Seq<Option<Seq<u8>>>, u32), Seq<char>>;

/// Reads a binary array with `postgres_protocol::types::array_from_sql`,
/// then its dimensions and all its elements. Stated: the outcome depends
/// on the bytes alone; every dimension length fits in an `i32`; there are
/// as many elements as the dimension lengths multiply to (none without
/// dimensions); on failure, the reader's error text, as named by
/// `array_parse`. The wire format itself is not stated.
#[verifier::external_body]
fn parse_array(raw: &[u8]) -> (r: Result<ArrayParts, String>)
    ensures
        match r {
            Ok(p) => array_parse(raw@) == Ok::<_, Seq<char>>((p.dims@, elements_view(p.elements@), p.element_oid))
                && (forall|k: int| 0 <= k < p.dims@.len() ==> #[trigger] p.dims@[k] <= i32::MAX)
                && p.elements@.len() == (if p.dims@.len() == 0 { 0 } else { dims_product(p.dims@, 0) }),
            Err(m) => array_parse(raw@) == Err::<(Seq<usize>, Seq<Option<Seq<u8>>>, u32), Seq<char>>(m@),
        },
{
    let array = array_from_sql(raw).map_err(|e| e.to_string())?;
    let lens: Vec<i32> = array.dimensions().map(|d| Ok(d.len)).collect().map_err(|e| e.to_string())?;
    let elements: Vec<Option<Vec<u8>>> =
        array.values().map(|v| Ok(v.map(<[u8]>::to_vec))).collect().map_err(|e| e.to_string())?;
    let dims: Vec<usize> = lens.into_iter().map(|len| len as usize).collect();
    Ok(ArrayParts { dims, elements, element_oid: array.element_type() })
}

/// An array ready for Python: its nested-list shape, its elements and
/// their type.
pub struct NestedArray {
    pub tokens: Vec<ArrayToken>,
    pub elements: Vec<Option<Vec<u8>>>,
    pub element_oid: u32,
}

/// The message of a value of the column type named `pg_type` that could
/// not be read, with the reader's error text.
pub open spec fn conversion_error_text(pg_type: Seq<char>, err: Seq<char>) -> Seq<char> {
    "Cannot convert PostgreSQL type "@ + pg_type + " into Python type, err: "@ + err
}

/// A value of the column type named `pg_type` that could not be read,
/// reported as a conversion error carrying the reader's error text.
pub fn conversion_error(pg_type: &str, err: &str) -> (e: RustPSQLDriverError)
    ensures
        e matches RustPSQLDriverError::RustToPyValueConversionError(m) && m@ == conversion_error_text(pg_type@, err@),
{
    let mut m = String::new();
    push_str(&mut m, "Cannot convert PostgreSQL type ");
    push_str(&mut m, pg_type);
    push_str(&mut m, " into Python type, err: ");
    push_str(&mut m, err);
    assert(m@ == conversion_error_text(pg_type@, err@));
    RustPSQLDriverError::RustToPyValueConversionError(m)
}

/// Whether `a` is the nested-list form of an array with these dimension
/// lengths, elements and element type: its shape holds every element once,
/// in order.
pub open spec fn is_nested_form(
    a: NestedArray,
    dims: Seq<usize>,
    elems: Seq<Option<Seq<u8>>>,
    oid: u32,
) -> bool {
    &&& a.tokens@ == nested_tokens(dims, elems.len() as int, 0, 0)
    &&& elements_view(a.elements@) == elems
    &&& a.element_oid == oid
    &&& (dims.len() > 0 ==> token_items(a.tokens@) == positions(0, elems.len() as int))
}

/// Reads a binary array of the column type named `pg_type` and gives
/// its nested-list shape over its elements. Bytes the reader refuses are a
/// conversion error that names the type and carries the reader's error
/// text.
pub fn array_to_nested(raw: &[u8], pg_type: &str) -> (r: PSQLPyResult<NestedArray>)
    ensures
        match array_parse(raw@) {
            Ok((dims, elems, oid)) => r matches Ok(a) && is_nested_form(a, dims, elems, oid),
            Err(e) => r matches Err(RustPSQLDriverError::RustToPyValueConversionError(m))
                && m@ == conversion_error_text(pg_type@, e),
        },
{
    match parse_array(raw) {
        Ok(parts) => {
            let n = parts.elements.len();
            let tokens = nest_array(&parts.dims, n);
            proof {
                if parts.dims@.len() > 0 {
                    lemma_nest_array_flattens(parts.dims@, n as int);
                }
                assert(elements_view(parts.elements@).len() == n);
            }
            Ok(NestedArray { tokens, elements: parts.elements, element_oid: parts.element_oid })
        },
        Err(e) => Err(conversion_error(pg_type, e.as_str())),
    }
}

} // verus!
