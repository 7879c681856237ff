//! Rows as `Record`s: the column names a result set shares, and the
//! positional, by-name and sliced access to a record's values.

use vstd::prelude::*;

use crate::connection_pool::str_eq;
use crate::errors::{PSQLPyResult, RustPSQLDriverError};
use crate::query::strings_view;
use crate::sql::join;
use crate::text::{push_signed_decimal, push_str, signed_decimal};

verus! {

/// The column names of a result set, shared by all its records. No name
/// occurs twice. The names are held in column order and a name is found by
/// its position: vstd describes the contents of a `HashMap` only for keys
/// whose hashing it models (integers, `bool`), not for `String`.
pub struct RecordDesc {
    names: Vec<String>,
}

/// The error for a column name that occurs twice in a result set.
fn duplicate_name_error(name: &str) -> (e: RustPSQLDriverError)
    ensures
        e matches RustPSQLDriverError::ConnectionExecuteError(m)
            && m@ == "Duplicate column name '"@ + name@ + "' in result set; use positional indexing or aliases"@,
{
    let mut m = String::new();
    push_str(&mut m, "Duplicate column name '");
    push_str(&mut m, name);
    push_str(&mut m, "' in result set; use positional indexing or aliases");
    RustPSQLDriverError::ConnectionExecuteError(m)
}

impl RecordDesc {
    /// The column names, in order.
    pub closed spec fn spec_names(&self) -> Seq<Seq<char>> {
        strings_view(self.names@)
    }

    /// Builds the descriptor from the result's column names; a name that
    /// occurs twice is refused, with the first repeated name in the message.
    pub fn from_names(names: &Vec<String>) -> (r: PSQLPyResult<RecordDesc>)
        ensures
            (forall|i: int, j: int| 0 <= i < j < names@.len() ==> names@[i]@ != names@[j]@) ==> (r matches Ok(d)
                && d.spec_names() == strings_view(names@)),
            (exists|i: int, j: int| 0 <= i < j < names@.len() && #[trigger] names@[i]@ == #[trigger] names@[j]@)
                ==> r is Err,
            r is Err ==> exists|j: int| #![trigger names@[j]] 0 <= j < names@.len()
                && (exists|i: int| #![trigger names@[i]] 0 <= i < j && names@[i]@ == names@[j]@)
                && (forall|a: int, b: int| 0 <= a < b < j ==> names@[a]@ != names@[b]@)
                && (r matches Err(RustPSQLDriverError::ConnectionExecuteError(m))
                    && m@ == "Duplicate column name '"@ + names@[j]@ + "' in result set; use positional indexing or aliases"@),
    {
        let mut kept: Vec<String> = Vec::new();
        let mut i: usize = 0;
        while i < names.len()
            invariant
                i <= names.len(),
                strings_view(kept@) =~= strings_view(names@).take(i as int),
                forall|a: int, b: int| 0 <= a < b < i ==> names@[a]@ != names@[b]@,
            decreases names.len() - i,
        {
            assert(kept@.len() == strings_view(kept@).len());
            let mut j: usize = 0;
            while j < kept.len()
                invariant
                    j <= kept.len(),
                    kept.len() == i,
                    i < names.len(),
                    strings_view(kept@) =~= strings_view(names@).take(i as int),
                    forall|a: int| 0 <= a < j ==> names@[a]@ != names@[i as int]@,
                    forall|a: int, b: int| 0 <= a < b < i ==> names@[a]@ != names@[b]@,
                decreases kept.len() - j,
            {
                assert(strings_view(kept@)[j as int] == kept@[j as int]@);
                if str_eq(kept[j].as_str(), names[i].as_str()) {
                    assert(names@[j as int]@ == names@[i as int]@);
                    return Err(duplicate_name_error(names[i].as_str()));
                }
                j = j + 1;
            }
            let ghost before = strings_view(kept@);
            kept.push(names[i].clone());
            assert(strings_view(kept@) =~= before.push(names@[i as int]@));
            assert(strings_view(names@).take(i as int + 1) =~= strings_view(names@).take(i as int).push(names@[i as int]@));
            i = i + 1;
        }
        assert(strings_view(names@).take(names.len() as int) =~= strings_view(names@));
        Ok(RecordDesc { names: kept })
    }

    /// The number of columns.
    pub fn len(&self) -> (n: usize)
        ensures
            n == self.spec_names().len(),
    {
        self.names.len()
    }

    /// The position of the column with this name, if there is one.
    pub fn index_of(&self, name: &str) -> (r: Option<usize>)
        ensures
            match r {
                Some(i) => i < self.spec_names().len() && self.spec_names()[i as int] == name@,
                None => !self.spec_names().contains(name@),
            },
    {
        let mut i: usize = 0;
        while i < self.names.len()
            invariant
                i <= self.names.len(),
                forall|k: int| 0 <= k < i ==> self.names@[k]@ != name@,
            decreases self.names.len() - i,
        {
            if str_eq(self.names[i].as_str(), name) {
                return Some(i);
            }
            i = i + 1;
        }
        assert(!self.spec_names().contains(name@)) by {
            if self.spec_names().contains(name@) {
                let k = choose|k: int| 0 <= k < self.spec_names().len() && self.spec_names()[k] == name@;
                assert(self.names@[k]@ == name@);
            }
        }
        None
    }

    /// The column names, in order.
    pub fn keys(&self) -> (r: Vec<String>)
        ensures
            strings_view(r@) == self.spec_names(),
    {
        let mut r: Vec<String> = Vec::new();
        let mut i: usize = 0;
        while i < self.names.len()
            invariant
                i <= self.names.len(),
                strings_view(r@) =~= self.spec_names().take(i as int),
            decreases self.names.len() - i,
        {
            let ghost before = strings_view(r@);
            r.push(self.names[i].clone());
            assert(strings_view(r@) =~= before.push(self.names@[i as int]@));
            assert(self.spec_names().take(i as int + 1) =~= self.spec_names().take(i as int).push(self.names@[i as int]@));
            i = i + 1;
        }
        assert(self.spec_names().take(self.names.len() as int) =~= self.spec_names());
        r
    }
}

/// Why a key does not reach a value of a record.
#[derive(Clone, Debug)]
pub enum RecordKeyError {
    /// An integer index outside the record (raised as `IndexError`).
    IndexOutOfRange(String),
    /// A name that is not a column (raised as `KeyError`).
    UnknownName(String),
}

/// The position an integer index reaches in a record of `len` values:
/// negative indexes count from the end.
pub open spec fn index_position(len: int, idx: int) -> int {
    if idx < 0 { len + idx } else { idx }
}

/// The position of an integer index in a record of `len` values; an index
/// outside the record is refused.
pub fn record_position(len: usize, idx: isize) -> (r: Result<usize, RecordKeyError>)
    requires
        len <= isize::MAX,
    ensures
        ({
            let p = index_position(len as int, idx as int);
            &&& (0 <= p < len ==> r == Ok::<usize, RecordKeyError>(p as usize))
            &&& (!(0 <= p < len) ==> (r matches Err(RecordKeyError::IndexOutOfRange(m))
                && m@ == "Record index "@ + signed_decimal(idx as int) + " out of range"@))
        }),
{
    let l = len as isize;
    let real_idx: isize = if idx < 0 { l + idx } else { idx };
    if real_idx < 0 || real_idx >= l {
        let mut m = String::new();
        push_str(&mut m, "Record index ");
        push_signed_decimal(&mut m, idx as i64);
        push_str(&mut m, " out of range");
        assert(m@ =~= "Record index "@ + signed_decimal(idx as int) + " out of range"@);
        return Err(RecordKeyError::IndexOutOfRange(m));
    }
    Ok(real_idx as usize)
}

/// The position a column name reaches; an unknown name is refused with
/// the name itself.
pub fn name_position(desc: &RecordDesc, name: &str) -> (r: Result<usize, RecordKeyError>)
    ensures
        match r {
            Ok(i) => i < desc.spec_names().len() && desc.spec_names()[i as int] == name@,
            Err(RecordKeyError::UnknownName(m)) => m@ == name@ && !desc.spec_names().contains(name@),
            Err(_) => false,
        },
{
    match desc.index_of(name) {
        Some(i) => Ok(i),
        None => Err(RecordKeyError::UnknownName(name.to_owned())),
    }
}

/// Whether `(start, stop, step)` is what Python's `slice.indices(len)`
/// gives: a non-zero step, and bounds clamped to the sequence.
pub open spec fn valid_slice_indices(start: int, stop: int, step: int, len: int) -> bool {
    &&& step != 0
    &&& step > 0 ==> 0 <= start <= len && 0 <= stop <= len
    &&& step < 0 ==> -1 <= start < len && -1 <= stop < len
}

/// How far a slice still has to go: the distance from `start` to `stop`
/// in the slice's direction, or nothing once `start` has passed `stop`.
pub open spec fn slice_remaining(start: int, stop: int, step: int) -> int {
    if step > 0 && start < stop {
        stop - start
    } else if step < 0 && start > stop {
        start - stop
    } else {
        0
    }
}

/// The positions a slice visits: from `start`, by `step`, while before
/// `stop` in the slice's direction.
pub open spec fn slice_positions_spec(start: int, stop: int, step: int) -> Seq<int>
    decreases slice_remaining(start, stop, step),
{
    if (step > 0 && start < stop) || (step < 0 && start > stop) {
        seq![start] + slice_positions_spec(start + step, stop, step)
    } else {
        Seq::empty()
    }
}

/// The positions a slice of a record visits, in order; each is inside the
/// record.
pub fn slice_positions(start: isize, stop: isize, step: isize, len: usize) -> (r: Vec<usize>)
    requires
        valid_slice_indices(start as int, stop as int, step as int, len as int),
    ensures
        r@.len() == slice_positions_spec(start as int, stop as int, step as int).len(),
        forall|k: int| 0 <= k < r@.len() ==> r@[k] as int == #[trigger] slice_positions_spec(start as int, stop as int, step as int)[k],
        forall|k: int| 0 <= k < r@.len() ==> #[trigger] r@[k] < len,
{
    let mut r: Vec<usize> = Vec::new();
    let mut j: i128 = start as i128;
    let stop_w: i128 = stop as i128;
    let step_w: i128 = step as i128;
    let ghost whole = slice_positions_spec(start as int, stop as int, step as int);
    while (step_w > 0 && j < stop_w) || (step_w < 0 && j > stop_w)
        invariant
            valid_slice_indices(start as int, stop as int, step as int, len as int),
            stop_w == stop,
            step_w == step,
            whole == slice_positions_spec(start as int, stop as int, step as int),
            step > 0 ==> start <= j && (j == start || j < stop + step),
            step < 0 ==> j <= start && (j == start || j > stop + step),
            whole =~= r@.map_values(|x: usize| x as int) + slice_positions_spec(j as int, stop as int, step as int),
            forall|k: int| 0 <= k < r@.len() ==> #[trigger] r@[k] < len,
        decreases slice_remaining(j as int, stop as int, step as int),
    {
        let ghost before = r@.map_values(|x: usize| x as int);
        r.push(j as usize);
        assert(r@.map_values(|x: usize| x as int) =~= before.push(j as int));
        assert(slice_positions_spec(j as int, stop as int, step as int)
            == seq![j as int] + slice_positions_spec(j + step, stop as int, step as int));
        j = j + step_w;
    }
    assert(slice_positions_spec(j as int, stop as int, step as int) =~= Seq::<int>::empty());
    assert forall|k: int| 0 <= k < r@.len() implies r@[k] as int == #[trigger] whole[k] by {
        assert(whole[k] == r@.map_values(|x: usize| x as int)[k]);
    }
    r
}

/// How a record is shown: `<Record name: value, ...>`, one field for each
/// column that has a value.
pub open spec fn record_repr(names: Seq<Seq<char>>, reprs: Seq<Seq<char>>) -> Seq<char> {
    let n = if names.len() < reprs.len() { names.len() } else { reprs.len() };
    "<Record "@ + join(Seq::new(n, |i: int| names[i] + ": "@ + reprs[i]), ", "@) + ">"@
}

/// Shows a record from its column names and the representations of its
/// values.
pub fn __repr__(names: &Vec<String>, reprs: &Vec<String>) -> (s: String)
    ensures
        s@ == record_repr(strings_view(names@), strings_view(reprs@)),
{
    let n = if names.len() < reprs.len() { names.len() } else { reprs.len() };
    let mut fields: Vec<String> = Vec::new();
    let mut i: usize = 0;
    let ghost nv = strings_view(names@);
    let ghost rv = strings_view(reprs@);
    while i < n
        invariant
            i <= n <= names.len(),
            n <= reprs.len(),
            nv == strings_view(names@),
            rv == strings_view(reprs@),
            strings_view(fields@) =~= Seq::new(i as nat, |k: int| nv[k] + ": "@ + rv[k]),
        decreases n - i,
    {
        let mut f = String::new();
        push_str(&mut f, names[i].as_str());
        push_str(&mut f, ": ");
        push_str(&mut f, reprs[i].as_str());
        let ghost before = strings_view(fields@);
        fields.push(f);
        assert(strings_view(fields@) =~= before.push(f@));
        i = i + 1;
    }
    let mut s = String::new();
    push_str(&mut s, "<Record ");
    crate::sql::push_joined(&mut s, &fields, ", ");
    push_str(&mut s, ">");
    assert(s@ =~= record_repr(nv, rv));
    s
}

} // verus!
