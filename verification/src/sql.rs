//! The SQL statements the driver sends on its own: transaction control,
//! server-side cursors, savepoints, prepared-statement cleanup and `COPY`.

use vstd::prelude::*;

use crate::format_helpers::{quote_ident, quoted};
use crate::options::{isolation_level_name, IsolationLevel, ReadVariant};
use crate::query::strings_view;
use crate::connection_pool::contains_seq;
use crate::text::{
    decimal, decimal_value, lemma_decimal_injective, lemma_decimal_reads_back, lemma_signed_decimal_reads_back, push_decimal,
    push_signed_decimal, push_str, signed_decimal, signed_value,
};

verus! {

/// `parts` joined with `sep` between consecutive parts.
pub open spec fn join(parts: Seq<Seq<char>>, sep: Seq<char>) -> Seq<char>
    decreases parts.len(),
{
    if parts.len() == 0 {
        Seq::empty()
    } else if parts.len() == 1 {
        parts[0]
    } else {
        join(parts.drop_last(), sep) + sep + parts.last()
    }
}

/// Appends `parts` joined with `sep` to `out`.
pub fn push_joined(out: &mut String, parts: &Vec<String>, sep: &str)
    ensures
        final(out)@ == old(out)@ + join(strings_view(parts@), sep@),
{
    let ghost views = strings_view(parts@);
    let mut i: usize = 0;
    while i < parts.len()
        invariant
            i <= parts.len(),
            views == strings_view(parts@),
            out@ == old(out)@ + join(views.take(i as int), sep@),
        decreases parts.len() - i,
    {
        let ghost before = out@;
        if i > 0 {
            push_str(out, sep);
        }
        push_str(out, parts[i].as_str());
        proof {
            let t = views.take(i as int + 1);
            assert(t.drop_last() =~= views.take(i as int));
            assert(t.last() == parts@[i as int]@);
            if i == 0 {
                assert(views.take(0) =~= Seq::<Seq<char>>::empty());
                assert(out@ =~= old(out)@ + join(t, sep@));
            } else {
                assert(out@ =~= old(out)@ + join(t, sep@));
            }
        }
        i = i + 1;
    }
    assert(views.take(parts.len() as int) =~= views);
}

/// The statement that opens a transaction with the given settings.
pub open spec fn start_transaction_qs(
    isolation_level: Option<IsolationLevel>,
    read_variant: Option<ReadVariant>,
    deferrable: Option<bool>,
) -> Seq<char> {
    "START TRANSACTION"@ + match isolation_level {
        Some(level) => " ISOLATION LEVEL "@ + isolation_level_name(level),
        None => Seq::empty(),
    } + match read_variant {
        Some(ReadVariant::ReadOnly) => " READ ONLY"@,
        Some(ReadVariant::ReadWrite) => " READ WRITE"@,
        None => Seq::empty(),
    } + match deferrable {
        Some(true) => " DEFERRABLE"@,
        Some(false) => " NOT DEFERRABLE"@,
        None => Seq::empty(),
    }
}

proof fn lemma_contains_at(s: Seq<char>, i: int, pattern: Seq<char>)
    requires
        0 <= i,
        i + pattern.len() <= s.len(),
        s.subrange(i, i + pattern.len()) == pattern,
    ensures
        contains_seq(s, pattern),
{
}

/// Each setting given for a transaction is written into its opening
/// statement, whatever the other settings are: the isolation level, read
/// only or read write, deferrable or not. With no setting, the statement is
/// plain `START TRANSACTION`.
pub proof fn lemma_start_qs_carries_each_setting(
    isolation_level: Option<IsolationLevel>,
    read_variant: Option<ReadVariant>,
    deferrable: Option<bool>,
)
    ensures
        ({
            let q = start_transaction_qs(isolation_level, read_variant, deferrable);
            &&& q.len() >= 17 && q.take(17) == "START TRANSACTION"@
            &&& read_variant == Some(ReadVariant::ReadOnly) ==> contains_seq(q, " READ ONLY"@)
            &&& read_variant == Some(ReadVariant::ReadWrite) ==> contains_seq(q, " READ WRITE"@)
            &&& deferrable == Some(true) ==> contains_seq(q, " DEFERRABLE"@)
            &&& deferrable == Some(false) ==> contains_seq(q, " NOT DEFERRABLE"@)
            &&& isolation_level == Some(IsolationLevel::ReadUncommitted) ==> contains_seq(
                q,
                " ISOLATION LEVEL READ UNCOMMITTED"@,
            )
            &&& isolation_level == Some(IsolationLevel::ReadCommitted) ==> contains_seq(
                q,
                " ISOLATION LEVEL READ COMMITTED"@,
            )
            &&& isolation_level == Some(IsolationLevel::RepeatableRead) ==> contains_seq(
                q,
                " ISOLATION LEVEL REPEATABLE READ"@,
            )
            &&& isolation_level == Some(IsolationLevel::Serializable) ==> contains_seq(
                q,
                " ISOLATION LEVEL SERIALIZABLE"@,
            )
            &&& isolation_level is None && read_variant is None && deferrable is None ==> q
                == "START TRANSACTION"@
        }),
{
    reveal_strlit("START TRANSACTION");
    reveal_strlit(" ISOLATION LEVEL ");
    reveal_strlit("READ UNCOMMITTED");
    reveal_strlit("READ COMMITTED");
    reveal_strlit("REPEATABLE READ");
    reveal_strlit("SERIALIZABLE");
    reveal_strlit(" ISOLATION LEVEL READ UNCOMMITTED");
    reveal_strlit(" ISOLATION LEVEL READ COMMITTED");
    reveal_strlit(" ISOLATION LEVEL REPEATABLE READ");
    reveal_strlit(" ISOLATION LEVEL SERIALIZABLE");
    let a = "START TRANSACTION"@;
    let b = match isolation_level {
        Some(level) => " ISOLATION LEVEL "@ + isolation_level_name(level),
        None => Seq::empty(),
    };
    let c = match read_variant {
        Some(ReadVariant::ReadOnly) => " READ ONLY"@,
        Some(ReadVariant::ReadWrite) => " READ WRITE"@,
        None => Seq::<char>::empty(),
    };
    let d = match deferrable {
        Some(true) => " DEFERRABLE"@,
        Some(false) => " NOT DEFERRABLE"@,
        None => Seq::<char>::empty(),
    };
    let q = start_transaction_qs(isolation_level, read_variant, deferrable);
    assert(q == a + b + c + d);
    assert(q.take(17) =~= a);
    let la: int = a.len() as int;
    let lb: int = b.len() as int;
    let lc: int = c.len() as int;
    if isolation_level is Some {
        assert(q.subrange(la, la + lb) =~= b);
        lemma_contains_at(q, la, b);
        match isolation_level {
            Some(IsolationLevel::ReadUncommitted) => assert(b =~= " ISOLATION LEVEL READ UNCOMMITTED"@),
            Some(IsolationLevel::ReadCommitted) => assert(b =~= " ISOLATION LEVEL READ COMMITTED"@),
            Some(IsolationLevel::RepeatableRead) => assert(b =~= " ISOLATION LEVEL REPEATABLE READ"@),
            Some(IsolationLevel::Serializable) => assert(b =~= " ISOLATION LEVEL SERIALIZABLE"@),
            None => {},
        }
    }
    if read_variant is Some {
        assert(q.subrange(la + lb, la + lb + lc) =~= c);
        lemma_contains_at(q, la + lb, c);
    }
    if deferrable is Some {
        assert(q.subrange(la + lb + lc, q.len() as int) =~= d);
        lemma_contains_at(q, la + lb + lc, d);
    }
    if isolation_level is None && read_variant is None && deferrable is None {
        assert(q =~= a);
    }
}

/// Builds the `START TRANSACTION` statement for the given settings; each
/// setting that is not given is left to the server's default.
pub fn build_start_qs(
    isolation_level: Option<IsolationLevel>,
    read_variant: Option<ReadVariant>,
    deferrable: Option<bool>,
) -> (qs: String)
    ensures
        qs@ == start_transaction_qs(isolation_level, read_variant, deferrable),
{
    let mut qs = String::new();
    push_str(&mut qs, "START TRANSACTION");
    let ghost a = qs@;
    if let Some(level) = isolation_level {
        push_str(&mut qs, " ISOLATION LEVEL ");
        let name = level.to_str_level();
        push_str(&mut qs, name.as_str());
    }
    let ghost b = qs@;
    match read_variant {
        Some(ReadVariant::ReadOnly) => push_str(&mut qs, " READ ONLY"),
        Some(ReadVariant::ReadWrite) => push_str(&mut qs, " READ WRITE"),
        None => {},
    }
    let ghost c = qs@;
    match deferrable {
        Some(true) => push_str(&mut qs, " DEFERRABLE"),
        Some(false) => push_str(&mut qs, " NOT DEFERRABLE"),
        None => {},
    }
    assert(qs@ =~= start_transaction_qs(isolation_level, read_variant, deferrable));
    qs
}

/// The statement that declares a server-side cursor.
pub open spec fn cursor_start_qs(cursor_name: Seq<char>, scroll: Option<bool>, querystring: Seq<char>) -> Seq<char> {
    "DECLARE "@ + cursor_name + match scroll {
        Some(true) => " SCROLL"@,
        Some(false) => " NO SCROLL"@,
        None => Seq::empty(),
    } + " CURSOR FOR "@ + querystring
}

/// Builds the `DECLARE ... CURSOR FOR ...` statement of a cursor.
pub fn build_cursor_start_qs(cursor_name: &str, scroll: &Option<bool>, querystring: &str) -> (qs: String)
    ensures
        qs@ == cursor_start_qs(cursor_name@, *scroll, querystring@),
{
    let mut qs = String::new();
    push_str(&mut qs, "DECLARE ");
    push_str(&mut qs, cursor_name);
    match scroll {
        Some(true) => push_str(&mut qs, " SCROLL"),
        Some(false) => push_str(&mut qs, " NO SCROLL"),
        None => {},
    }
    push_str(&mut qs, " CURSOR FOR ");
    push_str(&mut qs, querystring);
    assert(qs@ =~= cursor_start_qs(cursor_name@, *scroll, querystring@));
    qs
}

/// The name of a new cursor: `cur` followed by the counter, which moves on
/// by one (wrapping around at the end of its range).
pub fn next_cursor_name(counter: &mut usize) -> (name: String)
    ensures
        name@ == "cur"@ + decimal(*old(counter) as nat),
        *final(counter) == (if *old(counter) == usize::MAX { 0 } else { (*old(counter) + 1) as usize }),
{
    let mut name = String::new();
    push_str(&mut name, "cur");
    push_decimal(&mut name, *counter as u64);
    *counter = counter.wrapping_add(1);
    name
}

/// Cursors named from distinct counter values get distinct names; since the
/// counter moves on by one at each name, names handed out between two
/// wraparounds of the counter never repeat.
pub proof fn lemma_cursor_names_distinct(a: usize, b: usize)
    requires
        a != b,
    ensures
        "cur"@ + decimal(a as nat) != "cur"@ + decimal(b as nat),
{
    if "cur"@ + decimal(a as nat) == "cur"@ + decimal(b as nat) {
        reveal_strlit("cur");
        assert(("cur"@ + decimal(a as nat)).skip(3) =~= decimal(a as nat));
        assert(("cur"@ + decimal(b as nat)).skip(3) =~= decimal(b as nat));
        lemma_decimal_injective(a as nat, b as nat);
    }
}

/// Which rows a `FETCH` moves over.
#[derive(Clone, Copy, Debug, PartialEq, Eq, Structural)]
pub enum FetchDirection {
    /// The next `n` rows.
    Count(u64),
    Next,
    Prior,
    First,
    Last,
    Absolute(i64),
    Relative(i64),
    ForwardAll,
    Backward(i64),
    BackwardAll,
}

pub open spec fn fetch_direction_text(d: FetchDirection) -> Seq<char> {
    match d {
        FetchDirection::Count(n) => decimal(n as nat),
        FetchDirection::Next => "NEXT"@,
        FetchDirection::Prior => "PRIOR"@,
        FetchDirection::First => "FIRST"@,
        FetchDirection::Last => "LAST"@,
        FetchDirection::Absolute(n) => "ABSOLUTE "@ + signed_decimal(n as int),
        FetchDirection::Relative(n) => "RELATIVE "@ + signed_decimal(n as int),
        FetchDirection::ForwardAll => "FORWARD ALL"@,
        FetchDirection::Backward(n) => "BACKWARD "@ + signed_decimal(n as int),
        FetchDirection::BackwardAll => "BACKWARD ALL"@,
    }
}

/// The `FETCH` statement for a cursor.
pub open spec fn fetch_qs(direction: FetchDirection, cursor_name: Seq<char>) -> Seq<char> {
    "FETCH "@ + fetch_direction_text(direction) + " FROM "@ + cursor_name
}

/// The number of rows or the position of a `FETCH` reads back from the
/// statement as the number given, sign included: between the fixed
/// `FETCH <direction> ` and ` FROM <cursor>` stands the decimal number
/// (with `-` when negative), so different numbers give different
/// statements.
pub proof fn lemma_fetch_number_reads_back(count: u64, n: i64, cursor_name: Seq<char>)
    ensures
        ({
            let q = fetch_qs(FetchDirection::Count(count), cursor_name);
            &&& q.take(6) == "FETCH "@
            &&& q.skip(q.len() - 6 - cursor_name.len()) == " FROM "@ + cursor_name
            &&& decimal_value(q.subrange(6, q.len() - 6 - cursor_name.len())) == Some(count as nat)
        }),
        ({
            let q = fetch_qs(FetchDirection::Absolute(n), cursor_name);
            &&& q.take(15) == "FETCH ABSOLUTE "@
            &&& q.skip(q.len() - 6 - cursor_name.len()) == " FROM "@ + cursor_name
            &&& signed_value(q.subrange(15, q.len() - 6 - cursor_name.len())) == Some(n as int)
        }),
        ({
            let q = fetch_qs(FetchDirection::Relative(n), cursor_name);
            &&& q.take(15) == "FETCH RELATIVE "@
            &&& q.skip(q.len() - 6 - cursor_name.len()) == " FROM "@ + cursor_name
            &&& signed_value(q.subrange(15, q.len() - 6 - cursor_name.len())) == Some(n as int)
        }),
        ({
            let q = fetch_qs(FetchDirection::Backward(n), cursor_name);
            &&& q.take(15) == "FETCH BACKWARD "@
            &&& q.skip(q.len() - 6 - cursor_name.len()) == " FROM "@ + cursor_name
            &&& signed_value(q.subrange(15, q.len() - 6 - cursor_name.len())) == Some(n as int)
        }),
{
    reveal_strlit("FETCH ");
    reveal_strlit(" FROM ");
    reveal_strlit("ABSOLUTE ");
    reveal_strlit("RELATIVE ");
    reveal_strlit("BACKWARD ");
    reveal_strlit("FETCH ABSOLUTE ");
    reveal_strlit("FETCH RELATIVE ");
    reveal_strlit("FETCH BACKWARD ");
    lemma_decimal_reads_back(count as nat);
    lemma_signed_decimal_reads_back(n as int);
    let tail = " FROM "@ + cursor_name;
    let c = decimal(count as nat);
    let q = fetch_qs(FetchDirection::Count(count), cursor_name);
    assert(q == "FETCH "@ + c + " FROM "@ + cursor_name);
    assert(q.take(6) =~= "FETCH "@);
    assert(q.skip(q.len() - 6 - cursor_name.len()) =~= tail);
    assert(q.subrange(6, q.len() - 6 - cursor_name.len()) =~= c);
    let t = signed_decimal(n as int);
    let qa = fetch_qs(FetchDirection::Absolute(n), cursor_name);
    assert(qa == "FETCH "@ + ("ABSOLUTE "@ + t) + " FROM "@ + cursor_name);
    assert(qa.take(15) =~= "FETCH ABSOLUTE "@);
    assert(qa.skip(qa.len() - 6 - cursor_name.len()) =~= tail);
    assert(qa.subrange(15, qa.len() - 6 - cursor_name.len()) =~= t);
    let qr = fetch_qs(FetchDirection::Relative(n), cursor_name);
    assert(qr == "FETCH "@ + ("RELATIVE "@ + t) + " FROM "@ + cursor_name);
    assert(qr.take(15) =~= "FETCH RELATIVE "@);
    assert(qr.skip(qr.len() - 6 - cursor_name.len()) =~= tail);
    assert(qr.subrange(15, qr.len() - 6 - cursor_name.len()) =~= t);
    let qb = fetch_qs(FetchDirection::Backward(n), cursor_name);
    assert(qb == "FETCH "@ + ("BACKWARD "@ + t) + " FROM "@ + cursor_name);
    assert(qb.take(15) =~= "FETCH BACKWARD "@);
    assert(qb.skip(qb.len() - 6 - cursor_name.len()) =~= tail);
    assert(qb.subrange(15, qb.len() - 6 - cursor_name.len()) =~= t);
}

/// Builds the `FETCH ... FROM cursor` statement.
pub fn build_fetch_qs(direction: FetchDirection, cursor_name: &str) -> (qs: String)
    ensures
        qs@ == fetch_qs(direction, cursor_name@),
{
    let mut qs = String::new();
    push_str(&mut qs, "FETCH ");
    match direction {
        FetchDirection::Count(n) => push_decimal(&mut qs, n),
        FetchDirection::Next => push_str(&mut qs, "NEXT"),
        FetchDirection::Prior => push_str(&mut qs, "PRIOR"),
        FetchDirection::First => push_str(&mut qs, "FIRST"),
        FetchDirection::Last => push_str(&mut qs, "LAST"),
        FetchDirection::Absolute(n) => {
            push_str(&mut qs, "ABSOLUTE ");
            push_signed_decimal(&mut qs, n);
        },
        FetchDirection::Relative(n) => {
            push_str(&mut qs, "RELATIVE ");
            push_signed_decimal(&mut qs, n);
        },
        FetchDirection::ForwardAll => push_str(&mut qs, "FORWARD ALL"),
        FetchDirection::Backward(n) => {
            push_str(&mut qs, "BACKWARD ");
            push_signed_decimal(&mut qs, n);
        },
        FetchDirection::BackwardAll => push_str(&mut qs, "BACKWARD ALL"),
    }
    push_str(&mut qs, " FROM ");
    push_str(&mut qs, cursor_name);
    assert(qs@ =~= fetch_qs(direction, cursor_name@));
    qs
}

/// `prefix` followed by `name`.
fn prefixed(prefix: &str, name: &str) -> (qs: String)
    ensures
        qs@ == prefix@ + name@,
{
    let mut qs = String::new();
    push_str(&mut qs, prefix);
    push_str(&mut qs, name);
    assert(qs@ =~= prefix@ + name@);
    qs
}

/// `SAVEPOINT name`.
pub fn savepoint_qs(savepoint_name: &str) -> (qs: String)
    ensures
        qs@ == "SAVEPOINT "@ + savepoint_name@,
{
    prefixed("SAVEPOINT ", savepoint_name)
}

/// `RELEASE SAVEPOINT name`.
pub fn release_savepoint_qs(savepoint_name: &str) -> (qs: String)
    ensures
        qs@ == "RELEASE SAVEPOINT "@ + savepoint_name@,
{
    prefixed("RELEASE SAVEPOINT ", savepoint_name)
}

/// `ROLLBACK TO SAVEPOINT name`.
pub fn rollback_to_savepoint_qs(savepoint_name: &str) -> (qs: String)
    ensures
        qs@ == "ROLLBACK TO SAVEPOINT "@ + savepoint_name@,
{
    prefixed("ROLLBACK TO SAVEPOINT ", savepoint_name)
}

/// `CLOSE name`: closes a declared cursor on the server.
pub fn close_cursor_qs(cursor_name: &str) -> (qs: String)
    ensures
        qs@ == "CLOSE "@ + cursor_name@,
{
    prefixed("CLOSE ", cursor_name)
}

/// `DEALLOCATE PREPARE name`: drops a prepared statement on the server.
pub fn deallocate_qs(statement_name: &str) -> (qs: String)
    ensures
        qs@ == "DEALLOCATE PREPARE "@ + statement_name@,
{
    prefixed("DEALLOCATE PREPARE ", statement_name)
}

/// The qualified, quoted name of a `COPY` target table.
pub open spec fn full_table_name(table_name: Seq<char>, schema_name: Option<Seq<char>>) -> Seq<char> {
    match schema_name {
        Some(schema) => quoted(schema, '"') + "."@ + quoted(table_name, '"'),
        None => quoted(table_name, '"'),
    }
}

/// Quotes the table name, and the schema name when there is one.
pub fn build_full_table_name(table_name: &str, schema_name: Option<&str>) -> (name: String)
    ensures
        name@ == full_table_name(table_name@, match schema_name {
            Some(s) => Some(s@),
            None => None,
        }),
{
    match schema_name {
        Some(schema) => {
            let mut name = quote_ident(schema);
            push_str(&mut name, ".");
            let table = quote_ident(table_name);
            push_str(&mut name, table.as_str());
            name
        },
        None => quote_ident(table_name),
    }
}

/// The statement that starts a binary `COPY` into a table, with an
/// optional column list that is inserted as given.
pub open spec fn binary_copy_qs(full_table_name: Seq<char>, columns: Option<Seq<Seq<char>>>) -> Seq<char> {
    match columns {
        Some(cols) if cols.len() > 0 => "COPY "@ + full_table_name + "("@ + join(cols, ", "@)
            + ") FROM STDIN (FORMAT binary)"@,
        _ => "COPY "@ + full_table_name + " FROM STDIN (FORMAT binary)"@,
    }
}

/// Builds the statement that starts a binary `COPY` of raw bytes into a
/// table; a non-empty column list is inserted as given.
pub fn build_binary_copy_qs(full_table_name: &str, columns: &Option<Vec<String>>) -> (qs: String)
    ensures
        qs@ == binary_copy_qs(full_table_name@, match columns {
            Some(c) => Some(strings_view(c@)),
            None => None,
        }),
{
    let mut qs = String::new();
    push_str(&mut qs, "COPY ");
    push_str(&mut qs, full_table_name);
    match columns {
        Some(cols) if cols.len() > 0 => {
            push_str(&mut qs, "(");
            push_joined(&mut qs, cols, ", ");
            push_str(&mut qs, ") FROM STDIN (FORMAT binary)");
        },
        _ => {
            push_str(&mut qs, " FROM STDIN (FORMAT binary)");
        },
    }
    assert(qs@ =~= binary_copy_qs(full_table_name@, match columns {
        Some(c) => Some(strings_view(c@)),
        None => None,
    }));
    qs
}

/// Each column name quoted.
pub open spec fn quoted_all(cols: Seq<Seq<char>>) -> Seq<Seq<char>> {
    cols.map_values(|c: Seq<char>| quoted(c, '"'))
}

/// The quoted column list of a `COPY` of records: `None` when no column,
/// or an empty list of columns, is given.
pub open spec fn records_columns_sql(columns: Option<Seq<Seq<char>>>) -> Option<Seq<char>> {
    match columns {
        Some(cols) if cols.len() > 0 => Some(join(quoted_all(cols), ", "@)),
        _ => None,
    }
}

/// Quotes each column name and joins them with `, `.
pub fn build_columns_sql(columns: &Option<Vec<String>>) -> (sql: Option<String>)
    ensures
        match sql {
            Some(s) => records_columns_sql(match columns {
                Some(c) => Some(strings_view(c@)),
                None => None,
            }) == Some(s@),
            None => records_columns_sql(match columns {
                Some(c) => Some(strings_view(c@)),
                None => None,
            }) is None,
        },
{
    match columns {
        Some(cols) if cols.len() > 0 => {
            let mut quoted_cols: Vec<String> = Vec::new();
            let mut i: usize = 0;
            while i < cols.len()
                invariant
                    i <= cols.len(),
                    strings_view(quoted_cols@) =~= quoted_all(strings_view(cols@).take(i as int)),
                decreases cols.len() - i,
            {
                let q = quote_ident(cols[i].as_str());
                let ghost before = strings_view(quoted_cols@);
                quoted_cols.push(q);
                assert(strings_view(quoted_cols@) =~= before.push(q@));
                assert(strings_view(cols@).take(i as int + 1) =~= strings_view(cols@).take(i as int).push(cols@[i as int]@));
                i = i + 1;
            }
            assert(strings_view(cols@).take(cols.len() as int) =~= strings_view(cols@));
            let mut s = String::new();
            push_joined(&mut s, &quoted_cols, ", ");
            assert(Seq::<char>::empty() + join(strings_view(quoted_cols@), ", "@) =~= join(strings_view(quoted_cols@), ", "@));
            Some(s)
        },
        _ => None,
    }
}

/// The statement that starts a binary `COPY` of records.
pub open spec fn records_copy_qs(full_table_name: Seq<char>, columns_sql: Option<Seq<char>>) -> Seq<char> {
    match columns_sql {
        Some(cols) => "COPY "@ + full_table_name + "("@ + cols + ") FROM STDIN (FORMAT binary)"@,
        None => "COPY "@ + full_table_name + " FROM STDIN (FORMAT binary)"@,
    }
}

/// The query that reads a table's column types without reading rows.
pub open spec fn introspect_qs(full_table_name: Seq<char>, columns_sql: Option<Seq<char>>) -> Seq<char> {
    match columns_sql {
        Some(cols) => "SELECT "@ + cols + " FROM "@ + full_table_name + " WHERE false"@,
        None => "SELECT * FROM "@ + full_table_name + " WHERE false"@,
    }
}

/// Builds the statement that starts a binary `COPY` of records.
pub fn build_records_copy_qs(full_table_name: &str, columns_sql: &Option<String>) -> (qs: String)
    ensures
        qs@ == records_copy_qs(full_table_name@, match columns_sql {
            Some(c) => Some(c@),
            None => None,
        }),
{
    let mut qs = String::new();
    push_str(&mut qs, "COPY ");
    push_str(&mut qs, full_table_name);
    match columns_sql {
        Some(cols) => {
            push_str(&mut qs, "(");
            push_str(&mut qs, cols.as_str());
            push_str(&mut qs, ") FROM STDIN (FORMAT binary)");
        },
        None => push_str(&mut qs, " FROM STDIN (FORMAT binary)"),
    }
    assert(qs@ =~= records_copy_qs(full_table_name@, match columns_sql {
        Some(c) => Some(c@),
        None => None,
    }));
    qs
}

/// Builds the query that reads a table's column types.
pub fn build_introspect_qs(full_table_name: &str, columns_sql: &Option<String>) -> (qs: String)
    ensures
        qs@ == introspect_qs(full_table_name@, match columns_sql {
            Some(c) => Some(c@),
            None => None,
        }),
{
    let mut qs = String::new();
    match columns_sql {
        Some(cols) => {
            push_str(&mut qs, "SELECT ");
            push_str(&mut qs, cols.as_str());
            push_str(&mut qs, " FROM ");
        },
        None => push_str(&mut qs, "SELECT * FROM "),
    }
    push_str(&mut qs, full_table_name);
    push_str(&mut qs, " WHERE false");
    assert(qs@ =~= introspect_qs(full_table_name@, match columns_sql {
        Some(c) => Some(c@),
        None => None,
    }));
    qs
}

} // verus!
