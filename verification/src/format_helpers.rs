//! Quoting of SQL identifiers and string literals.
//!
//! A value is quoted by wrapping it in the quote character and doubling
//! every occurrence of that character inside, which is how PostgreSQL reads
//! a quoted identifier (`"..."`) or a string literal (`'...'`).

use vstd::prelude::*;
use crate::text::push_char;
use vstd::std_specs::iter::IteratorSpec;

verus! {

/// Every occurrence of `q` in `s` doubled, all other characters kept.
pub open spec fn escape_quotes(s: Seq<char>, q: char) -> Seq<char>
    decreases s.len(),
{
    if s.len() == 0 {
        Seq::empty()
    } else if s[0] == q {
        seq![q, q] + escape_quotes(s.drop_first(), q)
    } else {
        seq![s[0]] + escape_quotes(s.drop_first(), q)
    }
}

/// `s` wrapped in `q`, with inner occurrences of `q` doubled.
pub open spec fn quoted(s: Seq<char>, q: char) -> Seq<char> {
    seq![q] + escape_quotes(s, q) + seq![q]
}

/// How PostgreSQL's lexer reads the body of a quoted token that follows an
/// opening quote `q`: a doubled `q` stands for one `q`, a single `q` closes
/// the token. The result is the decoded value and the number of characters
/// consumed, closing quote included; `None` when the token is never closed.
pub open spec fn lex_quoted_body(t: Seq<char>, q: char) -> Option<(Seq<char>, nat)>
    decreases t.len(),
{
    if t.len() == 0 {
        None
    } else if t[0] == q {
        if t.len() >= 2 && t[1] == q {
            match lex_quoted_body(t.skip(2), q) {
                Some((v, n)) => Some((seq![q] + v, n + 2)),
                None => None,
            }
        } else {
            Some((Seq::empty(), 1))
        }
    } else {
        match lex_quoted_body(t.drop_first(), q) {
            Some((v, n)) => Some((seq![t[0]] + v, n + 1)),
            None => None,
        }
    }
}

/// The quoted token at the start of `t`: its decoded value and its length.
pub open spec fn lex_quoted(t: Seq<char>, q: char) -> Option<(Seq<char>, nat)> {
    if t.len() > 0 && t[0] == q {
        match lex_quoted_body(t.drop_first(), q) {
            Some((v, n)) => Some((v, n + 1)),
            None => None,
        }
    } else {
        None
    }
}

proof fn lemma_escape_single(c: char, q: char)
    ensures
        escape_quotes(seq![c], q) == (if c == q { seq![q, q] } else { seq![c] }),
{
    assert(seq![c].drop_first() =~= Seq::<char>::empty());
    assert(escape_quotes(Seq::<char>::empty(), q) =~= Seq::<char>::empty());
    if c == q {
        assert(escape_quotes(seq![c], q) =~= seq![q, q]);
    } else {
        assert(escape_quotes(seq![c], q) =~= seq![c]);
    }
}

proof fn lemma_escape_concat(a: Seq<char>, b: Seq<char>, q: char)
    ensures
        escape_quotes(a + b, q) == escape_quotes(a, q) + escape_quotes(b, q),
    decreases a.len(),
{
    if a.len() == 0 {
        assert(a + b =~= b);
    } else {
        assert((a + b).drop_first() =~= a.drop_first() + b);
        lemma_escape_concat(a.drop_first(), b, q);
        if a[0] == q {
            assert(escape_quotes(a + b, q) =~= seq![q, q] + escape_quotes(a.drop_first() + b, q));
        } else {
            assert(escape_quotes(a + b, q) =~= seq![a[0]] + escape_quotes(a.drop_first() + b, q));
        }
    }
}

proof fn lemma_escape_body(s: Seq<char>, q: char, rest: Seq<char>)
    requires
        rest.len() == 0 || rest[0] != q,
    ensures
        lex_quoted_body(escape_quotes(s, q) + seq![q] + rest, q)
            == Some((s, (escape_quotes(s, q).len() + 1) as nat)),
    decreases s.len(),
{
    let t = escape_quotes(s, q) + seq![q] + rest;
    if s.len() == 0 {
        assert(t =~= seq![q] + rest);
    } else {
        lemma_escape_body(s.drop_first(), q, rest);
        let tail = escape_quotes(s.drop_first(), q) + seq![q] + rest;
        if s[0] == q {
            assert(t =~= seq![q, q] + tail);
            assert(t.skip(2) =~= tail);
            assert(seq![q] + s.drop_first() =~= s);
        } else {
            assert(t =~= seq![s[0]] + tail);
            assert(t.drop_first() =~= tail);
            assert(seq![s[0]] + s.drop_first() =~= s);
        }
    }
}

/// Read back by PostgreSQL's lexer, a quoted value is one token that decodes
/// to the original value and ends exactly where the quoted text ends,
/// whatever follows it (unless the next character is itself a quote, which
/// the lexer would join to the token).
pub proof fn lemma_quoted_reads_back(s: Seq<char>, q: char, rest: Seq<char>)
    requires
        rest.len() == 0 || rest[0] != q,
    ensures
        lex_quoted(quoted(s, q) + rest, q) == Some((s, quoted(s, q).len())),
{
    let t = quoted(s, q) + rest;
    assert(t.drop_first() =~= escape_quotes(s, q) + seq![q] + rest);
    lemma_escape_body(s, q, rest);
}

/// Quoting is injective: distinct values never quote to the same text.
pub proof fn lemma_quoted_injective(a: Seq<char>, b: Seq<char>, q: char)
    requires
        quoted(a, q) == quoted(b, q),
    ensures
        a == b,
{
    let empty = Seq::<char>::empty();
    assert(quoted(a, q) + empty =~= quoted(a, q));
    assert(quoted(b, q) + empty =~= quoted(b, q));
    lemma_quoted_reads_back(a, q, empty);
    lemma_quoted_reads_back(b, q, empty);
}

fn quote_with(s: &str, q: char) -> (r: String)
    ensures
        r@ == quoted(s@, q),
{
    broadcast use vstd::string::group_string_axioms;
    let mut out = String::new();
    push_char(&mut out, q);
    let ghost chars = s@;
    let mut it = s.chars();
    let ghost mut done: Seq<char> = Seq::empty();
    loop
        invariant
            it.remaining() =~= chars.skip(done.len() as int),
            done.len() <= chars.len(),
            done =~= chars.take(done.len() as int),
            out@ == seq![q] + escape_quotes(done, q),
        ensures
            done =~= chars,
            out@ == seq![q] + escape_quotes(done, q),
        decreases chars.len() - done.len(),
    {
        let next = it.next();
        match next {
            Some(c) => {
                proof {
                    lemma_escape_concat(done, seq![c], q);
                    lemma_escape_single(c, q);
                    assert(chars.take(done.len() as int + 1) =~= done.push(c));
                }
                if c == q {
                    push_char(&mut out, q);
                    push_char(&mut out, q);
                } else {
                    push_char(&mut out, c);
                }
                proof {
                    assert(done + seq![c] =~= done.push(c));
                    assert(out@ =~= seq![q] + escape_quotes(done.push(c), q));
                    done = done.push(c);
                }
            },
            None => {
                assert(chars.skip(done.len() as int).len() == 0);
                break;
            },
        }
    }
    assert(done =~= chars);
    push_char(&mut out, q);
    out
}

/// Quotes an identifier for PostgreSQL: wraps it in double quotes and
/// doubles every inner double quote.
pub fn quote_ident(ident: &str) -> (quoted_ident: String)
    ensures
        quoted_ident@ == quoted(ident@, '"'),
{
    quote_with(ident, '"')
}

/// Quotes a string literal for PostgreSQL: wraps it in single quotes and
/// doubles every inner single quote.
pub fn quote_literal(string: &str) -> (quoted_literal: String)
    ensures
        quoted_literal@ == quoted(string@, '\''),
{
    quote_with(string, '\'')
}

} // verus!
