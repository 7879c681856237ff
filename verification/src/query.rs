//! Query strings with named parameters.
//!
//! A query may name its parameters as `$(name)p`. Such a query is rewritten
//! into PostgreSQL's positional form: the n-th named placeholder, counted from
//! the left, becomes `$n`, and the names are kept in the same order so that a
//! mapping of parameters can be laid out positionally.

use std::hash::{DefaultHasher, Hasher};

use vstd::prelude::*;
use vstd::std_specs::hash::DefaultHasherAdditionalSpecFns;

use crate::text::{chars_to_string, decimal, push_char, push_decimal, str_to_chars};

verus! {

/// The first index at or after `from` where `s` holds `c`, or `s.len()`.
pub open spec fn find_char(s: Seq<char>, c: char, from: int) -> int
    decreases s.len() - from,
{
    if from < 0 || from >= s.len() {
        s.len() as int
    } else if s[from] == c {
        from
    } else {
        find_char(s, c, from + 1)
    }
}

/// Where the named placeholder `$(name)p` that starts at index `i` ends
/// (exclusive), if one starts there. The name is a non-empty run of
/// characters other than `)`, so the placeholder closes at the first `)`
/// after `$(`, which must be followed by `p`.
pub open spec fn placeholder_end(s: Seq<char>, i: int) -> Option<int> {
    if 0 <= i && i + 1 < s.len() && s[i] == '$' && s[i + 1] == '(' {
        let j = find_char(s, ')', i + 2);
        if j > i + 2 && j < s.len() && s.len() - j > 1 && s[j + 1] == 'p' {
            Some(j + 2)
        } else {
            None
        }
    } else {
        None
    }
}

/// Whether the query names at least one parameter.
pub open spec fn has_placeholder(s: Seq<char>) -> bool {
    exists|i: int| 0 <= i < s.len() && #[trigger] placeholder_end(s, i) is Some
}

/// The rewriting of `s` from index `i` on, when `k` placeholders were
/// already numbered: the positional query text and the names met, in order.
/// Placeholders are found left to right and never overlap.
pub open spec fn rewrite_from(s: Seq<char>, i: int, k: nat) -> (Seq<char>, Seq<Seq<char>>)
    decreases s.len() - i,
{
    if i < 0 || i >= s.len() {
        (Seq::empty(), Seq::empty())
    } else {
        match placeholder_end(s, i) {
            Some(e) => {
                let rest = rewrite_from(s, e, k + 1);
                (seq!['$'] + decimal(k + 1) + rest.0, seq![s.subrange(i + 2, e - 2)] + rest.1)
            },
            None => {
                let rest = rewrite_from(s, i + 1, k);
                (seq![s[i]] + rest.0, rest.1)
            },
        }
    }
}

/// The positional query text for `s`.
pub open spec fn positional_query(s: Seq<char>) -> Seq<char> {
    rewrite_from(s, 0, 0).0
}

/// The parameter names of `s`, in the order their placeholders occur.
pub open spec fn parameter_names(s: Seq<char>) -> Seq<Seq<char>> {
    rewrite_from(s, 0, 0).1
}

proof fn lemma_rewrite_plain(s: Seq<char>, i: int, k: nat)
    requires
        0 <= i <= s.len(),
        forall|j: int| i <= j < s.len() ==> #[trigger] placeholder_end(s, j) is None,
    ensures
        rewrite_from(s, i, k) == (s.skip(i), Seq::<Seq<char>>::empty()),
    decreases s.len() - i,
{
    if i < s.len() {
        lemma_rewrite_plain(s, i + 1, k);
        assert(placeholder_end(s, i) is None);
        assert(seq![s[i]] + s.skip(i + 1) =~= s.skip(i));
    } else {
        assert(s.skip(i) =~= Seq::<char>::empty());
    }
}

/// A query without named placeholders is sent as it was written, with no
/// parameter names.
pub proof fn lemma_no_placeholder_unchanged(s: Seq<char>)
    requires
        !has_placeholder(s),
    ensures
        positional_query(s) == s,
        parameter_names(s) == Seq::<Seq<char>>::empty(),
{
    assert forall|j: int| 0 <= j < s.len() implies #[trigger] placeholder_end(s, j) is None by {
        if placeholder_end(s, j) is Some {
            assert(has_placeholder(s));
        }
    }
    lemma_rewrite_plain(s, 0, 0);
    assert(s.skip(0) =~= s);
}

proof fn lemma_find_char(s: Seq<char>, c: char, from: int)
    requires
        0 <= from,
    ensures
        from <= find_char(s, c, from) <= s.len() || (from > s.len() && find_char(s, c, from) == s.len()),
        forall|t: int| from <= t < find_char(s, c, from) ==> s[t] != c,
        find_char(s, c, from) < s.len() ==> s[find_char(s, c, from)] == c,
    decreases s.len() - from,
{
    if from < s.len() && s[from] != c {
        lemma_find_char(s, c, from + 1);
    }
}

/// A parameter name, as a placeholder carries it: not empty, and without `)`.
pub open spec fn is_parameter_name(n: Seq<char>) -> bool {
    n.len() > 0 && !n.contains(')')
}

proof fn lemma_rewrite_names(s: Seq<char>, i: int, k: nat)
    requires
        0 <= i,
    ensures
        forall|t: int| 0 <= t < rewrite_from(s, i, k).1.len() ==> is_parameter_name(#[trigger] rewrite_from(s, i, k).1[t]),
    decreases s.len() - i,
{
    if i < s.len() {
        match placeholder_end(s, i) {
            Some(e) => {
                lemma_rewrite_names(s, e, k + 1);
                let j = find_char(s, ')', i + 2);
                lemma_find_char(s, ')', i + 2);
                let name = s.subrange(i + 2, e - 2);
                assert(e - 2 == j);
                assert(!name.contains(')')) by {
                    if name.contains(')') {
                        let t = choose|t: int| 0 <= t < name.len() && name[t] == ')';
                        assert(s[i + 2 + t] == ')');
                    }
                }
                let r = rewrite_from(s, i, k).1;
                let rest = rewrite_from(s, e, k + 1).1;
                assert(r == seq![name] + rest);
                assert forall|t: int| 0 <= t < r.len() implies is_parameter_name(#[trigger] r[t]) by {
                    if t > 0 {
                        assert(r[t] == rest[t - 1]);
                    }
                }
            },
            None => {
                lemma_rewrite_names(s, i + 1, k);
                assert(rewrite_from(s, i, k).1 == rewrite_from(s, i + 1, k).1);
            },
        }
    } else {
        assert(rewrite_from(s, i, k).1.len() == 0);
    }
}

/// Every parameter name taken from a query is non-empty and has no `)`.
pub proof fn lemma_parameter_names_well_formed(s: Seq<char>)
    ensures
        forall|t: int| 0 <= t < parameter_names(s).len() ==> is_parameter_name(#[trigger] parameter_names(s)[t]),
{
    lemma_rewrite_names(s, 0, 0);
}

proof fn lemma_find_char_shift(p: Seq<char>, t: Seq<char>, c: char, j: int)
    requires
        0 <= j,
    ensures
        find_char(p + t, c, p.len() + j) == p.len() + find_char(t, c, j),
    decreases t.len() - j,
{
    if j < t.len() {
        assert((p + t)[p.len() + j] == t[j]);
        if t[j] != c {
            lemma_find_char_shift(p, t, c, j + 1);
        }
    }
}

/// Rewriting looks only forward: what precedes a position does not change
/// how the text from there on is rewritten.
proof fn lemma_rewrite_shift(p: Seq<char>, t: Seq<char>, j: int, k: nat)
    requires
        0 <= j,
    ensures
        rewrite_from(p + t, p.len() + j, k) == rewrite_from(t, j, k),
    decreases t.len() - j,
{
    let s = p + t;
    let i = p.len() + j;
    if j < t.len() {
        assert(s[i] == t[j]);
        if j + 1 < t.len() {
            assert(s[i + 1] == t[j + 1]);
        }
        lemma_find_char_shift(p, t, ')', j + 2);
        let jt = find_char(t, ')', j + 2);
        if jt >= 0 && jt + 1 < t.len() {
            assert(s[p.len() + jt + 1] == t[jt + 1]);
        }
        match placeholder_end(t, j) {
            Some(e) => {
                assert(placeholder_end(s, i) == Some(p.len() + e));
                assert(s.subrange(i + 2, p.len() + e - 2) =~= t.subrange(j + 2, e - 2));
                lemma_rewrite_shift(p, t, e, k + 1);
            },
            None => {
                assert(placeholder_end(s, i) is None);
                lemma_rewrite_shift(p, t, j + 1, k);
            },
        }
    }
}

/// Text without `$` is copied as it is.
proof fn lemma_rewrite_plain_prefix(t: Seq<char>, j: int, m: int, k: nat)
    requires
        0 <= j <= m <= t.len(),
        forall|x: int| 0 <= x < m ==> t[x] != '$',
    ensures
        rewrite_from(t, j, k) == (t.subrange(j, m) + rewrite_from(t, m, k).0, rewrite_from(t, m, k).1),
    decreases m - j,
{
    if j < m {
        assert(placeholder_end(t, j) is None);
        lemma_rewrite_plain_prefix(t, j + 1, m, k);
        assert(seq![t[j]] + t.subrange(j + 1, m) =~= t.subrange(j, m));
    } else {
        assert(t.subrange(j, m) =~= Seq::<char>::empty());
    }
}

proof fn lemma_find_char_at(s: Seq<char>, c: char, from: int, x: int)
    requires
        0 <= from <= x < s.len(),
        s[x] == c,
        forall|y: int| from <= y < x ==> s[y] != c,
    ensures
        find_char(s, c, from) == x,
    decreases x - from,
{
    if from < x {
        lemma_find_char_at(s, c, from + 1, x);
    }
}

/// A query made of plain texts with a named placeholder `$(name)p` between
/// each two of them.
pub open spec fn query_template(texts: Seq<Seq<char>>, names: Seq<Seq<char>>) -> Seq<char>
    decreases names.len(),
{
    if texts.len() == 0 {
        Seq::empty()
    } else if names.len() == 0 {
        texts[0]
    } else {
        texts[0] + seq!['$', '('] + names[0] + seq![')', 'p'] + query_template(texts.drop_first(), names.drop_first())
    }
}

/// The same texts with `$` and the numbers `start + 1`, `start + 2`, ...
/// between them, one for each of the `n` placeholders.
pub open spec fn numbered_template(texts: Seq<Seq<char>>, n: nat, start: nat) -> Seq<char>
    decreases n,
{
    if texts.len() == 0 {
        Seq::empty()
    } else if n == 0 {
        texts[0]
    } else {
        texts[0] + seq!['$'] + decimal(start + 1) + numbered_template(texts.drop_first(), (n - 1) as nat, start + 1)
    }
}

proof fn lemma_template_rewrites(texts: Seq<Seq<char>>, names: Seq<Seq<char>>, k: nat)
    requires
        texts.len() == names.len() + 1,
        forall|i: int| 0 <= i < texts.len() ==> !(#[trigger] texts[i]).contains('$'),
        forall|i: int| 0 <= i < names.len() ==> is_parameter_name(#[trigger] names[i]),
    ensures
        rewrite_from(query_template(texts, names), 0, k) == (numbered_template(texts, names.len(), k), names),
    decreases names.len(),
{
    let t = query_template(texts, names);
    let t0 = texts[0];
    let m = t0.len() as int;
    assert(!texts[0].contains('$'));
    if names.len() == 0 {
        assert(t == t0);
        assert forall|x: int| 0 <= x < m implies t[x] != '$' by {
            if t[x] == '$' {
                assert(t0.contains('$'));
            }
        }
        lemma_rewrite_plain_prefix(t, 0, m, k);
        assert(t.subrange(0, m) =~= t0);
        assert(rewrite_from(t, m, k) == (Seq::<char>::empty(), Seq::<Seq<char>>::empty()));
        assert(t0 + Seq::<char>::empty() =~= t0);
        assert(names =~= Seq::<Seq<char>>::empty());
    } else {
        let name = names[0];
        let rest_texts = texts.drop_first();
        let rest_names = names.drop_first();
        let tail = query_template(rest_texts, rest_names);
        let ph = seq!['$', '('] + name + seq![')', 'p'];
        let u = ph + tail;
        assert(t =~= t0 + u);
        assert forall|x: int| 0 <= x < m implies t[x] != '$' by {
            assert(t[x] == t0[x]);
            if t0[x] == '$' {
                assert(t0.contains('$'));
            }
        }
        lemma_rewrite_plain_prefix(t, 0, m, k);
        assert(t.subrange(0, m) =~= t0);
        lemma_rewrite_shift(t0, u, 0, k);
        // The placeholder at the start of `u`.
        assert(is_parameter_name(name));
        let nl = name.len() as int;
        assert(u[0] == '$' && u[1] == '(');
        assert(u[2 + nl] == ')');
        assert(u[3 + nl] == 'p');
        assert forall|y: int| 2 <= y < 2 + nl implies u[y] != ')' by {
            assert(u[y] == name[y - 2]);
            if name[y - 2] == ')' {
                assert(name.contains(')'));
            }
        }
        lemma_find_char_at(u, ')', 2, 2 + nl);
        assert(placeholder_end(u, 0) == Some(4 + nl));
        assert(u.subrange(2, 2 + nl) =~= name);
        assert(u =~= ph + tail);
        lemma_rewrite_shift(ph, tail, 0, k + 1);
        assert(ph.len() == 4 + nl);
        assert forall|i: int| 0 <= i < rest_texts.len() implies !(#[trigger] rest_texts[i]).contains('$') by {
            assert(rest_texts[i] == texts[i + 1]);
        }
        assert forall|i: int| 0 <= i < rest_names.len() implies is_parameter_name(#[trigger] rest_names[i]) by {
            assert(rest_names[i] == names[i + 1]);
        }
        lemma_template_rewrites(rest_texts, rest_names, k + 1);
        assert(seq![name] + rest_names =~= names);
        assert(t0 + (seq!['$'] + decimal(k + 1) + numbered_template(rest_texts, rest_names.len(), k + 1))
            =~= numbered_template(texts, names.len(), k));
    }
}

/// Rewriting numbers the named placeholders from one, left to right: in a
/// query made of texts without `$` and placeholders `$(name)p` between
/// them, the k-th placeholder becomes `$k` (for every k, however many
/// digits it takes) and the rest of the text is kept; the names come out
/// in the order of their placeholders.
pub proof fn lemma_placeholders_numbered_from_one(texts: Seq<Seq<char>>, names: Seq<Seq<char>>)
    requires
        texts.len() == names.len() + 1,
        forall|i: int| 0 <= i < texts.len() ==> !(#[trigger] texts[i]).contains('$'),
        forall|i: int| 0 <= i < names.len() ==> is_parameter_name(#[trigger] names[i]),
    ensures
        positional_query(query_template(texts, names)) == numbered_template(texts, names.len(), 0),
        parameter_names(query_template(texts, names)) == names,
{
    lemma_template_rewrites(texts, names, 0);
}

/// The views of a sequence of strings.
pub open spec fn strings_view(v: Seq<String>) -> Seq<Seq<char>> {
    v.map_values(|x: String| x@)
}

/// The hash that `hash_str` gives for a text: the standard library's
/// `DefaultHasher` fed as `Hash for str` feeds it, with the text's UTF-8
/// bytes and then the byte `0xff`.
pub open spec fn text_hash(s: Seq<char>) -> u64 {
    DefaultHasher::spec_finish(seq![vstd::utf8::encode_utf8(s), seq![0xffu8]])
}

/// Hashes a query text with the standard library's `DefaultHasher`.
pub fn hash_str(string: &String) -> (h: u64)
    ensures
        h == text_hash(string@),
{
    let mut hasher = DefaultHasher::new();
    hasher.write(string.as_str().as_bytes());
    let ghost fed = hasher@;
    let terminator: Vec<u8> = vec![0xffu8];
    let t = terminator.as_slice();
    assert(t@ =~= seq![0xffu8]);
    hasher.write(t);
    assert(hasher@ =~= fed.push(seq![0xffu8]));
    assert(hasher@ =~= seq![vstd::utf8::encode_utf8(string@), seq![0xffu8]]);
    hasher.finish()
}

/// A query after its named placeholders were made positional.
#[derive(Clone, Debug)]
pub struct ConvertedQueryString {
    converted_qs: String,
    params_names: Vec<String>,
}

impl ConvertedQueryString {
    pub closed spec fn spec_query(&self) -> Seq<char> {
        self.converted_qs@
    }

    pub closed spec fn spec_names(&self) -> Seq<Seq<char>> {
        strings_view(self.params_names@)
    }

    pub fn new(converted_qs: String, params_names: Vec<String>) -> (c: Self)
        ensures
            c.spec_query() == converted_qs@,
            c.spec_names() == strings_view(params_names@),
    {
        Self { converted_qs, params_names }
    }

    /// The positional query text.
    pub fn query(&self) -> (q: &str)
        ensures
            q@ == self.spec_query(),
    {
        self.converted_qs.as_str()
    }

    /// The parameter names, in placeholder order.
    pub fn params_names(&self) -> (names: &Vec<String>)
        ensures
            strings_view(names@) == self.spec_names(),
    {
        &self.params_names
    }
}

/// A query as the user wrote it, and its positional form once processed.
#[derive(Clone, Debug)]
pub struct QueryString {
    pub initial_qs: String,
    pub converted_qs: Option<ConvertedQueryString>,
}

impl QueryString {
    /// The text that is sent to the server.
    pub open spec fn spec_query(&self) -> Seq<char> {
        match self.converted_qs {
            Some(c) => c.spec_query(),
            None => self.initial_qs@,
        }
    }

    pub fn new(initial_qs: &String) -> (q: Self)
        ensures
            q.initial_qs@ == initial_qs@,
            q.converted_qs is None,
    {
        QueryString { initial_qs: initial_qs.clone(), converted_qs: None }
    }

    /// The text that is sent to the server: the positional form once the
    /// query was processed and named parameters, the initial text otherwise.
    pub fn query(&self) -> (q: &str)
        ensures
            q@ == self.spec_query(),
    {
        match &self.converted_qs {
            Some(converted_qs) => converted_qs.query(),
            None => self.initial_qs.as_str(),
        }
    }

    /// The hash of the initial text.
    pub fn hash(&self) -> (h: u64)
        ensures
            h == text_hash(self.initial_qs@),
    {
        hash_str(&self.initial_qs)
    }

    /// Whether the initial text names at least one parameter.
    pub fn is_kwargs_parametrized(&self) -> (b: bool)
        ensures
            b == has_placeholder(self.initial_qs@),
    {
        let s = str_to_chars(self.initial_qs.as_str());
        let mut i: usize = 0;
        while i < s.len()
            invariant
                i <= s.len(),
                s@ == self.initial_qs@,
                forall|k: int| 0 <= k < i ==> #[trigger] placeholder_end(s@, k) is None,
            decreases s.len() - i,
        {
            if placeholder_at(&s, i).is_some() {
                assert(placeholder_end(self.initial_qs@, i as int) is Some);
                return true;
            }
            i = i + 1;
        }
        false
    }

    /// Makes named placeholders positional. A query without any keeps no
    /// converted form.
    pub fn process_qs(&mut self)
        ensures
            final(self).initial_qs@ == old(self).initial_qs@,
            has_placeholder(old(self).initial_qs@) ==> (final(self).converted_qs matches Some(c)
                && c.spec_query() == positional_query(old(self).initial_qs@)
                && c.spec_names() == parameter_names(old(self).initial_qs@)),
            !has_placeholder(old(self).initial_qs@) ==> final(self).converted_qs
                == old(self).converted_qs,
    {
        if !self.is_kwargs_parametrized() {
            return;
        }
        let (converted, names) = rewrite_placeholders(self.initial_qs.as_str());
        self.converted_qs = Some(ConvertedQueryString::new(converted, names));
    }
}

/// Finds the end of the placeholder starting at `i`, if any.
fn placeholder_at(s: &Vec<char>, i: usize) -> (r: Option<usize>)
    requires
        i < s.len(),
    ensures
        r matches Some(e) ==> placeholder_end(s@, i as int) == Some(e as int),
        r is None ==> placeholder_end(s@, i as int) is None,
{
    if i + 1 < s.len() && s[i] == '$' && s[i + 1] == '(' {
        let mut j = i + 2;
        while j < s.len() && s[j] != ')'
            invariant
                i + 2 <= j <= s.len(),
                find_char(s@, ')', i as int + 2) == find_char(s@, ')', j as int),
            decreases s.len() - j,
        {
            j = j + 1;
        }
        if j > i + 2 && j < s.len() && s.len() - j > 1 && s[j + 1] == 'p' {
            Some(j + 2)
        } else {
            None
        }
    } else {
        None
    }
}

/// Rewrites every placeholder `$(name)p` of `query` into `$n`, numbering
/// from 1 left to right, and collects the names in the same order.
pub fn rewrite_placeholders(query: &str) -> (res: (String, Vec<String>))
    ensures
        res.0@ == positional_query(query@),
        strings_view(res.1@) == parameter_names(query@),
{
    let s = str_to_chars(query);
    let mut out = String::new();
    let mut names: Vec<String> = Vec::new();
    let mut i: usize = 0;
    let mut k: u64 = 0;
    while i < s.len()
        invariant
            i <= s.len(),
            k <= i,
            s.len() <= usize::MAX,
            rewrite_from(s@, 0, 0) == (out@ + rewrite_from(s@, i as int, k as nat).0,
                strings_view(names@) + rewrite_from(s@, i as int, k as nat).1),
        decreases s.len() - i,
    {
        let ghost rest = rewrite_from(s@, i as int, k as nat);
        match placeholder_at(&s, i) {
            Some(e) => {
                let ghost next = rewrite_from(s@, e as int, k as nat + 1);
                assert(rest == (seq!['$'] + decimal(k as nat + 1) + next.0,
                    seq![s@.subrange(i as int + 2, e as int - 2)] + next.1));
                let name = chars_to_string(&s, i + 2, e - 2);
                let ghost old_out = out@;
                push_char(&mut out, '$');
                push_decimal(&mut out, k + 1);
                let ghost old_names = strings_view(names@);
                names.push(name);
                assert(strings_view(names@) =~= old_names.push(name@));
                assert(out@ + next.0 =~= old_out + (seq!['$'] + decimal(k as nat + 1) + next.0));
                assert(strings_view(names@) + next.1 =~= old_names + (seq![name@] + next.1));
                k = k + 1;
                i = e;
            },
            None => {
                let ghost old_out = out@;
                let ghost next = rewrite_from(s@, i as int + 1, k as nat);
                assert(rest == (seq![s@[i as int]] + next.0, next.1));
                push_char(&mut out, s[i]);
                assert(out@ + next.0 =~= old_out + (seq![s@[i as int]] + next.0));
                i = i + 1;
            },
        }
    }
    (out, names)
}

} // verus!
