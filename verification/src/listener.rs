//! The decisions of a listener of PostgreSQL notifications: which
//! callbacks each channel has, which `LISTEN`/`UNLISTEN` statements bring
//! the server's subscriptions in line with them, and when a listener may be
//! used.

use vstd::prelude::*;

use crate::connection_pool::str_eq;
use crate::errors::{PSQLPyResult, RustPSQLDriverError};
use crate::query::strings_view;
use crate::text::{push_str, str_to_chars};

verus! {

/// The callbacks registered for each channel, kept in the order the
/// channels were first registered.
///
/// Channels are named by text, and vstd describes the contents of a
/// `HashMap` only for keys whose hashing it models (integers, `bool`), not
/// for `String`; the entries are therefore a list whose channel names are
/// kept distinct, which also fixes the order of the `LISTEN` statements.
pub struct ChannelCallbacks<C> {
    entries: Vec<(String, Vec<C>)>,
}

/// The channel name of an entry.
pub open spec fn entry_key<C>(e: (String, Vec<C>)) -> Seq<char> {
    e.0@
}

/// No channel occurs twice among the entries.
pub open spec fn distinct_keys<C>(entries: Seq<(String, Vec<C>)>) -> bool {
    forall|i: int, j: int|
        0 <= i < j < entries.len() ==> entry_key(#[trigger] entries[i]) != entry_key(#[trigger] entries[j])
}

/// Adds a callback at the end of the callbacks of entry `i`.
fn append_callback<C>(entries: &mut Vec<(String, Vec<C>)>, i: usize, callback: C)
    requires
        i < old(entries)@.len(),
        distinct_keys(old(entries)@),
    ensures
        distinct_keys(final(entries)@),
        final(entries)@.len() == old(entries)@.len(),
        forall|j: int| 0 <= j < old(entries)@.len() && j != i ==> #[trigger] final(entries)@[j] == old(entries)@[j],
        final(entries)@[i as int].0 == old(entries)@[i as int].0,
        final(entries)@[i as int].1@ == old(entries)@[i as int].1@.push(callback),
{
    let (key, mut cbs) = entries.remove(i);
    cbs.push(callback);
    entries.insert(i, (key, cbs));
    assert(entries@ =~= old(entries)@.update(i as int, (key, cbs)));
    assert forall|a: int, b: int| 0 <= a < b < entries@.len() implies entry_key(#[trigger] entries@[a]) != entry_key(
        #[trigger] entries@[b],
    ) by {
        assert(entry_key(entries@[a]) == entry_key(old(entries)@[a]));
        assert(entry_key(entries@[b]) == entry_key(old(entries)@[b]));
    }
}

/// Adds an entry for a channel that has none yet.
fn push_channel<C>(entries: &mut Vec<(String, Vec<C>)>, channel: String, callback: C)
    requires
        distinct_keys(old(entries)@),
        forall|j: int| 0 <= j < old(entries)@.len() ==> entry_key(#[trigger] old(entries)@[j]) != channel@,
    ensures
        distinct_keys(final(entries)@),
        final(entries)@.len() == old(entries)@.len() + 1,
        forall|j: int| 0 <= j < old(entries)@.len() ==> #[trigger] final(entries)@[j] == old(entries)@[j],
        entry_key(final(entries)@[old(entries)@.len() as int]) == channel@,
        final(entries)@[old(entries)@.len() as int].1@ == seq![callback],
{
    let mut cbs: Vec<C> = Vec::new();
    cbs.push(callback);
    assert(cbs@ =~= seq![callback]);
    entries.push((channel, cbs));
    assert forall|a: int, b: int| 0 <= a < b < entries@.len() implies entry_key(#[trigger] entries@[a]) != entry_key(
        #[trigger] entries@[b],
    ) by {
        if b == old(entries)@.len() {
            assert(entries@[a] == old(entries)@[a]);
        } else {
            assert(entries@[a] == old(entries)@[a]);
            assert(entries@[b] == old(entries)@[b]);
        }
    }
}

/// Removes entry `i`.
fn remove_entry<C>(entries: &mut Vec<(String, Vec<C>)>, i: usize)
    requires
        i < old(entries)@.len(),
        distinct_keys(old(entries)@),
    ensures
        distinct_keys(final(entries)@),
        final(entries)@ == old(entries)@.remove(i as int),
{
    let _removed = entries.remove(i);
    assert forall|a: int, b: int| 0 <= a < b < entries@.len() implies entry_key(#[trigger] entries@[a]) != entry_key(
        #[trigger] entries@[b],
    ) by {
        let oa = if a < i { a } else { a + 1 };
        let ob = if b < i { b } else { b + 1 };
        assert(entries@[a] == old(entries)@[oa]);
        assert(entries@[b] == old(entries)@[ob]);
    }
}

impl<C> ChannelCallbacks<C> {
    /// No channel is registered twice.
    #[verifier::type_invariant]
    spec fn well_formed(&self) -> bool {
        distinct_keys(self.entries@)
    }

    /// Whether `channel` has callbacks.
    pub closed spec fn has_channel(&self, channel: Seq<char>) -> bool {
        exists|i: int| 0 <= i < self.entries@.len() && entry_key(#[trigger] self.entries@[i]) == channel
    }

    /// The callbacks of `channel`, in the order they were added.
    pub closed spec fn callbacks(&self, channel: Seq<char>) -> Option<Seq<C>> {
        if self.has_channel(channel) {
            let i = choose|i: int| 0 <= i < self.entries@.len() && entry_key(#[trigger] self.entries@[i]) == channel;
            Some(self.entries@[i].1@)
        } else {
            None
        }
    }

    /// The channels that have callbacks, in the order they were first added.
    pub closed spec fn channels(&self) -> Seq<Seq<char>> {
        self.entries@.map_values(|e: (String, Vec<C>)| e.0@)
    }

    pub fn new() -> (c: Self)
        ensures
            forall|ch: Seq<char>| #[trigger] c.callbacks(ch) is None,
            c.channels() == Seq::<Seq<char>>::empty(),
    {
        let c = ChannelCallbacks { entries: Vec::new() };
        assert(c.channels() =~= Seq::<Seq<char>>::empty());
        c
    }

    fn find(&self, channel: &str) -> (r: Option<usize>)
        ensures
            match r {
                Some(i) => i < self.entries@.len() && entry_key(self.entries@[i as int]) == channel@
                    && self.callbacks(channel@) == Some(self.entries@[i as int].1@),
                None => !self.has_channel(channel@) && self.callbacks(channel@) is None,
            },
    {
        proof {
            use_type_invariant(self);
        }
        let mut i: usize = 0;
        while i < self.entries.len()
            invariant
                i <= self.entries.len(),
                distinct_keys(self.entries@),
                forall|k: int| 0 <= k < i ==> entry_key(#[trigger] self.entries@[k]) != channel@,
            decreases self.entries.len() - i,
        {
            if str_eq(self.entries[i].0.as_str(), channel) {
                assert(self.has_channel(channel@));
                proof {
                    let j = choose|j: int| 0 <= j < self.entries@.len() && entry_key(#[trigger] self.entries@[j]) == channel@;
                    if j < i {
                        assert(entry_key(self.entries@[j]) != entry_key(self.entries@[i as int]));
                    } else if j > i {
                        assert(entry_key(self.entries@[i as int]) != entry_key(self.entries@[j]));
                    }
                }
                return Some(i);
            }
            i = i + 1;
        }
        None
    }

    /// Adds a callback to a channel, after the callbacks it already has.
    pub fn add_callback(&mut self, channel: String, callback: C)
        ensures
            final(self).callbacks(channel@) == Some(match old(self).callbacks(channel@) {
                Some(cbs) => cbs.push(callback),
                None => seq![callback],
            }),
            forall|ch: Seq<char>| ch != channel@ ==> #[trigger] final(self).callbacks(ch) == old(self).callbacks(ch),
            final(self).channels() == (if old(self).has_channel(channel@) {
                old(self).channels()
            } else {
                old(self).channels().push(channel@)
            }),
    {
        proof {
            use_type_invariant(&*self);
        }
        match self.find(channel.as_str()) {
            Some(i) => {
                let mut entries: Vec<(String, Vec<C>)> = Vec::new();
                std::mem::swap(&mut entries, &mut self.entries);
                append_callback(&mut entries, i, callback);
                self.entries = entries;
                assert(self.has_channel(channel@)) by {
                    assert(entry_key(self.entries@[i as int]) == channel@);
                }
                assert forall|ch: Seq<char>| ch != channel@ implies #[trigger] self.callbacks(ch) == old(self).callbacks(ch) by {
                    if old(self).has_channel(ch) {
                        let j = choose|j: int| 0 <= j < old(self).entries@.len() && entry_key(#[trigger] old(self).entries@[j]) == ch;
                        assert(entry_key(self.entries@[j]) == ch);
                    }
                    if self.has_channel(ch) {
                        let j = choose|j: int| 0 <= j < self.entries@.len() && entry_key(#[trigger] self.entries@[j]) == ch;
                        assert(entry_key(old(self).entries@[j]) == ch);
                    }
                }
                assert(self.channels() =~= old(self).channels());
            },
            None => {
                let ghost key = channel@;
                let mut entries: Vec<(String, Vec<C>)> = Vec::new();
                std::mem::swap(&mut entries, &mut self.entries);
                push_channel(&mut entries, channel, callback);
                self.entries = entries;
                let ghost n: int = self.entries@.len() - 1;
                assert(entry_key(self.entries@[n]) == key);
                assert(self.has_channel(key));
                assert forall|ch: Seq<char>| ch != channel@ implies #[trigger] self.callbacks(ch) == old(self).callbacks(ch) by {
                    if old(self).has_channel(ch) {
                        let j = choose|j: int| 0 <= j < old(self).entries@.len() && entry_key(#[trigger] old(self).entries@[j]) == ch;
                        assert(entry_key(self.entries@[j]) == ch);
                    }
                    if self.has_channel(ch) {
                        let j = choose|j: int| 0 <= j < self.entries@.len() && entry_key(#[trigger] self.entries@[j]) == ch;
                        assert(entry_key(old(self).entries@[j]) == ch);
                    }
                }
                assert(self.channels() =~= old(self).channels().push(channel@));
            },
        }
    }

    /// The callbacks of a channel, if it has any.
    pub fn retrieve_channel_callbacks(&self, channel: &str) -> (r: Option<&Vec<C>>)
        ensures
            match r {
                Some(v) => self.callbacks(channel@) == Some(v@),
                None => self.callbacks(channel@) is None,
            },
    {
        match self.find(channel) {
            Some(i) => Some(&self.entries[i].1),
            None => None,
        }
    }

    /// Removes a channel and its callbacks.
    pub fn clear_channel_callbacks(&mut self, channel: &str)
        ensures
            final(self).callbacks(channel@) is None,
            forall|ch: Seq<char>| ch != channel@ ==> #[trigger] final(self).callbacks(ch) == old(self).callbacks(ch),
    {
        proof {
            use_type_invariant(&*self);
        }
        if let Some(i) = self.find(channel) {
            let mut entries: Vec<(String, Vec<C>)> = Vec::new();
            std::mem::swap(&mut entries, &mut self.entries);
            remove_entry(&mut entries, i);
            self.entries = entries;
            assert(!self.has_channel(channel@)) by {
                if self.has_channel(channel@) {
                    let j = choose|j: int| 0 <= j < self.entries@.len() && entry_key(#[trigger] self.entries@[j]) == channel@;
                    let oj = if j < i { j } else { j + 1 };
                    assert(self.entries@[j] == old(self).entries@[oj]);
                }
            }
            assert forall|ch: Seq<char>| ch != channel@ implies #[trigger] self.callbacks(ch) == old(self).callbacks(ch) by {
                if old(self).has_channel(ch) {
                    let j = choose|j: int| 0 <= j < old(self).entries@.len() && entry_key(#[trigger] old(self).entries@[j]) == ch;
                    assert(j != i);
                    let nj = if j < i { j } else { j - 1 };
                    assert(self.entries@[nj] == old(self).entries@[j]);
                    assert(entry_key(self.entries@[nj]) == ch);
                }
                if self.has_channel(ch) {
                    let j = choose|j: int| 0 <= j < self.entries@.len() && entry_key(#[trigger] self.entries@[j]) == ch;
                    let oj = if j < i { j } else { j + 1 };
                    assert(self.entries@[j] == old(self).entries@[oj]);
                    assert(entry_key(old(self).entries@[oj]) == ch);
                }
            }
        }
    }

    /// Removes every channel.
    pub fn clear_all(&mut self)
        ensures
            forall|ch: Seq<char>| #[trigger] final(self).callbacks(ch) is None,
            final(self).channels() == Seq::<Seq<char>>::empty(),
    {
        self.entries = Vec::new();
        assert(self.channels() =~= Seq::<Seq<char>>::empty());
    }

    /// The channels that have callbacks, in the order they were first added.
    pub fn retrieve_all_channels(&self) -> (r: Vec<String>)
        ensures
            strings_view(r@) == self.channels(),
    {
        let mut r: Vec<String> = Vec::new();
        let mut i: usize = 0;
        while i < self.entries.len()
            invariant
                i <= self.entries.len(),
                strings_view(r@) =~= self.channels().take(i as int),
            decreases self.entries.len() - i,
        {
            let ghost before = strings_view(r@);
            r.push(self.entries[i].0.clone());
            assert(strings_view(r@) =~= before.push(self.entries@[i as int].0@));
            assert(self.channels().take(i as int + 1) =~= self.channels().take(i as int).push(self.entries@[i as int].0@));
            i = i + 1;
        }
        assert(self.channels().take(self.entries.len() as int) =~= self.channels());
        r
    }
}

/// The statements for the channels of `from` that are not in `to`, each
/// `keyword` + channel + `;`, in the order of `from`.
pub open spec fn subscription_changes(from: Seq<Seq<char>>, to: Seq<Seq<char>>, keyword: Seq<char>) -> Seq<char>
    decreases from.len(),
{
    if from.len() == 0 {
        Seq::empty()
    } else {
        subscription_changes(from.drop_last(), to, keyword) + if to.contains(from.last()) {
            Seq::empty()
        } else {
            keyword + from.last() + ";"@
        }
    }
}

/// The statements that bring the subscribed channels `applied` in line with
/// the wanted channels `desired`: `UNLISTEN` for those no longer wanted,
/// then `LISTEN` for those newly wanted.
pub open spec fn reconcile_query(applied: Seq<Seq<char>>, desired: Seq<Seq<char>>) -> Seq<char> {
    subscription_changes(applied, desired, "UNLISTEN "@) + subscription_changes(desired, applied, "LISTEN "@)
}

proof fn lemma_no_changes(from: Seq<Seq<char>>, to: Seq<Seq<char>>, keyword: Seq<char>)
    requires
        forall|i: int| 0 <= i < from.len() ==> to.contains(#[trigger] from[i]),
    ensures
        subscription_changes(from, to, keyword) == Seq::<char>::empty(),
    decreases from.len(),
{
    if from.len() > 0 {
        assert(to.contains(from[from.len() - 1]));
        assert forall|i: int| 0 <= i < from.drop_last().len() implies to.contains(#[trigger] from.drop_last()[i]) by {
            assert(from.drop_last()[i] == from[i]);
        }
        lemma_no_changes(from.drop_last(), to, keyword);
        assert(subscription_changes(from, to, keyword) =~= Seq::<char>::empty());
    }
}

/// Once the subscriptions match the wanted channels, reconciling sends
/// nothing: reconciliation is idempotent.
pub proof fn lemma_reconcile_idempotent(desired: Seq<Seq<char>>)
    ensures
        reconcile_query(desired, desired) == Seq::<char>::empty(),
{
    assert forall|i: int| 0 <= i < desired.len() implies desired.contains(#[trigger] desired[i]) by {}
    lemma_no_changes(desired, desired, "UNLISTEN "@);
    lemma_no_changes(desired, desired, "LISTEN "@);
    assert(reconcile_query(desired, desired) =~= Seq::<char>::empty());
}

proof fn lemma_changes_mention(from: Seq<Seq<char>>, to: Seq<Seq<char>>, keyword: Seq<char>, ch: Seq<char>)
    requires
        from.contains(ch),
        !to.contains(ch),
    ensures
        exists|p: Seq<char>, q: Seq<char>| subscription_changes(from, to, keyword) == p + (keyword + ch + ";"@) + q,
    decreases from.len(),
{
    let rest = subscription_changes(from.drop_last(), to, keyword);
    if from.last() == ch {
        assert(subscription_changes(from, to, keyword) == rest + (keyword + ch + ";"@) + Seq::<char>::empty());
    } else {
        let k = choose|k: int| 0 <= k < from.len() && from[k] == ch;
        assert(k < from.len() - 1);
        assert(from.drop_last()[k] == ch);
        lemma_changes_mention(from.drop_last(), to, keyword, ch);
        let (p, q) = choose|p: Seq<char>, q: Seq<char>| rest == p + (keyword + ch + ";"@) + q;
        let tail = if to.contains(from.last()) { Seq::<char>::empty() } else { keyword + from.last() + ";"@ };
        assert(subscription_changes(from, to, keyword) =~= p + (keyword + ch + ";"@) + (q + tail));
    }
}

/// A channel that is subscribed but no longer wanted is unsubscribed:
/// reconciling sends `UNLISTEN` for it.
pub proof fn lemma_dropped_channel_unlistened(applied: Seq<Seq<char>>, desired: Seq<Seq<char>>, ch: Seq<char>)
    requires
        applied.contains(ch),
        !desired.contains(ch),
    ensures
        exists|p: Seq<char>, q: Seq<char>| reconcile_query(applied, desired) == p + ("UNLISTEN "@ + ch + ";"@) + q,
{
    lemma_changes_mention(applied, desired, "UNLISTEN "@, ch);
    let (p, q) = choose|p: Seq<char>, q: Seq<char>|
        subscription_changes(applied, desired, "UNLISTEN "@) == p + ("UNLISTEN "@ + ch + ";"@) + q;
    assert(reconcile_query(applied, desired) =~= p + ("UNLISTEN "@ + ch + ";"@)
        + (q + subscription_changes(desired, applied, "LISTEN "@)));
}

/// A channel that is wanted but not yet subscribed is subscribed:
/// reconciling sends `LISTEN` for it.
pub proof fn lemma_new_channel_listened(applied: Seq<Seq<char>>, desired: Seq<Seq<char>>, ch: Seq<char>)
    requires
        desired.contains(ch),
        !applied.contains(ch),
    ensures
        exists|p: Seq<char>, q: Seq<char>| reconcile_query(applied, desired) == p + ("LISTEN "@ + ch + ";"@) + q,
{
    lemma_changes_mention(desired, applied, "LISTEN "@, ch);
    let (p, q) = choose|p: Seq<char>, q: Seq<char>|
        subscription_changes(desired, applied, "LISTEN "@) == p + ("LISTEN "@ + ch + ";"@) + q;
    assert(reconcile_query(applied, desired) =~= (subscription_changes(applied, desired, "UNLISTEN "@) + p)
        + ("LISTEN "@ + ch + ";"@) + q);
}

fn contains_string(v: &Vec<String>, s: &String) -> (b: bool)
    ensures
        b == strings_view(v@).contains(s@),
{
    let mut i: usize = 0;
    while i < v.len()
        invariant
            i <= v.len(),
            forall|k: int| 0 <= k < i ==> (#[trigger] v@[k])@ != s@,
        decreases v.len() - i,
    {
        if str_eq(v[i].as_str(), s.as_str()) {
            assert(strings_view(v@)[i as int] == s@);
            return true;
        }
        i = i + 1;
    }
    assert(!strings_view(v@).contains(s@)) by {
        if strings_view(v@).contains(s@) {
            let k = choose|k: int| 0 <= k < strings_view(v@).len() && strings_view(v@)[k] == s@;
            assert(v@[k]@ == s@);
        }
    }
    false
}

fn push_changes(out: &mut String, from: &Vec<String>, to: &Vec<String>, keyword: &str)
    ensures
        final(out)@ == old(out)@ + subscription_changes(strings_view(from@), strings_view(to@), keyword@),
{
    let ghost fv = strings_view(from@);
    let ghost tv = strings_view(to@);
    let mut i: usize = 0;
    while i < from.len()
        invariant
            i <= from.len(),
            fv == strings_view(from@),
            tv == strings_view(to@),
            out@ == old(out)@ + subscription_changes(fv.take(i as int), tv, keyword@),
        decreases from.len() - i,
    {
        let ghost before = out@;
        let ghost t = fv.take(i as int + 1);
        assert(t.drop_last() =~= fv.take(i as int));
        assert(t.last() == from@[i as int]@);
        if !contains_string(to, &from[i]) {
            push_str(out, keyword);
            push_str(out, from[i].as_str());
            push_str(out, ";");
        }
        assert(out@ =~= old(out)@ + subscription_changes(t, tv, keyword@));
        i = i + 1;
    }
    assert(fv.take(from.len() as int) =~= fv);
}

/// Builds the statements that bring the subscribed channels in line with
/// the wanted ones.
pub fn build_reconcile_query(applied: &Vec<String>, desired: &Vec<String>) -> (q: String)
    ensures
        q@ == reconcile_query(strings_view(applied@), strings_view(desired@)),
{
    let mut q = String::new();
    push_changes(&mut q, applied, desired, "UNLISTEN ");
    push_changes(&mut q, desired, applied, "LISTEN ");
    assert(q@ =~= reconcile_query(strings_view(applied@), strings_view(desired@)));
    q
}

/// The subscriptions of a listener's session. The channels are held as a
/// list rather than a `HashSet`, for the reason given at `ChannelCallbacks`.
pub struct Subscriptions {
    /// The channels subscribed on the server.
    pub applied: Vec<String>,
    /// Whether the subscriptions are known to match the wanted channels.
    pub is_listened: bool,
}

impl Subscriptions {
    pub fn new() -> (s: Self)
        ensures
            s.applied@.len() == 0,
            !s.is_listened,
    {
        Subscriptions { applied: Vec::new(), is_listened: false }
    }

    /// Flags that the wanted channels changed, so that the next
    /// reconciliation brings the server in line again.
    pub fn mark_dirty(&mut self)
        ensures
            !final(self).is_listened,
            final(self).applied@ == old(self).applied@,
    {
        self.is_listened = false;
    }

    /// The statements to send before the next wait for a notification:
    /// when the subscriptions may differ from the wanted channels, those
    /// that bring them in line, if there are any; nothing otherwise.
    pub fn plan_listen(&self, desired: &Vec<String>) -> (q: Option<String>)
        ensures
            self.is_listened ==> q is None,
            !self.is_listened ==> match q {
                Some(s) => s@ == reconcile_query(strings_view(self.applied@), strings_view(desired@))
                    && s@.len() > 0,
                None => reconcile_query(strings_view(self.applied@), strings_view(desired@)).len() == 0,
            },
    {
        if self.is_listened {
            return None;
        }
        let q = build_reconcile_query(&self.applied, desired);
        if str_to_chars(q.as_str()).len() == 0 {
            None
        } else {
            Some(q)
        }
    }

    /// Records how sending the planned statements went (a plan with no
    /// statement counts as sent). On success the wanted channels are the
    /// subscribed ones and are known to match; a failure is the database's
    /// error, and leaves the subscriptions to be reconciled again.
    pub fn finish_listen(&mut self, desired: &Vec<String>, outcome: Result<(), String>) -> (r: PSQLPyResult<()>)
        ensures
            outcome is Ok ==> {
                &&& r is Ok
                &&& final(self).is_listened
                &&& old(self).is_listened ==> final(self).applied@ == old(self).applied@
                &&& !old(self).is_listened ==> strings_view(final(self).applied@) == strings_view(desired@)
            },
            outcome matches Err(m) ==> {
                &&& r matches Err(RustPSQLDriverError::RustDriverError(e)) && e@ == m@
                &&& final(self).is_listened == old(self).is_listened
                &&& final(self).applied@ == old(self).applied@
            },
    {
        match outcome {
            Err(m) => Err(RustPSQLDriverError::RustDriverError(m)),
            Ok(()) => {
                if !self.is_listened {
                    let mut applied: Vec<String> = Vec::new();
                    let mut i: usize = 0;
                    while i < desired.len()
                        invariant
                            i <= desired.len(),
                            strings_view(applied@) =~= strings_view(desired@).take(i as int),
                        decreases desired.len() - i,
                    {
                        let ghost before = strings_view(applied@);
                        applied.push(desired[i].clone());
                        assert(strings_view(applied@) =~= before.push(desired@[i as int]@));
                        assert(strings_view(desired@).take(i as int + 1) =~= strings_view(desired@).take(i as int).push(desired@[i as int]@));
                        i = i + 1;
                    }
                    assert(strings_view(desired@).take(desired.len() as int) =~= strings_view(desired@));
                    self.applied = applied;
                }
                self.is_listened = true;
                Ok(())
            },
        }
    }
}

} // verus!
