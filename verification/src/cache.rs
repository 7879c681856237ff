//! A cache of prepared statements, keyed by the hash of the query text.

use std::collections::HashMap;

use vstd::prelude::*;

use crate::query::{hash_str, text_hash, QueryString};

verus! {

/// A cached statement: the query it was prepared from, and the prepared
/// statement itself.
pub struct StatementCacheInfo<S> {
    pub query: QueryString,
    pub inner_stmt: S,
}

/// Prepared statements by the hash of their query's initial text. A query
/// whose text hashes like an earlier one takes its place.
pub struct StatementsCache<S> {
    entries: HashMap<u64, StatementCacheInfo<S>>,
}

impl<S> StatementsCache<S> {
    /// The cached statements by hash.
    pub closed spec fn view(&self) -> Map<u64, StatementCacheInfo<S>> {
        self.entries@
    }

    pub fn new() -> (c: Self)
        ensures
            c.view() == Map::<u64, StatementCacheInfo<S>>::empty(),
    {
        StatementsCache { entries: HashMap::new() }
    }

    /// Caches a statement under the hash of its query's initial text.
    pub fn add_cache(&mut self, query: QueryString, inner_stmt: S)
        ensures
            final(self).view() == old(self).view().insert(
                text_hash(query.initial_qs@),
                StatementCacheInfo { query, inner_stmt },
            ),
    {
        broadcast use vstd::std_specs::hash::group_hash_axioms;
        let key = query.hash();
        self.entries.insert(key, StatementCacheInfo { query, inner_stmt });
    }

    /// The statement cached for a query text, if any.
    pub fn get_cache(&self, querystring: &String) -> (r: Option<&StatementCacheInfo<S>>)
        ensures
            match r {
                Some(info) => self.view().contains_key(text_hash(querystring@))
                    && *info == self.view()[text_hash(querystring@)],
                None => !self.view().contains_key(text_hash(querystring@)),
            },
    {
        broadcast use vstd::std_specs::hash::group_hash_axioms;
        let key = hash_str(querystring);
        self.entries.get(&key)
    }
}

/// A statement cached for a query is found again by the query's text.
pub proof fn lemma_cache_reads_back<S>(before: Map<u64, StatementCacheInfo<S>>, query: QueryString, inner_stmt: S, text: Seq<char>)
    requires
        text == query.initial_qs@,
    ensures
        ({
            let after = before.insert(text_hash(query.initial_qs@), StatementCacheInfo { query, inner_stmt });
            after.contains_key(text_hash(text)) && after[text_hash(text)] == (StatementCacheInfo { query, inner_stmt })
        }),
{
}

} // verus!
