use std::hash::{DefaultHasher, Hash, Hasher};

use psqlpy::cache::StatementsCache;
use psqlpy::query::{hash_str, rewrite_placeholders, ConvertedQueryString, QueryString};

fn std_hash(s: &str) -> u64 {
    let mut h = DefaultHasher::new();
    s.to_string().hash(&mut h);
    h.finish()
}

#[test]
fn named_placeholders_become_positional() {
    let (q, names) = rewrite_placeholders("SELECT * FROM users WHERE id = $(id)p AND name = $(name)p");
    assert_eq!(q, "SELECT * FROM users WHERE id = $1 AND name = $2");
    assert_eq!(names, vec!["id".to_string(), "name".to_string()]);
}

#[test]
fn repeated_names_are_numbered_each_time() {
    let (q, names) = rewrite_placeholders("SELECT $(a)p, $(a)p, $(b)p");
    assert_eq!(q, "SELECT $1, $2, $3");
    assert_eq!(names, vec!["a".to_string(), "a".to_string(), "b".to_string()]);
}

#[test]
fn incomplete_placeholders_are_left_alone() {
    let (q, names) = rewrite_placeholders("SELECT $() , $(x)q, $(y, $1");
    assert_eq!(q, "SELECT $() , $(x)q, $(y, $1");
    assert!(names.is_empty());
    let (q, names) = rewrite_placeholders("SELECT $(a$(b)p");
    assert_eq!(q, "SELECT $1");
    assert_eq!(names, vec!["a$(b".to_string()]);
}

#[test]
fn process_qs_keeps_plain_queries() {
    let text = "SELECT 1".to_string();
    let mut qs = QueryString::new(&text);
    assert!(!qs.is_kwargs_parametrized());
    qs.process_qs();
    assert_eq!(qs.query(), "SELECT 1");
}

#[test]
fn process_qs_converts_named_queries() {
    let text = "INSERT INTO t VALUES ($(x)p, $(y)p)".to_string();
    let mut qs = QueryString::new(&text);
    assert!(qs.is_kwargs_parametrized());
    assert_eq!(qs.query(), "INSERT INTO t VALUES ($(x)p, $(y)p)");
    qs.process_qs();
    assert_eq!(qs.query(), "INSERT INTO t VALUES ($1, $2)");
    let names = qs.converted_qs.as_ref().unwrap().params_names().clone();
    assert_eq!(names, vec!["x".to_string(), "y".to_string()]);
}

#[test]
fn converted_query_string_keeps_its_parts() {
    let c = ConvertedQueryString::new("SELECT $1".to_string(), vec!["a".to_string()]);
    assert_eq!(c.query(), "SELECT $1");
    assert_eq!(c.params_names(), &vec!["a".to_string()]);
}

#[test]
fn hash_is_the_std_hash_of_the_text() {
    for s in ["", "SELECT 1", "SELECT $(a)p", "ünïcode"] {
        assert_eq!(hash_str(&s.to_string()), std_hash(s));
    }
    let text = "SELECT $(a)p".to_string();
    let mut qs = QueryString::new(&text);
    let before = qs.hash();
    qs.process_qs();
    assert_eq!(qs.hash(), before);
    assert_ne!(hash_str(&"SELECT 1".to_string()), hash_str(&"SELECT 2".to_string()));
}

#[test]
fn cache_reads_back_by_text() {
    let mut cache: StatementsCache<u32> = StatementsCache::new();
    let text = "SELECT 1".to_string();
    assert!(cache.get_cache(&text).is_none());
    cache.add_cache(QueryString::new(&text), 7);
    let hit = cache.get_cache(&text).unwrap();
    assert_eq!(hit.inner_stmt, 7);
    assert_eq!(hit.query.query(), "SELECT 1");
    assert!(cache.get_cache(&"SELECT 2".to_string()).is_none());
    cache.add_cache(QueryString::new(&text), 8);
    assert_eq!(cache.get_cache(&text).unwrap().inner_stmt, 8);
}
