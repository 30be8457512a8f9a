//! Tests for the in-memory cache and the TTL cache.

use ferriclink_core::caches::{CacheStats, InMemoryCache, TtlCache};
use ferriclink_core::language_models::Generation;

fn create_test_generation(text: &str) -> Generation {
    Generation::new(text)
}

/// One second, in nanoseconds.
const SECOND: u64 = 1_000_000_000;

#[test]
fn test_in_memory_cache_basic() {
    let mut cache = InMemoryCache::new();

    // Test empty cache
    assert!(cache.lookup("test", "llm").is_none());

    // Test update and lookup
    let generations = vec![create_test_generation("Hello, world!")];
    cache.update("test", "llm", generations.clone());

    let result = cache.lookup("test", "llm");
    assert!(result.is_some());
    assert_eq!(result.unwrap(), generations);
}

#[test]
fn test_in_memory_cache_with_max_size() {
    let mut cache = InMemoryCache::with_max_size(Some(2));

    // Add entries up to max size
    cache.update("test1", "llm", vec![create_test_generation("1")]);
    cache.update("test2", "llm", vec![create_test_generation("2")]);

    // This should evict the first entry
    cache.update("test3", "llm", vec![create_test_generation("3")]);

    assert!(cache.lookup("test1", "llm").is_none());
    assert!(cache.lookup("test2", "llm").is_some());
    assert!(cache.lookup("test3", "llm").is_some());
}

#[test]
fn test_in_memory_cache_clear() {
    let mut cache = InMemoryCache::new();

    cache.update("test", "llm", vec![create_test_generation("Hello")]);
    assert!(cache.lookup("test", "llm").is_some());

    cache.clear();
    assert!(cache.lookup("test", "llm").is_none());
}

#[test]
fn test_cache_stats() {
    let mut cache = InMemoryCache::new();

    // Initial stats
    let stats = cache.stats();
    assert_eq!(stats.hits, 0);
    assert_eq!(stats.misses, 0);
    assert_eq!(stats.updates, 0);

    // Test miss
    cache.lookup("test", "llm");
    let stats = cache.stats();
    assert_eq!(stats.misses, 1);

    // Test update
    cache.update("test", "llm", vec![create_test_generation("Hello")]);
    let stats = cache.stats();
    assert_eq!(stats.updates, 1);

    // Test hit
    cache.lookup("test", "llm");
    let stats = cache.stats();
    assert_eq!(stats.hits, 1);
    assert_eq!(stats.misses, 1);
}

#[test]
fn test_ttl_cache() {
    // TTL of 100 milliseconds, with lookups at explicit times
    let mut cache = TtlCache::new(100_000_000, None);

    // Add entry
    let t0: u64 = 10 * SECOND;
    cache.update_at("test", "llm", vec![create_test_generation("TTL test")], t0);
    assert!(cache.lookup_at("test", "llm", t0).is_some());

    // 150 milliseconds later the entry has expired
    assert!(cache.lookup_at("test", "llm", t0 + 150_000_000).is_none());
}

#[test]
fn test_cache_key_generation() {
    let key1 = InMemoryCache::generate_key("prompt1", "llm1");
    let key2 = InMemoryCache::generate_key("prompt2", "llm1");
    let key3 = InMemoryCache::generate_key("prompt1", "llm2");
    let key4 = InMemoryCache::generate_key("prompt1", "llm1");

    assert_ne!(key1, key2);
    assert_ne!(key1, key3);
    assert_eq!(key1, key4);
}

#[test]
fn test_fresh_store_misses() {
    // A lookup on a fresh store misses, whatever the fingerprint.
    let mut cache = InMemoryCache::new();
    assert!(cache.lookup_at("a", "x", SECOND).is_none());
    assert!(cache.lookup_at("b", "y", 2 * SECOND).is_none());
    assert!(cache.lookup_at("", "", 3 * SECOND).is_none());
    assert_eq!(cache.stats().misses, 3);
}

#[test]
fn test_round_trip_exact_value() {
    // An update followed by a lookup returns exactly the stored value.
    let mut cache = InMemoryCache::new();
    let generations = vec![
        Generation::new("alpha"),
        Generation::new_with_info("beta", vec![("k".to_string(), "v".to_string())]),
    ];
    cache.update_at("prompt", "llm", generations.clone(), SECOND);
    let result = cache.lookup_at("prompt", "llm", 2 * SECOND);
    assert_eq!(result.unwrap(), generations);
}

#[test]
fn test_capacity_never_exceeded() {
    // After any sequence of updates the store holds at most max_size entries.
    let mut cache = InMemoryCache::with_max_size(Some(3));
    for i in 0..10u64 {
        let prompt = format!("prompt{i}");
        cache.update_at(&prompt, "llm", vec![Generation::new("x")], i * SECOND);
        assert!(cache.size() <= 3);
    }
    assert_eq!(cache.size(), 3);
    assert_eq!(cache.stats().max_size_reached, 3);
}

#[test]
fn test_lru_eviction_scenario() {
    // max_size = 2; insert A, B, C in order with no intervening lookups:
    // A is evicted, B and C stay.
    let mut cache = InMemoryCache::with_max_size(Some(2));
    cache.update_at("A", "llm", vec![Generation::new("a")], 1 * SECOND);
    cache.update_at("B", "llm", vec![Generation::new("b")], 2 * SECOND);
    cache.update_at("C", "llm", vec![Generation::new("c")], 3 * SECOND);
    assert!(cache.lookup_at("A", "llm", 4 * SECOND).is_none());
    assert!(cache.lookup_at("B", "llm", 5 * SECOND).is_some());
    assert!(cache.lookup_at("C", "llm", 6 * SECOND).is_some());
}

#[test]
fn test_lookup_refreshes_recency() {
    // A lookup refreshes an entry's recency, so the other entry is evicted.
    let mut cache = InMemoryCache::with_max_size(Some(2));
    cache.update_at("A", "llm", vec![Generation::new("a")], 1 * SECOND);
    cache.update_at("B", "llm", vec![Generation::new("b")], 2 * SECOND);
    // touch A so that B becomes the least recently used entry
    assert!(cache.lookup_at("A", "llm", 3 * SECOND).is_some());
    cache.update_at("C", "llm", vec![Generation::new("c")], 4 * SECOND);
    assert!(cache.lookup_at("A", "llm", 5 * SECOND).is_some());
    assert!(cache.lookup_at("B", "llm", 6 * SECOND).is_none());
    assert!(cache.lookup_at("C", "llm", 7 * SECOND).is_some());
}

#[test]
fn test_ttl_cache_stats_and_getters() {
    let mut cache = TtlCache::new(5 * SECOND, Some(4));
    assert_eq!(cache.default_ttl(), 5 * SECOND);
    cache.update_at("p", "l", vec![Generation::new("v")], SECOND);
    let stats = cache.stats();
    assert_eq!(stats.updates, 1);
    assert_eq!(stats.current_size, 1);
    cache.clear();
    assert_eq!(cache.stats().clears, 1);
    assert_eq!(cache.stats().current_size, 0);
}

#[test]
fn test_ttl_cache_with_clock() {
    // a generous TTL: an immediate lookup through the process clock hits
    let mut cache = TtlCache::new(3600 * SECOND, None);
    cache.update("p", "l", vec![create_test_generation("fresh")]);
    let got = cache.lookup("p", "l");
    assert_eq!(got.unwrap()[0].text, "fresh");
    assert!(cache.lookup("other", "l").is_none());
}

#[test]
fn test_total_requests() {
    let stats = CacheStats {
        hits: 3,
        misses: 4,
        updates: 9,
        clears: 1,
        current_size: 2,
        max_size_reached: 5,
    };
    assert_eq!(stats.total_requests(), 7);
}
