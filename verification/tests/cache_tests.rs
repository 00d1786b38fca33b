use nft_image_proxy::document::Document;
use nft_image_proxy::lru_cache::MemoryBoundedLruCache;

fn doc(id: u128, size: usize) -> Document {
    Document {
        id,
        content_type: "image/png".to_string(),
        content_length: size as u64,
        bytes: vec![7u8; size],
        url: format!("http://origin.example/{}", id),
    }
}

#[test]
fn cache_accounts_every_byte() {
    let mut cache = MemoryBoundedLruCache::new(1000);
    assert!(cache.put("a".to_string(), doc(1, 300)));
    assert!(cache.put("b".to_string(), doc(2, 500)));
    let m = cache.metrics_snapshot();
    assert_eq!(m.items, 2);
    assert_eq!(m.mem_used_bytes, 800);
    assert_eq!(m.mem_total_bytes, 1000);

    cache.remove("a");
    let m = cache.metrics_snapshot();
    assert_eq!(m.items, 1);
    assert_eq!(m.mem_used_bytes, 500);
}

#[test]
fn cache_never_exceeds_budget() {
    let mut cache = MemoryBoundedLruCache::new(1000);
    for i in 0..50u128 {
        cache.put(format!("k{}", i), doc(i, 320));
        assert!(cache.metrics_snapshot().mem_used_bytes <= 1000);
    }
    assert_eq!(cache.len(), 3);
}

#[test]
fn cache_refuses_oversized_entries() {
    let mut cache = MemoryBoundedLruCache::new(100);
    let ok = cache.put("big".to_string(), doc(1, 101));
    assert!(!ok);
    assert!(cache.get("big").is_none());
    assert_eq!(cache.len(), 0);
    // An entry of exactly the budget fits.
    assert!(cache.put("fits".to_string(), doc(2, 100)));
    assert!(cache.get("fits").is_some());
}

#[test]
fn cache_evicts_least_recently_used_first() {
    let mut cache = MemoryBoundedLruCache::new(300);
    assert!(cache.put("first".to_string(), doc(1, 100)));
    assert!(cache.put("second".to_string(), doc(2, 100)));
    assert!(cache.put("third".to_string(), doc(3, 100)));

    // Inserting one more evicts the oldest key only.
    assert!(cache.put("fourth".to_string(), doc(4, 100)));
    assert!(cache.get("first").is_none());
    assert!(cache.get("second").is_some());
    assert!(cache.get("third").is_some());
    assert!(cache.get("fourth").is_some());
    assert_eq!(cache.metrics_snapshot().evictions, 1);

    // A larger entry evicts as many front entries as it needs: all three
    // remaining entries must leave before 250 bytes fit under 300.
    assert!(cache.put("wide".to_string(), doc(5, 250)));
    assert_eq!(cache.len(), 1);
    assert!(cache.get("wide").is_some());
    assert_eq!(cache.metrics_snapshot().evictions, 4);
}

#[test]
fn cache_get_refreshes_position() {
    let mut cache = MemoryBoundedLruCache::new(300);
    assert!(cache.put("a".to_string(), doc(1, 100)));
    assert!(cache.put("b".to_string(), doc(2, 100)));
    assert!(cache.put("c".to_string(), doc(3, 100)));

    // Touch the oldest key; the next eviction takes a different one.
    assert!(cache.get("a").is_some());
    assert!(cache.put("d".to_string(), doc(4, 100)));
    assert!(cache.get("a").is_some());
    assert!(cache.get("b").is_none());
}

#[test]
fn cache_put_does_not_refresh_position() {
    let mut cache = MemoryBoundedLruCache::new(300);
    assert!(cache.put("a".to_string(), doc(1, 100)));
    assert!(cache.put("b".to_string(), doc(2, 100)));
    assert!(cache.put("c".to_string(), doc(3, 100)));

    // Re-inserting the oldest key leaves its position untouched: it is
    // still the first to go.
    assert!(cache.put("a".to_string(), doc(9, 100)));
    assert!(cache.put("d".to_string(), doc(4, 100)));
    assert!(cache.get("a").is_none());
    // The re-insert also left the stored document untouched.
    assert!(cache.get("b").is_some());
}

#[test]
fn cache_hit_and_miss_counters() {
    let mut cache = MemoryBoundedLruCache::new(300);
    assert!(cache.put("a".to_string(), doc(1, 100)));
    assert!(cache.get("a").is_some());
    assert!(cache.get("a").is_some());
    assert!(cache.get("nope").is_none());
    let m = cache.metrics_snapshot();
    assert_eq!(m.hits, 2);
    assert_eq!(m.misses, 1);
}

#[test]
fn cache_clear_resets_size_and_evictions() {
    let mut cache = MemoryBoundedLruCache::new(200);
    assert!(cache.put("a".to_string(), doc(1, 100)));
    assert!(cache.put("b".to_string(), doc(2, 100)));
    assert!(cache.put("c".to_string(), doc(3, 100)));
    assert!(cache.metrics_snapshot().evictions > 0);
    cache.clear();
    let m = cache.metrics_snapshot();
    assert_eq!(m.items, 0);
    assert_eq!(m.mem_used_bytes, 0);
    assert_eq!(m.evictions, 0);
}

#[test]
fn cache_returns_stored_content() {
    let mut cache = MemoryBoundedLruCache::new(1000);
    let d = doc(42, 10);
    assert!(cache.put("k".to_string(), d));
    let got = cache.get("k").unwrap();
    assert_eq!(got.id, 42);
    assert_eq!(got.bytes, vec![7u8; 10]);
    assert_eq!(got.url.as_str(), "http://origin.example/42");
}
