use simse_core::text_cache::TextCache;

#[test]
fn put_and_get() {
    let cache = TextCache::new(10, 1_000_000);
    let cache = cache.put("a", "hello");
    let (cache, val) = cache.get("a");
    assert_eq!(val, Some("hello".to_string()));
    assert_eq!(cache.size(), 1);
    assert_eq!(cache.bytes(), 5);
}

#[test]
fn get_miss_returns_none() {
    let cache = TextCache::new(10, 1_000_000);
    let (_cache, val) = cache.get("missing");
    assert_eq!(val, None);
}

#[test]
fn put_replaces_existing() {
    let cache = TextCache::new(10, 1_000_000);
    let cache = cache.put("a", "hello");
    let cache = cache.put("a", "world!");
    let (cache, val) = cache.get("a");
    assert_eq!(val, Some("world!".to_string()));
    assert_eq!(cache.size(), 1);
    assert_eq!(cache.bytes(), 6);
}

#[test]
fn evict_by_entry_count() {
    let cache = TextCache::new(3, 1_000_000);
    let cache = cache.put("a", "1");
    let cache = cache.put("b", "2");
    let cache = cache.put("c", "3");
    let cache = cache.put("d", "4");
    assert_eq!(cache.size(), 3);
    let (cache, val_a) = cache.get("a");
    assert_eq!(val_a, None);
    let (cache, val_b) = cache.get("b");
    assert_eq!(val_b, Some("2".to_string()));
    let (cache, val_c) = cache.get("c");
    assert_eq!(val_c, Some("3".to_string()));
    let (_cache, val_d) = cache.get("d");
    assert_eq!(val_d, Some("4".to_string()));
}

#[test]
fn evict_by_byte_budget() {
    let cache = TextCache::new(100, 12);
    let cache = cache.put("a", "hello");
    let cache = cache.put("b", "hello");
    assert_eq!(cache.size(), 2);
    assert_eq!(cache.bytes(), 10);

    let cache = cache.put("c", "hello");
    assert_eq!(cache.size(), 2);
    assert_eq!(cache.bytes(), 10);
    let (_cache, val_a) = cache.get("a");
    assert_eq!(val_a, None);
}

#[test]
fn get_promotes_to_mru() {
    let cache = TextCache::new(3, 1_000_000);
    let cache = cache.put("a", "1");
    let cache = cache.put("b", "2");
    let cache = cache.put("c", "3");
    let (cache, _) = cache.get("a");
    let cache = cache.put("d", "4");
    let (cache, val_a) = cache.get("a");
    assert_eq!(val_a, Some("1".to_string()));
    let (_cache, val_b) = cache.get("b");
    assert_eq!(val_b, None);
}

#[test]
fn remove_entry() {
    let cache = TextCache::new(10, 1_000_000);
    let cache = cache.put("a", "hello");
    let cache = cache.put("b", "world");
    let (cache, removed) = cache.remove("a");
    assert!(removed);
    let (cache, val_a) = cache.get("a");
    assert_eq!(val_a, None);
    assert_eq!(cache.size(), 1);
    assert_eq!(cache.bytes(), 5);
}

#[test]
fn text_cache_remove_nonexistent_returns_false() {
    let cache = TextCache::new(10, 1_000_000);
    let (_cache, removed) = cache.remove("missing");
    assert!(!removed);
}

#[test]
fn clear_empties_cache() {
    let cache = TextCache::new(10, 1_000_000);
    let cache = cache.put("a", "hello");
    let cache = cache.put("b", "world");
    let cache = cache.clear();
    assert_eq!(cache.size(), 0);
    assert_eq!(cache.bytes(), 0);
    let (_cache, val_a) = cache.get("a");
    assert_eq!(val_a, None);
}

#[test]
fn default_limits() {
    let cache = TextCache::default();
    assert_eq!(cache.max_entries(), 500);
    assert_eq!(cache.max_bytes(), 5_242_880);
}

#[test]
fn utf8_byte_counting() {
    let cache = TextCache::new(100, 1_000_000);
    let text = "caf\u{00e9}";
    let cache = cache.put("a", text);
    assert_eq!(cache.bytes(), text.len());
    assert_eq!(cache.bytes(), 5);
}

#[test]
fn multiple_evictions_for_large_entry() {
    let cache = TextCache::new(100, 10);
    let cache = cache.put("a", "aaa");
    let cache = cache.put("b", "bbb");
    let cache = cache.put("c", "ccc");
    let cache = cache.put("d", "dddddddd");
    assert_eq!(cache.size(), 1);
    assert_eq!(cache.bytes(), 8);
    let (cache, val_a) = cache.get("a");
    assert_eq!(val_a, None);
    let (cache, val_b) = cache.get("b");
    assert_eq!(val_b, None);
    let (cache, val_c) = cache.get("c");
    assert_eq!(val_c, None);
    let (_cache, val_d) = cache.get("d");
    assert_eq!(val_d, Some("dddddddd".to_string()));
}

#[test]
fn oversized_text_is_not_kept() {
    let cache = TextCache::new(10, 3);
    let cache = cache.put("a", "toolong");
    assert_eq!(cache.size(), 0);
    assert_eq!(cache.bytes(), 0);
}
