//! The schema cache.

use std::collections::hash_map::DefaultHasher;
use std::hash::{Hash, Hasher};
use validate_xml::cache::{
    BlobRead, CacheConfig, CacheMetadata, CacheStats, CachedSchema, CleanupStats, DiskCache,
    DiskLookup, IndexEntry, SweepEntry, Timestamp,
};
use validate_xml::duration::Duration;
use validate_xml::error::ValidationError;

fn at(millis: i64) -> Timestamp {
    Timestamp { millis }
}

fn tier() -> DiskCache {
    DiskCache::new("/var/cache/validate-xml".to_string(), Duration::from_secs(3600))
}

fn metadata(expires: i64) -> CacheMetadata {
    CacheMetadata {
        key: "schema_1".to_string(),
        url: "https://example.com/schema.xsd".to_string(),
        created_at: at(0),
        expires_at: at(expires),
        size_bytes: 4,
        etag: None,
        last_modified: None,
    }
}

#[test]
fn test_cache_config_debug() {
    let config = CacheConfig {
        directory: "/tmp/validate-xml-test".to_string(),
        ttl_hours: 1,
        max_size_mb: 10,
        max_memory_entries: 100,
        memory_ttl_seconds: 3600,
    };

    let debug_output = format!("{:?}", config);
    assert!(!debug_output.is_empty());
    assert!(debug_output.contains("ttl_hours"));
}

#[test]
fn test_cache_config_equality() {
    let path = "/tmp/validate-xml-test".to_string();

    let config1 = CacheConfig {
        directory: path.clone(),
        ttl_hours: 1,
        max_size_mb: 10,
        max_memory_entries: 100,
        memory_ttl_seconds: 3600,
    };

    let config2 = CacheConfig {
        directory: path,
        ttl_hours: 1,
        max_size_mb: 10,
        max_memory_entries: 100,
        memory_ttl_seconds: 3600,
    };

    assert_eq!(config1, config2);
    assert_eq!(CacheConfig::default().ttl_hours, 0);
    assert_eq!(CacheConfig::default().directory, "");
}

#[test]
fn test_cache_key_generation() {
    let url1 = "https://example.com/schema1.xsd";
    let url2 = "https://example.com/schema2.xsd";

    let key1 = DiskCache::generate_key(url1);
    let key2 = DiskCache::generate_key(url2);

    assert_ne!(key1, key2);
    assert!(key1.starts_with("schema_"));
    assert!(key2.starts_with("schema_"));

    // Same URL should generate same key
    let key1_again = DiskCache::generate_key(url1);
    assert_eq!(key1, key1_again);
}

#[test]
fn test_a_key_is_a_hexadecimal_numeral() {
    let key = DiskCache::generate_key("https://example.com/schema1.xsd");
    let digits = &key["schema_".len()..];
    assert!(!digits.is_empty() && digits.len() <= 16);
    assert!(digits.chars().all(|c| c.is_ascii_digit() || ('a'..='f').contains(&c)));
    assert!(digits == "0" || !digits.starts_with('0'));
    // The key is made from the location, not a copy of it.
    assert_ne!(digits, "https://example.com/schema1.xsd");
    assert_ne!(DiskCache::generate_key(""), DiskCache::generate_key(" "));
}

#[test]
fn test_metadata_path() {
    assert_eq!(tier().metadata_path("schema_ab"), "/var/cache/validate-xml/metadata/schema_ab.json");
    assert_eq!(tier().cache_dir(), "/var/cache/validate-xml");
    assert_eq!(tier().entry_ttl(), Duration::from_secs(3600));
}

#[test]
fn test_metadata_expiry() {
    let m = CacheMetadata::new_at(
        "k".to_string(),
        "u".to_string(),
        Duration::from_millis(100),
        at(1_000),
    );
    assert_eq!(m.key, "k");
    assert_eq!(m.url, "u");
    assert_eq!(m.created_at, at(1_000));
    assert_eq!(m.expires_at, at(1_100));
    assert_eq!(m.size_bytes, 0);
    assert_eq!(m.etag, None);
    assert_eq!(m.last_modified, None);
    assert!(!m.is_expired_at(at(1_099)));
    assert!(!m.is_expired_at(at(1_100)));
    assert!(m.is_expired_at(at(1_101)));
}

#[test]
fn test_metadata_expiry_at_the_edges() {
    let expires = |ttl: Duration, now: i64| {
        CacheMetadata::new_at("k".to_string(), "u".to_string(), ttl, at(now)).expires_at.millis
    };
    // Parts of a millisecond do not count.
    assert_eq!(expires(Duration::from_nanos(1_999_999), 10), 11);
    assert_eq!(expires(Duration::zero(), -5), -5);
    // A span too long to count in milliseconds stands for a day.
    assert_eq!(expires(Duration::from_nanos(u128::MAX), 0), 86_400_000);
    assert_eq!(expires(Duration::from_millis(i64::MAX as u64), 0), i64::MAX);
    assert_eq!(expires(Duration::from_millis(i64::MAX as u64 + 1), 7), 86_400_007);
    // No moment lies behind the last one.
    assert_eq!(expires(Duration::from_millis(10), i64::MAX - 3), i64::MAX);
}

#[test]
fn test_metadata_made_now_expires_after_its_span() {
    let m = CacheMetadata::new("k".to_string(), "u".to_string(), Duration::from_secs(3600));
    assert_eq!(m.expires_at.millis - m.created_at.millis, 3_600_000);
    // Any day after the ninth of September 2001.
    assert!(m.created_at.millis > 1_000_000_000_000);
    assert!(!m.is_expired());
    let old = metadata(1_000);
    assert!(old.is_expired());
}

#[test]
fn test_metadata_builders() {
    let m = metadata(5)
        .with_size(77)
        .with_etag(Some("\"abc\"".to_string()))
        .with_last_modified(Some("Tue, 15 Nov 1994 12:45:26 GMT".to_string()));
    assert_eq!(m.size_bytes, 77);
    assert_eq!(m.etag, Some("\"abc\"".to_string()));
    assert_eq!(m.last_modified, Some("Tue, 15 Nov 1994 12:45:26 GMT".to_string()));
    assert_eq!(m.key, "schema_1");
    assert_eq!(m.expires_at, at(5));
    assert_eq!(m.with_etag(None).etag, None);
}

#[test]
fn test_disk_cache_basic_operations() {
    let cache = tier();
    let data = b"test schema data".to_vec();

    // Test empty cache
    assert!(cache.get(None, BlobRead::Missing, at(10)).unwrap().is_none());
    assert!(!cache.contains(&None, at(10)));

    // Test an entry that is there
    let m = metadata(3_600_000);
    assert!(cache.contains(&Some(m.clone()), at(10)));
    let retrieved: CachedSchema =
        cache.get(Some(m.clone()), BlobRead::Found(data.clone()), at(10)).unwrap().unwrap();
    assert_eq!(retrieved.data.as_ref(), &data);
    assert_eq!(retrieved.metadata.url, "https://example.com/schema.xsd");
    assert_eq!(retrieved.metadata, m);

    // Either record may be missing
    assert!(cache.get(Some(m), BlobRead::Missing, at(10)).unwrap().is_none());
    assert!(cache.get(None, BlobRead::Found(data), at(10)).unwrap().is_none());
}

#[test]
fn test_disk_cache_expiration() {
    let cache = tier();
    let data = b"test schema data".to_vec();
    let m = metadata(100);

    // Should exist initially
    assert!(cache.contains(&Some(m.clone()), at(50)));
    assert!(cache.contains(&Some(m.clone()), at(100)));

    // Should be expired after its time
    assert!(!cache.contains(&Some(m.clone()), at(150)));
    assert!(cache.get(Some(m.clone()), BlobRead::Found(data), at(150)).unwrap().is_none());
    assert_eq!(cache.lookup(Some(m.clone()), at(150)), DiskLookup::Evict);
    assert_eq!(cache.lookup(Some(m.clone()), at(100)), DiskLookup::Read(m));
    assert_eq!(cache.lookup(None, at(0)), DiskLookup::Evict);
}

#[test]
fn test_a_store_that_cannot_be_read_is_a_cache_error() {
    let failed = tier().get(Some(metadata(100)), BlobRead::Failed("disk on fire".to_string()), at(1));
    match failed {
        Err(ValidationError::Cache(text)) => {
            assert_eq!(text, "Failed to read from disk cache: disk on fire")
        }
        other => panic!("expected a cache error, got {:?}", other.map(|_| ())),
    }
    // An expired entry is a miss whatever the store says.
    assert!(tier()
        .get(Some(metadata(100)), BlobRead::Failed("disk on fire".to_string()), at(101))
        .unwrap()
        .is_none());
}

fn entry(key: &str, size: u64) -> IndexEntry {
    IndexEntry { key: key.to_string(), size }
}

#[test]
fn test_stats_add_the_sizes_up() {
    assert_eq!(tier().stats(&vec![]), CacheStats { entry_count: 0, total_size: 0 });
    assert_eq!(tier().stats(&vec![]), CacheStats::default());
    assert_eq!(
        tier().stats(&vec![entry("a", 10), entry("b", 0), entry("c", 5)]),
        CacheStats { entry_count: 3, total_size: 15 }
    );
    assert_eq!(
        tier().stats(&vec![entry("a", u64::MAX), entry("b", 1)]),
        CacheStats { entry_count: 2, total_size: u64::MAX }
    );
}

#[test]
fn test_cache_cleanup() {
    let sweep = |key: &str, size: u64, metadata: Option<CacheMetadata>| SweepEntry {
        key: key.to_string(),
        size,
        metadata,
    };
    let entries = vec![
        sweep("fresh", 10, Some(metadata(500))),
        sweep("old", 20, Some(metadata(99))),
        sweep("unknown", 40, None),
        sweep("older", 80, Some(metadata(0))),
    ];
    let plan = tier().cleanup_expired(&entries, at(100));
    assert_eq!(plan.remove, vec!["old", "older"]);
    assert_eq!(
        plan.stats,
        CleanupStats { expired_entries: 2, removed_entries: 2, freed_bytes: 100, errors: vec![] }
    );
    let nothing = tier().cleanup_expired(&vec![], at(100));
    assert!(nothing.remove.is_empty());
    assert_eq!(nothing.stats, CleanupStats::default());
    let later = tier().cleanup_expired(&entries, at(501));
    assert_eq!(later.remove, vec!["fresh", "old", "older"]);
    assert_eq!(later.stats.freed_bytes, 110);
}

#[test]
fn test_the_metadata_of_an_entry_that_comes_in() {
    let m = tier().entry_metadata(
        "https://example.com/schema.xsd",
        16,
        Some("\"v1\"".to_string()),
        None,
        at(5_000),
    );
    assert_eq!(m.key, DiskCache::generate_key("https://example.com/schema.xsd"));
    assert_eq!(m.url, "https://example.com/schema.xsd");
    assert_eq!(m.created_at, at(5_000));
    assert_eq!(m.expires_at, at(5_000 + 3_600_000));
    assert_eq!(m.size_bytes, 16);
    assert_eq!(m.etag, Some("\"v1\"".to_string()));
    assert_eq!(m.last_modified, None);
}

#[test]
fn test_key_is_the_hash_that_std_gives_the_text() {
    for url in ["", "a", "https://example.com/schema.xsd", "local:/d/s\u{e9}.xsd"] {
        let mut hasher = DefaultHasher::new();
        url.hash(&mut hasher);
        assert_eq!(DiskCache::generate_key(url), format!("schema_{:x}", hasher.finish()));
    }
}
