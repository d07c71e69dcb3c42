//! The schema cache: keys, expiry, and what a look into the disk tier comes
//! to.

use crate::decimal::{hexadecimal, write_hexadecimal};
use crate::duration::{Duration, NANOS_PER_MILLI};
use crate::error::ValidationError;
use crate::text::{concat2, push_str, string_of};
use std::collections::hash_map::DefaultHasher;
use std::hash::Hasher;
use std::sync::Arc;
use vstd::prelude::*;
use vstd::std_specs::hash::DefaultHasherAdditionalSpecFns;
use vstd::utf8::encode_utf8;

verus! {

/// How the cache is set up.
#[derive(Clone, Debug, PartialEq, Eq)]
pub struct CacheConfig {
    /// The directory of the disk tier.
    pub directory: String,
    /// How long an entry of the disk tier is good for, in hours.
    pub ttl_hours: u64,
    /// How large the disk tier may grow, in megabytes.
    pub max_size_mb: u64,
    /// How many entries the memory tier holds.
    pub max_memory_entries: u64,
    /// How long an entry of the memory tier is good for, in seconds.
    pub memory_ttl_seconds: u64,
}

impl Default for CacheConfig {
    fn default() -> (c: CacheConfig)
        ensures
            c.directory@.len() == 0,
            c.ttl_hours == 0,
            c.max_size_mb == 0,
            c.max_memory_entries == 0,
            c.memory_ttl_seconds == 0,
    {
        CacheConfig {
            directory: String::new(),
            ttl_hours: 0,
            max_size_mb: 0,
            max_memory_entries: 0,
            memory_ttl_seconds: 0,
        }
    }
}

/// A point in time: milliseconds since the start of 1970, UTC.
#[derive(Clone, Copy, Debug, PartialEq, Eq, Structural)]
pub struct Timestamp {
    pub millis: i64,
}

/// The machine's clock: `std::time::SystemTime::now`, made a moment of UTC
/// by chrono's `From<SystemTime>` for `DateTime<Utc>` and read in whole
/// milliseconds with `DateTime::timestamp_millis`. A clock that stands
/// before 1970 gives a negative number. Nothing is promised of the moment.
#[verifier::external_body]
pub(crate) fn current_time() -> (t: Timestamp) {
    Timestamp {
        millis: chrono::DateTime::<chrono::Utc>::from(std::time::SystemTime::now()).timestamp_millis(),
    }
}

/// Milliseconds in a day.
pub const MILLIS_PER_DAY: i64 = 86_400_000;

/// When an entry made at `now` and good for `ttl_nanos` nanoseconds
/// expires: after the whole milliseconds of that span, or after a day where
/// the span is too long to count in milliseconds; and never later than the
/// last moment that can be told.
pub open spec fn expiry(now: int, ttl_nanos: nat) -> int {
    let ttl_millis = ttl_nanos / (NANOS_PER_MILLI as nat);
    let span = if ttl_millis <= i64::MAX {
        ttl_millis as int
    } else {
        MILLIS_PER_DAY as int
    };
    if now + span <= i64::MAX {
        now + span
    } else {
        i64::MAX as int
    }
}

/// What is known of a cached schema besides its bytes.
#[derive(Clone, Debug, PartialEq, Eq)]
pub struct CacheMetadata {
    pub key: String,
    pub url: String,
    pub created_at: Timestamp,
    pub expires_at: Timestamp,
    pub size_bytes: u64,
    pub etag: Option<String>,
    pub last_modified: Option<String>,
}

impl CacheMetadata {
    /// The metadata of an entry made at `now` and good for `ttl`: no size,
    /// no entity tag and no modification date yet.
    pub fn new_at(key: String, url: String, ttl: Duration, now: Timestamp) -> (m: CacheMetadata)
        ensures
            m.key == key,
            m.url == url,
            m.created_at == now,
            m.expires_at.millis == expiry(now.millis as int, ttl@),
            m.size_bytes == 0,
            m.etag is None,
            m.last_modified is None,
    {
        let ttl_millis: u128 = ttl.as_millis();
        let span: i64 = if ttl_millis <= i64::MAX as u128 {
            ttl_millis as i64
        } else {
            MILLIS_PER_DAY
        };
        let expires: i64 = match now.millis.checked_add(span) {
            Some(t) => t,
            None => i64::MAX,
        };
        CacheMetadata {
            key,
            url,
            created_at: now,
            expires_at: Timestamp { millis: expires },
            size_bytes: 0,
            etag: None,
            last_modified: None,
        }
    }

    /// The metadata of an entry made now and good for `ttl`.
    pub fn new(key: String, url: String, ttl: Duration) -> (m: CacheMetadata)
        ensures
            m.key == key,
            m.url == url,
            m.expires_at.millis == expiry(m.created_at.millis as int, ttl@),
            m.size_bytes == 0,
            m.etag is None,
            m.last_modified is None,
    {
        let now = current_time();
        CacheMetadata::new_at(key, url, ttl, now)
    }

    /// Whether the entry has expired at `now`: `now` lies after the moment
    /// of expiry.
    pub open spec fn expired_at(&self, now: Timestamp) -> bool {
        now.millis > self.expires_at.millis
    }

    /// Whether the entry has expired at `now`.
    pub fn is_expired_at(&self, now: Timestamp) -> (b: bool)
        ensures
            b == self.expired_at(now),
    {
        now.millis > self.expires_at.millis
    }

    /// Whether the entry has expired by the machine's clock.
    pub fn is_expired(&self) -> (b: bool)
        ensures
            exists|now: Timestamp| b == #[trigger] self.expired_at(now),
    {
        let now = current_time();
        let b = self.is_expired_at(now);
        assert(b == self.expired_at(now));
        b
    }

    /// The metadata with the size `size`.
    pub fn with_size(self, size: u64) -> (m: CacheMetadata)
        ensures
            m == (CacheMetadata { size_bytes: size, ..self }),
    {
        let mut m = self;
        m.size_bytes = size;
        m
    }

    /// The metadata with the entity tag `etag`.
    pub fn with_etag(self, etag: Option<String>) -> (m: CacheMetadata)
        ensures
            m == (CacheMetadata { etag, ..self }),
    {
        let mut m = self;
        m.etag = etag;
        m
    }

    /// The metadata with the modification date `last_modified`.
    pub fn with_last_modified(self, last_modified: Option<String>) -> (m: CacheMetadata)
        ensures
            m == (CacheMetadata { last_modified, ..self }),
    {
        let mut m = self;
        m.last_modified = last_modified;
        m
    }
}

/// The bytes of a schema, shared by all who hold them, and what is known of
/// them.
#[derive(Clone, Debug)]
pub struct CachedSchema {
    pub data: Arc<Vec<u8>>,
    pub metadata: CacheMetadata,
}

impl CachedSchema {
    pub fn new(data: Vec<u8>, metadata: CacheMetadata) -> (c: CachedSchema)
        ensures
            c.data@ == data@,
            c.metadata == metadata,
    {
        CachedSchema { data: Arc::new(data), metadata }
    }
}

/// The count and the size of the entries of a tier.
#[derive(Clone, Copy, Debug, PartialEq, Eq, Structural)]
pub struct CacheStats {
    pub entry_count: u64,
    pub total_size: u64,
}

impl Default for CacheStats {
    fn default() -> (s: CacheStats)
        ensures
            s == (CacheStats { entry_count: 0, total_size: 0 }),
    {
        CacheStats { entry_count: 0, total_size: 0 }
    }
}

/// The count and the weight of the entries of the memory tier.
#[derive(Clone, Copy, Debug, PartialEq, Eq, Structural)]
pub struct MemoryCacheStats {
    pub entry_count: u64,
    pub weighted_size: u64,
}

/// The state of both tiers.
#[derive(Clone, Copy, Debug, PartialEq, Eq, Structural)]
pub struct ComprehensiveCacheStats {
    pub memory: MemoryCacheStats,
    pub disk: CacheStats,
}

/// What a sweep of the disk tier did.
#[derive(Clone, Debug, PartialEq, Eq)]
pub struct CleanupStats {
    pub expired_entries: u64,
    pub removed_entries: u64,
    pub freed_bytes: u64,
    pub errors: Vec<String>,
}

impl Default for CleanupStats {
    fn default() -> (s: CleanupStats)
        ensures
            s.expired_entries == 0,
            s.removed_entries == 0,
            s.freed_bytes == 0,
            s.errors@.len() == 0,
    {
        CleanupStats { expired_entries: 0, removed_entries: 0, freed_bytes: 0, errors: Vec::new() }
    }
}

// ---------------------------------------------------------------------------
// Keys
// ---------------------------------------------------------------------------

/// The hash of a schema location: what std's `DefaultHasher` gives for
/// the text's UTF-8 bytes followed by the one byte `0xff` that ends a text.
/// It is the same for the same text in every process of one build of the
/// program; std does not fix the algorithm across its releases.
pub open spec fn location_hash(url: Seq<char>) -> u64 {
    DefaultHasher::spec_finish(seq![encode_utf8(url), seq![0xffu8]])
}

/// The hash of the schema location `url`.
fn hash_location(url: &str) -> (h: u64)
    ensures
        h == location_hash(url@),
{
    let mut hasher = DefaultHasher::new();
    hasher.write(url.as_bytes());
    let mut end: Vec<u8> = Vec::new();
    end.push(0xff);
    hasher.write(end.as_slice());
    assert(hasher@ =~= seq![encode_utf8(url@), seq![0xffu8]]);
    hasher.finish()
}

/// The key of a schema location in the disk tier: `schema_` and the
/// hexadecimal numeral of the location's hash.
pub open spec fn cache_key(url: Seq<char>) -> Seq<char> {
    "schema_"@ + hexadecimal(location_hash(url) as nat)
}

/// Where the metadata of the entry `key` lies below the directory `dir`.
pub open spec fn metadata_location(dir: Seq<char>, key: Seq<char>) -> Seq<char> {
    dir + "/metadata/"@ + key + ".json"@
}

/// One entry of the disk tier's index.
#[derive(Clone, Debug, PartialEq, Eq)]
pub struct IndexEntry {
    pub key: String,
    pub size: u64,
}

/// What the read of an entry's bytes came to.
#[derive(Debug, PartialEq, Eq)]
pub enum BlobRead {
    /// The bytes.
    Found(Vec<u8>),
    /// The store holds no such entry.
    Missing,
    /// The store could not be read; the text says why.
    Failed(String),
}

/// What a look at an entry's metadata decides.
#[derive(Debug, PartialEq, Eq)]
pub enum DiskLookup {
    /// The entry is good: its bytes are to be read.
    Read(CacheMetadata),
    /// There is no entry, or it has expired: whatever is left of it is to be
    /// removed, and the look is a miss.
    Evict,
}

/// `x + y`, or the largest number where that is too large.
pub open spec fn capped_sum(x: nat, y: nat) -> nat {
    if x + y <= u64::MAX {
        x + y
    } else {
        u64::MAX as nat
    }
}

/// The sizes of the entries, added up.
pub open spec fn total_size(entries: Seq<IndexEntry>) -> nat
    decreases entries.len(),
{
    if entries.len() == 0 {
        0
    } else {
        total_size(entries.drop_last()) + entries.last().size as nat
    }
}

/// One entry of the disk tier's index, with its metadata as far as it
/// could be read.
#[derive(Clone, Debug, PartialEq, Eq)]
pub struct SweepEntry {
    pub key: String,
    pub size: u64,
    pub metadata: Option<CacheMetadata>,
}

/// Whether the entry is to be swept at `now`: its metadata can be read and
/// says that it has expired.
pub open spec fn swept(entry: SweepEntry, now: Timestamp) -> bool {
    entry.metadata matches Some(m) && m.expired_at(now)
}

/// The keys of the entries that are to be swept, in the order of the index.
pub open spec fn swept_keys(entries: Seq<SweepEntry>, now: Timestamp) -> Seq<Seq<char>>
    decreases entries.len(),
{
    if entries.len() == 0 {
        Seq::<Seq<char>>::empty()
    } else {
        let before = swept_keys(entries.drop_last(), now);
        if swept(entries.last(), now) {
            before.push(entries.last().key@)
        } else {
            before
        }
    }
}

/// The sizes of the entries that are to be swept, added up.
pub open spec fn swept_size(entries: Seq<SweepEntry>, now: Timestamp) -> nat
    decreases entries.len(),
{
    if entries.len() == 0 {
        0
    } else {
        swept_size(entries.drop_last(), now) + if swept(entries.last(), now) {
            entries.last().size as nat
        } else {
            0nat
        }
    }
}

/// What a sweep is to do.
pub struct CleanupPlan {
    /// The keys of the entries to remove, in the order of the index.
    pub remove: Vec<String>,
    /// What the sweep comes to once those are removed.
    pub stats: CleanupStats,
}

/// The disk tier: a store of schema bytes by key, with a metadata record
/// beside each entry. The store itself is the program's; the tier decides
/// what a look into it comes to.
#[derive(Clone, Debug, PartialEq, Eq)]
pub struct DiskCache {
    cache_dir: String,
    ttl: Duration,
}

impl DiskCache {
    pub fn new(cache_dir: String, ttl: Duration) -> (c: DiskCache)
        ensures
            c.directory() == cache_dir@,
            c.ttl() == ttl,
    {
        DiskCache { cache_dir, ttl }
    }

    /// The directory of the tier.
    pub closed spec fn directory(&self) -> Seq<char> {
        self.cache_dir@
    }

    /// How long an entry is good for.
    pub closed spec fn ttl(&self) -> Duration {
        self.ttl
    }

    /// The directory of the tier.
    pub fn cache_dir(&self) -> (d: &String)
        ensures
            d@ == self.directory(),
    {
        &self.cache_dir
    }

    /// How long an entry is good for.
    pub fn entry_ttl(&self) -> (t: Duration)
        ensures
            t == self.ttl(),
    {
        self.ttl
    }

    /// The key of a schema location. The same location always has the same
    /// key.
    pub fn generate_key(url: &str) -> (key: String)
        ensures
            key@ == cache_key(url@),
    {
        let hash = hash_location(url);
        let digits = string_of(&write_hexadecimal(hash));
        concat2("schema_", digits.as_str())
    }

    /// Where the metadata of the entry `key` lies.
    pub fn metadata_path(&self, key: &str) -> (path: String)
        ensures
            path@ == metadata_location(self.directory(), key@),
    {
        let mut out: Vec<char> = Vec::new();
        push_str(&mut out, self.cache_dir.as_str());
        push_str(&mut out, "/metadata/");
        push_str(&mut out, key);
        push_str(&mut out, ".json");
        assert(out@ =~= metadata_location(self.directory(), key@));
        string_of(&out)
    }

    /// The metadata for the bytes of `url`, `size` bytes long, that enter
    /// the tier at `now`: under the key of `url`, good for as long as
    /// entries of this tier are.
    pub fn entry_metadata(
        &self,
        url: &str,
        size: u64,
        etag: Option<String>,
        last_modified: Option<String>,
        now: Timestamp,
    ) -> (m: CacheMetadata)
        ensures
            m.key@ == cache_key(url@),
            m.url@ == url@,
            m.created_at == now,
            m.expires_at.millis == expiry(now.millis as int, self.ttl()@),
            m.size_bytes == size,
            m.etag == etag,
            m.last_modified == last_modified,
    {
        CacheMetadata::new_at(Self::generate_key(url), url.to_owned(), self.ttl, now).with_size(
            size,
        ).with_etag(etag).with_last_modified(last_modified)
    }

    /// Decides what a look at an entry comes to, given its metadata as read
    /// at `now`: the bytes of an entry are read only if its metadata is there
    /// and has not expired.
    pub fn lookup(&self, metadata: Option<CacheMetadata>, now: Timestamp) -> (r: DiskLookup)
        ensures
            match metadata {
                Some(m) => if m.expired_at(now) {
                    r is Evict
                } else {
                    r == DiskLookup::Read(m)
                },
                None => r is Evict,
            },
    {
        match metadata {
            Some(m) => {
                if m.is_expired_at(now) {
                    DiskLookup::Evict
                } else {
                    DiskLookup::Read(m)
                }
            },
            None => DiskLookup::Evict,
        }
    }

    /// What a look at an entry comes to in the end, given its metadata as
    /// read at `now` and what the read of its bytes gave: the entry, if its
    /// metadata is there and has not expired and its bytes were found; a
    /// miss where either record is missing or the entry has expired; and the
    /// failure `Cache` where the store could not be read.
    pub fn get(&self, metadata: Option<CacheMetadata>, blob: BlobRead, now: Timestamp) -> (r:
        Result<Option<CachedSchema>, ValidationError>)
        ensures
            match metadata {
                Some(m) => if m.expired_at(now) {
                    r matches Ok(None)
                } else {
                    match blob {
                        BlobRead::Found(data) => r matches Ok(Some(c)) && c.data@ == data@
                            && c.metadata == m,
                        BlobRead::Missing => r matches Ok(None),
                        BlobRead::Failed(why) => r matches Err(ValidationError::Cache(text))
                            && text@ == "Failed to read from disk cache: "@ + why@,
                    }
                },
                None => r matches Ok(None),
            },
            r matches Ok(Some(c)) ==> !c.metadata.expired_at(now),
    {
        match self.lookup(metadata, now) {
            DiskLookup::Evict => Ok(None),
            DiskLookup::Read(m) => match blob {
                BlobRead::Found(data) => Ok(Some(CachedSchema::new(data, m))),
                BlobRead::Missing => Ok(None),
                BlobRead::Failed(why) => Err(
                    ValidationError::Cache(
                        concat2("Failed to read from disk cache: ", why.as_str()),
                    ),
                ),
            },
        }
    }

    /// Whether the tier holds a good entry, given the entry's metadata as
    /// read at `now`.
    pub fn contains(&self, metadata: &Option<CacheMetadata>, now: Timestamp) -> (b: bool)
        ensures
            b == (metadata matches Some(m) && !m.expired_at(now)),
    {
        match metadata {
            Some(m) => !m.is_expired_at(now),
            None => false,
        }
    }

    /// The count and the size of the entries of the index; a size too large
    /// to tell is told as the largest number.
    pub fn stats(&self, entries: &Vec<IndexEntry>) -> (s: CacheStats)
        ensures
            s.entry_count == entries@.len(),
            s.total_size == capped_sum(total_size(entries@), 0),
    {
        let mut total: u64 = 0;
        let mut i: usize = 0;
        while i < entries.len()
            invariant
                i <= entries.len(),
                total == capped_sum(total_size(entries@.take(i as int)), 0),
            decreases entries.len() - i,
        {
            assert(entries@.take(i + 1).drop_last() =~= entries@.take(i as int));
            total = total.saturating_add(entries[i].size);
            i = i + 1;
        }
        assert(entries@.take(entries.len() as int) =~= entries@);
        CacheStats { entry_count: entries.len() as u64, total_size: total }
    }

    /// Plans a sweep at `now`, given the index with the metadata of each
    /// entry as far as it could be read: exactly the entries whose metadata
    /// says that they have expired are to be removed.
    pub fn cleanup_expired(&self, entries: &Vec<SweepEntry>, now: Timestamp) -> (plan: CleanupPlan)
        ensures
            plan.remove.deep_view() == swept_keys(entries@, now),
            plan.stats.expired_entries == plan.remove@.len(),
            plan.stats.removed_entries == plan.remove@.len(),
            plan.stats.freed_bytes == capped_sum(swept_size(entries@, now), 0),
            plan.stats.errors@.len() == 0,
    {
        let mut remove: Vec<String> = Vec::new();
        let mut freed: u64 = 0;
        let mut i: usize = 0;
        assert(remove.deep_view() =~= swept_keys(entries@.take(0), now));
        while i < entries.len()
            invariant
                i <= entries.len(),
                remove@.len() <= i,
                remove.deep_view() == swept_keys(entries@.take(i as int), now),
                freed == capped_sum(swept_size(entries@.take(i as int), now), 0),
            decreases entries.len() - i,
        {
            assert(entries@.take(i + 1).drop_last() =~= entries@.take(i as int));
            let expired = match &entries[i].metadata {
                Some(m) => m.is_expired_at(now),
                None => false,
            };
            if expired {
                let ghost before = remove.deep_view();
                remove.push(entries[i].key.clone());
                assert(remove.deep_view() =~= before.push(entries@[i as int].key@));
                freed = freed.saturating_add(entries[i].size);
            }
            i = i + 1;
        }
        assert(entries@.take(entries.len() as int) =~= entries@);
        let count = remove.len() as u64;
        CleanupPlan {
            remove,
            stats: CleanupStats {
                expired_entries: count,
                removed_entries: count,
                freed_bytes: freed,
                errors: Vec::new(),
            },
        }
    }
}

} // verus!
