//! Where catalogue answers are cached, and for how long they stay fresh.
//!
//! Reading and writing the cache files is left to the caller.

use vstd::prelude::*;
use crate::path::{join, join_of};

verus! {

/// The catalogue cache: a directory and a lifetime.
#[derive(Debug, Clone)]
pub struct AudibleCache {
    /// Directory of the cache files.
    pub cache_dir: String,
    /// Lifetime of an entry in seconds; zero turns caching off.
    pub ttl_secs: u64,
}

/// The cache directory under the user's cache directory `base`.
pub open spec fn cache_dir_of(base: Seq<char>) -> Seq<char> {
    join_of(join_of(base, "audiobook-forge"@), "audible"@)
}

/// `hours` in seconds, stopping at the largest 64-bit value.
pub open spec fn hours_to_secs(hours: u64) -> u64 {
    if hours > u64::MAX / 3600 {
        u64::MAX
    } else {
        (hours * 3600) as u64
    }
}

impl AudibleCache {
    /// A cache under `base` whose entries stay fresh for seven days.
    pub fn new(base: &str) -> (r: AudibleCache)
        ensures
            r.cache_dir@ == cache_dir_of(base@),
            r.ttl_secs == 604800,
    {
        Self::with_ttl_hours(base, 168)
    }

    /// A cache under `base` whose entries stay fresh for `hours` hours; zero
    /// turns caching off.
    pub fn with_ttl_hours(base: &str, hours: u64) -> (r: AudibleCache)
        ensures
            r.cache_dir@ == cache_dir_of(base@),
            r.ttl_secs == hours_to_secs(hours),
    {
        let d = join(base, "audiobook-forge");
        let dir = join(d.as_str(), "audible");
        let ttl = if hours > u64::MAX / 3600 {
            u64::MAX
        } else {
            hours * 3600
        };
        AudibleCache { cache_dir: dir, ttl_secs: ttl }
    }

    /// The cache directory.
    pub fn cache_dir(&self) -> (r: &str)
        ensures
            r@ == self.cache_dir@,
    {
        self.cache_dir.as_str()
    }

    /// The cache file of `asin`: "<asin>.json" in the cache directory.
    pub fn cache_path(&self, asin: &str) -> (r: String)
        ensures
            r@ == join_of(self.cache_dir@, asin@ + ".json"@),
    {
        let mut name = asin.to_owned();
        name.append(".json");
        join(self.cache_dir.as_str(), name.as_str())
    }

    /// Whether caching is on.
    pub fn is_enabled(&self) -> (r: bool)
        ensures
            r == (self.ttl_secs > 0),
    {
        self.ttl_secs > 0
    }

    /// Whether an entry `age_secs` old has outlived its lifetime.
    pub fn is_expired(&self, age_secs: u64) -> (r: bool)
        ensures
            r == (age_secs > self.ttl_secs),
    {
        age_secs > self.ttl_secs
    }
}

/// Number of cache files and their total size.
#[derive(Debug, Clone, Copy, PartialEq, Eq, Structural)]
pub struct CacheStats {
    pub file_count: usize,
    pub total_size_bytes: u64,
}

} // verus!
