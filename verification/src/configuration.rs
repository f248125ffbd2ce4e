use vstd::prelude::*;

use crate::registry::Registry;
use crate::text::{concat2, owned};

verus! {

/// Under which key the cache keeps how long (in seconds) an entry stays
/// fresh.
pub const CACHE_TTL_KEY: &'static str = "configuration.cache.ttl";

/// A cached configuration value, of one of three kinds, and when (in
/// seconds since the epoch) it was cached.
#[derive(Debug, Clone)]
pub struct CacheObject {
    pub value_string: Option<String>,
    pub value_int: Option<i64>,
    pub value_bool: Option<bool>,
    pub created_at: u64,
}

/// The time to live that a cached entry holds (0 when it holds no number;
/// a negative number read as unsigned).
pub open spec fn ttl_of(o: CacheObject) -> u64 {
    match o.value_int {
        Some(v) => v as u64,
        None => 0,
    }
}

/// Whether an entry made at `created_at` is still fresh at `now` with a
/// time to live of `ttl`.
pub open spec fn fresh_at(created_at: u64, now: u64, ttl: u64) -> bool {
    created_at >= now - ttl
}

/// Whether an entry made at `created_at` is still fresh at `now`.
pub fn is_fresh(created_at: u64, now: u64, ttl: u64) -> (b: bool)
    requires
        ttl <= now,
    ensures
        b == fresh_at(created_at, now, ttl),
{
    created_at >= now - ttl
}

/// The entry that caches the time to live `ttl` at `now`.
pub fn ttl_entry(ttl: u64, now: u64) -> (o: CacheObject)
    ensures
        ttl_of(o) == ttl,
        o.created_at == now,
        o.value_string is None && o.value_bool is None,
{
    let v: i64 = ttl as i64;
    assert((ttl as i64) as u64 == ttl) by (bit_vector);
    CacheObject { value_string: None, value_int: Some(v), value_bool: None, created_at: now }
}

/// The entry that caches the text `value` at `now`.
pub fn string_entry(value: String, now: u64) -> (o: CacheObject)
    ensures
        o.value_string == Some(value) && o.value_int is None && o.value_bool is None && o.created_at == now,
{
    CacheObject { value_string: Some(value), value_int: None, value_bool: None, created_at: now }
}

/// The entry that caches the number `value` at `now`.
pub fn int_entry(value: i64, now: u64) -> (o: CacheObject)
    ensures
        o.value_int == Some(value) && o.value_string is None && o.value_bool is None && o.created_at == now,
{
    CacheObject { value_string: None, value_int: Some(value), value_bool: None, created_at: now }
}

/// The entry that caches the flag `value` at `now`.
pub fn bool_entry(value: bool, now: u64) -> (o: CacheObject)
    ensures
        o.value_bool == Some(value) && o.value_string is None && o.value_int is None && o.created_at == now,
{
    CacheObject { value_string: None, value_int: None, value_bool: Some(value), created_at: now }
}

/// The cache in front of the configuration sources: one entry per key.
pub struct ConfigurationCache {
    entries: Registry<CacheObject>,
}

impl ConfigurationCache {
    /// The entry cached under `key`, if any.
    pub closed spec fn lookup(&self, key: Seq<char>) -> Option<CacheObject> {
        self.entries.lookup(key)
    }

    /// The entry under `key` that is still fresh at `now` with a time to
    /// live of `ttl`.
    pub open spec fn fresh_lookup(&self, key: Seq<char>, now: u64, ttl: u64) -> Option<CacheObject> {
        match self.lookup(key) {
            Some(o) => if fresh_at(o.created_at, now, ttl) { Some(o) } else { None },
            None => None,
        }
    }

    /// Whether the cached time to live (if any) is at most `now`, so that
    /// its freshness can be computed.
    pub open spec fn ttl_bounded(&self, now: u64) -> bool {
        self.lookup(CACHE_TTL_KEY@) matches Some(o) ==> ttl_of(o) <= now
    }

    /// An empty cache.
    pub fn new() -> (c: ConfigurationCache)
        ensures
            forall|key: Seq<char>| #[trigger] c.lookup(key) is None,
    {
        let mut entries: Registry<CacheObject> = Registry::new();
        entries.clear();
        ConfigurationCache { entries }
    }

    /// The entry cached under `key`.
    pub fn get(&self, key: &str) -> (r: Option<&CacheObject>)
        ensures
            match self.lookup(key@) {
                Some(o) => r == Some(&o),
                None => r is None,
            },
    {
        self.entries.get(key)
    }

    /// Caches `value` under `key`, in place of what was there.
    pub fn write(&mut self, key: &str, value: CacheObject)
        ensures
            final(self).lookup(key@) == Some(value),
            forall|other: Seq<char>| other != key@ ==> #[trigger] final(self).lookup(other) == old(self).lookup(other),
    {
        self.entries.insert(owned(key), value);
    }

    /// Whether the cached time to live can be checked at `now`.
    pub fn ttl_within(&self, now: u64) -> (b: bool)
        ensures
            b == self.ttl_bounded(now),
    {
        match self.entries.get(CACHE_TTL_KEY) {
            Some(o) => {
                let ttl: u64 = match o.value_int {
                    Some(v) => v as u64,
                    None => 0,
                };
                ttl <= now
            },
            None => true,
        }
    }

    /// The cached time to live, when its own entry is still fresh.
    pub fn cached_ttl(&self, now: u64) -> (r: Option<u64>)
        requires
            self.ttl_bounded(now),
        ensures
            match self.lookup(CACHE_TTL_KEY@) {
                Some(o) => if fresh_at(o.created_at, now, ttl_of(o)) { r == Some(ttl_of(o)) } else { r is None },
                None => r is None,
            },
    {
        match self.entries.get(CACHE_TTL_KEY) {
            Some(o) => {
                let ttl: u64 = match o.value_int {
                    Some(v) => v as u64,
                    None => 0,
                };
                if is_fresh(o.created_at, now, ttl) {
                    Some(ttl)
                } else {
                    None
                }
            },
            None => None,
        }
    }

    /// The entry under `key` if it is still fresh at `now`.
    pub fn fresh(&self, key: &str, now: u64, ttl: u64) -> (r: Option<&CacheObject>)
        requires
            ttl <= now,
        ensures
            match self.fresh_lookup(key@, now, ttl) {
                Some(o) => r == Some(&o),
                None => r is None,
            },
    {
        match self.entries.get(key) {
            Some(o) => {
                if is_fresh(o.created_at, now, ttl) {
                    Some(o)
                } else {
                    None
                }
            },
            None => None,
        }
    }
}

/// An entry written at `now` is served until its time to live has passed:
/// at any later time `then` with `then - ttl <= now`.
pub proof fn written_entry_served(cache: ConfigurationCache, key: Seq<char>, value: CacheObject, then: u64, ttl: u64)
    requires
        cache.lookup(key) == Some(value),
        ttl <= then,
        then - ttl <= value.created_at,
    ensures
        cache.fresh_lookup(key, then, ttl) == Some(value),
{
}

/// An entry is not served once its time to live has passed.
pub proof fn expired_entry_not_served(cache: ConfigurationCache, key: Seq<char>, value: CacheObject, then: u64, ttl: u64)
    requires
        cache.lookup(key) == Some(value),
        ttl <= then,
        value.created_at < then - ttl,
    ensures
        cache.fresh_lookup(key, then, ttl) is None,
{
}

/// Caching a time to live at `now` makes it the cached time to live for as
/// long as it lasts.
pub proof fn cached_ttl_round_trip(cache: ConfigurationCache, ttl: u64, now: u64, then: u64)
    requires
        cache.lookup(CACHE_TTL_KEY@) matches Some(o) && ttl_of(o) == ttl && o.created_at == now,
        ttl <= then,
        then - ttl <= now,
    ensures
        cache.ttl_bounded(then),
        cache.lookup(CACHE_TTL_KEY@) matches Some(o) && fresh_at(o.created_at, then, ttl_of(o)) && ttl_of(o) == ttl,
{
}

/// The home directory: `HOME`, else `USERPROFILE`, else empty.
pub fn home_directory(home: Option<String>, userprofile: Option<String>) -> (r: String)
    ensures
        r@ == match home {
            Some(h) => h@,
            None => match userprofile {
                Some(u) => u@,
                None => Seq::empty(),
            },
        },
{
    match home {
        Some(h) => h,
        None => match userprofile {
            Some(u) => u,
            None => String::new(),
        },
    }
}

/// The configuration file: the one named by `CONFIGURATION__PATH`, else
/// `.config/beaver/configuration.yaml` in the home directory.
pub fn configuration_file(configured: Option<String>, home: &str) -> (r: String)
    ensures
        r@ == match configured {
            Some(c) => c@,
            None => home@ + "/.config/beaver/configuration.yaml"@,
        },
{
    match configured {
        Some(c) => c,
        None => concat2(home, "/.config/beaver/configuration.yaml"),
    }
}

} // verus!
