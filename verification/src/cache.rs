use vstd::prelude::*;
use crate::location::LocationResult;

verus! {

/// A location cached for one client, with the time it was recorded
/// (milliseconds since the epoch).
#[derive(Clone, Copy, PartialEq, Eq, Structural, Debug)]
pub struct CacheEntry {
    pub location: LocationResult,
    pub recorded_at: u64,
}

/// An entry recorded at `t0` is fresh at `now` under time-to-live `ttl`
/// while `t0 + ttl > now` (all in milliseconds).
pub open spec fn fresh_at(t0: u64, ttl: u64, now: u64) -> bool {
    t0 + ttl > now
}

/// The empty cache mapping.
pub open spec fn empty_cache_map() -> Map<Seq<char>, CacheEntry> {
    Map::empty()
}

/// Abstract contents of the concurrent cache map: client key to entry.
pub uninterp spec fn cache_map_entries(m: dashmap::DashMap<String, CacheEntry>) -> Map<Seq<char>, CacheEntry>;

/// Relies on dashmap::DashMap::new: a freshly created map is empty.
#[verifier::external_body]
fn cache_map_new() -> (m: dashmap::DashMap<String, CacheEntry>)
    ensures
        cache_map_entries(m) == empty_cache_map(),
{
    dashmap::DashMap::new()
}

/// Relies on dashmap::DashMap::get: returns the value stored under `key`,
/// if any.
#[verifier::external_body]
fn cache_map_get(m: &dashmap::DashMap<String, CacheEntry>, key: &String) -> (r: Option<CacheEntry>)
    ensures
        match r {
            Some(e) => cache_map_entries(*m).contains_key(key@)
                && e == cache_map_entries(*m)[key@],
            None => !cache_map_entries(*m).contains_key(key@),
        },
{
    m.get(key).map(|e| *e.value())
}

/// Relies on dashmap::DashMap::insert: stores `entry` under `key`, replacing
/// whatever was there.
#[verifier::external_body]
fn cache_map_insert(m: &mut dashmap::DashMap<String, CacheEntry>, key: &String, entry: CacheEntry)
    ensures
        cache_map_entries(*final(m)) == cache_map_entries(*old(m)).insert(key@, entry),
{
    m.insert(key.clone(), entry);
}

/// The response cache: at most one entry per client key, written
/// unconditionally on a successful upstream call; readers decide freshness
/// against a time-to-live. Stale entries are never evicted, only overwritten.
pub struct CacheStore {
    map: dashmap::DashMap<String, CacheEntry>,
}

impl CacheStore {
    /// Abstract view: the mapping from client key to its cached entry.
    pub closed spec fn entries(&self) -> Map<Seq<char>, CacheEntry> {
        cache_map_entries(self.map)
    }

    pub fn new() -> (s: Self)
        ensures
            s.entries() == empty_cache_map(),
    {
        CacheStore { map: cache_map_new() }
    }

    /// Total lookup: the entry stored for `key`, if any. No freshness check;
    /// that is the caller's to make.
    pub fn get(&self, key: &String) -> (r: Option<CacheEntry>)
        ensures
            match r {
                Some(e) => self.entries().contains_key(key@) && e == self.entries()[key@],
                None => !self.entries().contains_key(key@),
            },
    {
        cache_map_get(&self.map, key)
    }

    /// Total insert-or-replace for `key`.
    pub fn put(&mut self, key: &String, entry: CacheEntry)
        ensures
            final(self).entries() == old(self).entries().insert(key@, entry),
    {
        cache_map_insert(&mut self.map, key, entry)
    }

    /// Lookup under the freshness rule: the location recorded at `t0` is
    /// returned exactly when `t0 + ttl > now`; a stale or absent entry is a
    /// miss.
    pub fn get_fresh(&self, key: &String, ttl: u64, now: u64) -> (r: Option<LocationResult>)
        ensures
            match r {
                Some(loc) => self.entries().contains_key(key@)
                    && fresh_at(self.entries()[key@].recorded_at, ttl, now)
                    && loc == self.entries()[key@].location,
                None => !self.entries().contains_key(key@)
                    || !fresh_at(self.entries()[key@].recorded_at, ttl, now),
            },
    {
        match self.get(key) {
            Some(e) => {
                if now < e.recorded_at || now - e.recorded_at < ttl {
                    Some(e.location)
                } else {
                    None
                }
            }
            None => None,
        }
    }
}

} // verus!
