use vstd::prelude::*;
use crate::cache::{fresh_at, CacheEntry, CacheStore};
use crate::errors::GeoError;
use crate::limiter::{admits, window_after, Admission, RateLimiterStore, DAY_MS};
use crate::location::LocationResult;

verus! {

/// Milliseconds in one hour.
pub const MS_PER_HOUR: u64 = 3_600_000;

/// Default cache time-to-live, in hours.
pub const DEFAULT_TTL_HOURS: u64 = 12;

/// Default per-client quota of admitted requests per sliding 24-hour window.
pub const DEFAULT_MAX_REQUESTS_PER_DAY: u64 = 2;

/// Process-wide configuration, immutable after startup. The upstream
/// credential and endpoint stay with the code that makes the network call.
#[derive(Clone, Copy, PartialEq, Eq, Structural, Debug)]
pub struct Config {
    /// Cache time-to-live, in milliseconds.
    pub cache_ttl_ms: u64,
    /// Maximum admitted requests per client within any 24-hour window.
    pub max_requests_per_day: u64,
}

impl Config {
    /// Build a configuration from a time-to-live in hours and a daily quota.
    pub fn new(ttl_hours: u64, max_requests_per_day: u64) -> (c: Config)
        requires
            ttl_hours * MS_PER_HOUR <= u64::MAX,
        ensures
            c.cache_ttl_ms == ttl_hours * MS_PER_HOUR,
            c.max_requests_per_day == max_requests_per_day,
    {
        Config { cache_ttl_ms: ttl_hours * MS_PER_HOUR, max_requests_per_day }
    }
}

/// What the handler decides on an inbound request before any upstream work.
#[derive(Clone, Copy, PartialEq, Eq, Structural, Debug)]
pub enum Decision {
    /// A fresh cache entry answers the request; no quota is consumed.
    UseCache(LocationResult),
    /// The quota is exhausted; the request is answered with a rate-limit
    /// error and no upstream call is made.
    Deny,
    /// The attempt was admitted and recorded; the caller must make exactly
    /// one upstream call and report its outcome to `complete_request`.
    CallUpstream,
}

/// What the single upstream call came back with.
#[derive(Clone, Copy, PartialEq, Eq, Structural, Debug)]
pub enum UpstreamOutcome {
    /// The provider answered with a location.
    Success(LocationResult),
    /// The provider answered with a non-success HTTP status.
    Upstream(u16),
    /// The call could not be completed.
    Transport,
}

/// The per-process service state: configuration plus the two shared stores.
pub struct GeoService {
    pub config: Config,
    pub cache: CacheStore,
    pub limiter: RateLimiterStore,
}

impl GeoService {
    pub fn new(config: Config) -> (s: GeoService)
        ensures
            s.config == config,
            s.cache.entries() == crate::cache::empty_cache_map(),
            s.limiter.windows() == crate::limiter::empty_window_map(),
    {
        GeoService { config, cache: CacheStore::new(), limiter: RateLimiterStore::new() }
    }

    /// The first half of one inbound request for `key` at time `now`:
    /// answer from the cache when the cached entry is fresh, otherwise ask
    /// the rate limiter for admission. Quota is consumed exactly when the
    /// decision is `CallUpstream` or `Deny` prunes the window; the cache is
    /// never written here.
    pub fn begin_request(&mut self, key: &String, now: u64) -> (r: Decision)
        ensures
            final(self).config == old(self).config,
            final(self).cache.entries() == old(self).cache.entries(),
            match r {
                Decision::UseCache(loc) => {
                    &&& old(self).cache.entries().contains_key(key@)
                    &&& fresh_at(
                        old(self).cache.entries()[key@].recorded_at,
                        old(self).config.cache_ttl_ms,
                        now,
                    )
                    &&& loc == old(self).cache.entries()[key@].location
                    &&& final(self).limiter.windows() == old(self).limiter.windows()
                },
                Decision::Deny => {
                    &&& !(old(self).cache.entries().contains_key(key@) && fresh_at(
                        old(self).cache.entries()[key@].recorded_at,
                        old(self).config.cache_ttl_ms,
                        now,
                    ))
                    &&& !admits(
                        old(self).limiter.window_of(key@),
                        DAY_MS,
                        now,
                        old(self).config.max_requests_per_day,
                    )
                    &&& final(self).limiter.windows() == old(self).limiter.windows().insert(
                        key@,
                        window_after(
                            old(self).limiter.window_of(key@),
                            DAY_MS,
                            now,
                            old(self).config.max_requests_per_day,
                        ),
                    )
                },
                Decision::CallUpstream => {
                    &&& !(old(self).cache.entries().contains_key(key@) && fresh_at(
                        old(self).cache.entries()[key@].recorded_at,
                        old(self).config.cache_ttl_ms,
                        now,
                    ))
                    &&& admits(
                        old(self).limiter.window_of(key@),
                        DAY_MS,
                        now,
                        old(self).config.max_requests_per_day,
                    )
                    &&& final(self).limiter.windows() == old(self).limiter.windows().insert(
                        key@,
                        window_after(
                            old(self).limiter.window_of(key@),
                            DAY_MS,
                            now,
                            old(self).config.max_requests_per_day,
                        ),
                    )
                },
            },
    {
        match self.cache.get_fresh(key, self.config.cache_ttl_ms, now) {
            Some(loc) => Decision::UseCache(loc),
            None => {
                match self.limiter.try_admit(key, now, DAY_MS, self.config.max_requests_per_day) {
                    Admission::Admitted => Decision::CallUpstream,
                    Admission::Denied => Decision::Deny,
                }
            },
        }
    }

    /// The second half of an admitted request: fold the upstream outcome
    /// into a response. Only a success writes the cache (keyed by `key`,
    /// recorded at `now`); a failure changes nothing. The rate limiter is
    /// never touched here: the quota consumed at admission stays consumed
    /// whatever the outcome.
    pub fn complete_request(&mut self, key: &String, now: u64, outcome: UpstreamOutcome) -> (r:
        Result<LocationResult, GeoError>)
        ensures
            final(self).config == old(self).config,
            final(self).limiter.windows() == old(self).limiter.windows(),
            match outcome {
                UpstreamOutcome::Success(loc) => {
                    &&& r == Result::<LocationResult, GeoError>::Ok(loc)
                    &&& final(self).cache.entries() == old(self).cache.entries().insert(
                        key@,
                        (CacheEntry { location: loc, recorded_at: now }),
                    )
                },
                UpstreamOutcome::Upstream(status) => {
                    &&& r == Result::<LocationResult, GeoError>::Err(GeoError::Upstream(status))
                    &&& final(self).cache.entries() == old(self).cache.entries()
                },
                UpstreamOutcome::Transport => {
                    &&& r == Result::<LocationResult, GeoError>::Err(GeoError::Transport)
                    &&& final(self).cache.entries() == old(self).cache.entries()
                },
            },
    {
        match outcome {
            UpstreamOutcome::Success(loc) => {
                self.cache.put(key, CacheEntry { location: loc, recorded_at: now });
                Ok(loc)
            },
            UpstreamOutcome::Upstream(status) => Err(GeoError::Upstream(status)),
            UpstreamOutcome::Transport => Err(GeoError::Transport),
        }
    }
}

} // verus!
