use geo_proxy::cache::{CacheEntry, CacheStore};
use geo_proxy::limiter::{Admission, RateLimiterStore, DAY_MS};
use geo_proxy::location::LocationResult;

fn loc(lat: f64, lon: f64) -> LocationResult {
    LocationResult { lat_bits: lat.to_bits(), lon_bits: lon.to_bits() }
}

#[test]
fn cache_put_then_get_returns_entry() {
    let mut cache = CacheStore::new();
    let key = String::from("198.51.100.1");
    assert!(cache.get(&key).is_none());
    let entry = CacheEntry { location: loc(1.0, 2.0), recorded_at: 5 };
    cache.put(&key, entry);
    assert_eq!(cache.get(&key), Some(entry));
}

#[test]
fn cache_overwrite_replaces_entry() {
    let mut cache = CacheStore::new();
    let key = String::from("198.51.100.1");
    cache.put(&key, CacheEntry { location: loc(1.0, 2.0), recorded_at: 5 });
    let newer = CacheEntry { location: loc(3.5, -4.25), recorded_at: 9 };
    cache.put(&key, newer);
    assert_eq!(cache.get(&key), Some(newer));
}

#[test]
fn cache_fresh_lookup_hits_strictly_before_expiry() {
    let mut cache = CacheStore::new();
    let key = String::from("198.51.100.2");
    cache.put(&key, CacheEntry { location: loc(1.0, 2.0), recorded_at: 100 });
    // fresh while recorded_at + ttl > now
    assert_eq!(cache.get_fresh(&key, 1000, 100), Some(loc(1.0, 2.0)));
    assert_eq!(cache.get_fresh(&key, 1000, 1099), Some(loc(1.0, 2.0)));
    // at exactly recorded_at + ttl the entry is stale
    assert_eq!(cache.get_fresh(&key, 1000, 1100), None);
    assert_eq!(cache.get_fresh(&key, 1000, 5000), None);
}

#[test]
fn cache_fresh_lookup_misses_absent_key() {
    let cache = CacheStore::new();
    assert_eq!(cache.get_fresh(&String::from("203.0.113.9"), 1000, 0), None);
}

#[test]
fn cache_keys_are_independent() {
    let mut cache = CacheStore::new();
    let a = String::from("198.51.100.1");
    let b = String::from("198.51.100.2");
    cache.put(&a, CacheEntry { location: loc(1.0, 2.0), recorded_at: 0 });
    assert!(cache.get(&b).is_none());
    assert_eq!(cache.get_fresh(&a, 10, 5), Some(loc(1.0, 2.0)));
}

#[test]
fn limiter_admits_up_to_quota_then_denies() {
    let mut limiter = RateLimiterStore::new();
    let key = String::from("192.0.2.1");
    assert_eq!(limiter.try_admit(&key, 0, DAY_MS, 2), Admission::Admitted);
    assert_eq!(limiter.try_admit(&key, 1, DAY_MS, 2), Admission::Admitted);
    assert_eq!(limiter.try_admit(&key, 2, DAY_MS, 2), Admission::Denied);
    assert_eq!(limiter.try_admit(&key, 3, DAY_MS, 2), Admission::Denied);
}

#[test]
fn limiter_zero_quota_denies_everything() {
    let mut limiter = RateLimiterStore::new();
    let key = String::from("192.0.2.2");
    assert_eq!(limiter.try_admit(&key, 0, DAY_MS, 0), Admission::Denied);
    assert_eq!(limiter.try_admit(&key, 50, DAY_MS, 0), Admission::Denied);
}

#[test]
fn limiter_keys_do_not_share_quota() {
    let mut limiter = RateLimiterStore::new();
    let a = String::from("192.0.2.1");
    let b = String::from("192.0.2.2");
    assert_eq!(limiter.try_admit(&a, 0, DAY_MS, 1), Admission::Admitted);
    assert_eq!(limiter.try_admit(&b, 0, DAY_MS, 1), Admission::Admitted);
    assert_eq!(limiter.try_admit(&a, 1, DAY_MS, 1), Admission::Denied);
}

#[test]
fn limiter_aging_frees_exactly_one_slot() {
    let mut limiter = RateLimiterStore::new();
    let key = String::from("192.0.2.3");
    assert_eq!(limiter.try_admit(&key, 0, DAY_MS, 2), Admission::Admitted);
    assert_eq!(limiter.try_admit(&key, 1, DAY_MS, 2), Admission::Admitted);
    // one instant before the earliest attempt ages out, still full
    assert_eq!(limiter.try_admit(&key, DAY_MS - 1, DAY_MS, 2), Admission::Denied);
    // at t = DAY_MS the attempt from t = 0 has aged out: one slot frees
    assert_eq!(limiter.try_admit(&key, DAY_MS, DAY_MS, 2), Admission::Admitted);
    // the freed slot is taken again; the window is full once more
    assert_eq!(limiter.try_admit(&key, DAY_MS, DAY_MS, 2), Admission::Denied);
}

#[test]
fn limiter_burst_admits_exactly_remaining_slots() {
    // quota 3 with one live attempt on record: of five attempts in a burst,
    // exactly the two remaining slots are granted
    let mut limiter = RateLimiterStore::new();
    let key = String::from("192.0.2.4");
    assert_eq!(limiter.try_admit(&key, 0, DAY_MS, 3), Admission::Admitted);
    let mut admitted = 0;
    let mut denied = 0;
    for _ in 0..5 {
        match limiter.try_admit(&key, 10, DAY_MS, 3) {
            Admission::Admitted => admitted += 1,
            Admission::Denied => denied += 1,
        }
    }
    assert_eq!(admitted, 2);
    assert_eq!(denied, 3);
}
