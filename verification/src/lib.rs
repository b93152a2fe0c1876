//! The policy core of a geolocation proxy: a TTL response cache and a
//! sliding-window rate limiter, both keyed by client address and backed by
//! dashmap's concurrent map, plus the request-handling protocol that ties
//! them to a single upstream call per admitted request.

pub mod cache;
pub mod errors;
pub mod laws;
pub mod limiter;
pub mod location;
pub mod service;
pub mod shared_map;
