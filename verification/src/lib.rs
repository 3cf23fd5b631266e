//! A geocode cache-aside resolver: turns a free-text city name into a
//! coordinate pair while avoiding redundant calls to an external geocoding
//! provider, using a durable key-value store as a permanent, append-only
//! cache that is populated on miss.
//!
//! The request logic is a small state machine ([`resolver`]); a verified
//! in-memory store ([`store`]) realizes the store contract that the durable
//! backend is expected to meet. Basic-authentication checking for the stats
//! page lives in [`auth`], and the forecast presentation model in
//! [`display`].

pub mod auth;
pub mod coordinate;
pub mod display;
pub mod resolver;
pub mod store;
