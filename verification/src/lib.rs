//! Core of a small package-environment manager: content-addressed caching of
//! downloaded archives with hash verification, bounded-concurrency fetch
//! scheduling, environment materialization, and reversible shell activation.

pub mod activate;
pub mod cache;
pub mod extract;
pub mod fetch;
pub mod hexcode;
pub mod manifest;
pub mod pool;
pub mod record;
pub mod status;
