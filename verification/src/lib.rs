//! A process-lifetime translation cache and the translator built on it.
//!
//! The library resolves a short text phrase to its translation in a fixed
//! target language. A phrase already translated during the process lifetime
//! is served from an in-memory cache; an uncached phrase produces a request
//! for the remote translation provider, whose outcome is interpreted here:
//! a successful response populates the cache, while transport failures,
//! undecodable bodies and empty candidate lists surface as classified errors
//! and leave the cache untouched.

pub mod cache;
pub mod provider;
pub mod translator;
