//! Serializable trait for FerricLink objects
//!
//! This trait provides a standardized way to identify FerricLink objects
//! during serialization: every serializable object carries a hierarchical
//! namespace such as `["ferriclink", "caches", "cache_stats"]`. The actual
//! wire formats are produced by the surrounding application.

use vstd::prelude::*;
use vstd::string::StringExecFns;

use crate::caches::CacheStats;
use crate::env::MemoryInfo;
use crate::env::RuntimeEnvironment;
use crate::example_selectors::LengthBasedExampleSelector;
use crate::rate_limiters::InMemoryRateLimiterConfig;
use crate::rate_limiters::RateLimiterConfig;

verus! {

/// Trait for objects that can be serialized and deserialized
///
/// The namespace is used to identify the type of object when
/// deserializing. It should be a hierarchical path like
/// `["ferriclink", "messages", "human"]`.
pub trait Serializable {
    /// Get the namespace for this serializable object
    fn namespace() -> Vec<String>;

    /// Check if this object is serializable
    fn is_serializable() -> (r: bool) {
        true
    }
}

/// Build a three-part namespace from its components.
fn namespace3(a: &str, b: &str, c: &str) -> (r: Vec<String>)
    ensures
        r.deep_view() =~= seq![a@, b@, c@],
{
    let mut v: Vec<String> = Vec::new();
    v.push(String::from_str(a));
    v.push(String::from_str(b));
    v.push(String::from_str(c));
    v
}

impl Serializable for CacheStats {
    /// The namespace of cache statistics.
    fn namespace() -> (r: Vec<String>)
        ensures
            r.deep_view() == seq!["ferriclink"@, "caches"@, "cache_stats"@],
    {
        namespace3("ferriclink", "caches", "cache_stats")
    }
}

impl Serializable for InMemoryRateLimiterConfig {
    /// The namespace of the in-memory rate limiter configuration.
    fn namespace() -> (r: Vec<String>)
        ensures
            r.deep_view() == seq![
                "ferriclink"@,
                "rate_limiters"@,
                "in_memory_rate_limiter_config"@,
            ],
    {
        namespace3("ferriclink", "rate_limiters", "in_memory_rate_limiter_config")
    }
}

impl Serializable for RateLimiterConfig {
    /// The namespace of the retry policy configuration.
    fn namespace() -> (r: Vec<String>)
        ensures
            r.deep_view() == seq!["ferriclink"@, "rate_limiters"@, "rate_limiter_config"@],
    {
        namespace3("ferriclink", "rate_limiters", "rate_limiter_config")
    }
}

impl Serializable for RuntimeEnvironment {
    /// The namespace of the runtime environment record.
    fn namespace() -> (r: Vec<String>)
        ensures
            r.deep_view() == seq!["ferriclink"@, "env"@, "runtime_environment"@],
    {
        namespace3("ferriclink", "env", "runtime_environment")
    }
}

impl Serializable for MemoryInfo {
    /// The namespace of the memory information record.
    fn namespace() -> (r: Vec<String>)
        ensures
            r.deep_view() == seq!["ferriclink"@, "env"@, "memory_info"@],
    {
        namespace3("ferriclink", "env", "memory_info")
    }
}

impl Serializable for LengthBasedExampleSelector {
    /// The namespace of the length-based example selector.
    fn namespace() -> (r: Vec<String>)
        ensures
            r.deep_view() == seq!["ferriclink"@, "example_selectors"@, "length_based"@],
    {
        namespace3("ferriclink", "example_selectors", "length_based")
    }
}

} // verus!
