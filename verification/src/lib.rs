//! Core abstractions for the FerricLink ecosystem: a verified in-memory cache
//! for language-model call results and a token-bucket rate limiter with an
//! optional retry/backoff layer, together with the small data types and
//! helpers that surround them.

pub mod caches;
pub mod callbacks;
pub mod clock;
pub mod colors;
pub mod embeddings;
pub mod env;
pub mod errors;
pub mod example_selectors;
pub mod globals;
pub mod language_models;
pub mod rate_limiters;
pub mod retrievers;
pub mod runnables;
pub mod serializable;
pub mod structured_query;
pub mod utils;

// Re-exports for convenience
pub use caches::CacheStats;
pub use caches::CachedGenerations;
pub use caches::InMemoryCache;
pub use caches::TtlCache;
pub use env::RuntimeEnvironment;
pub use errors::create_error_message;
pub use errors::ErrorCode;
pub use errors::FerricLinkError;
pub use errors::OutputParserException;
pub use errors::TracerException;
pub use example_selectors::sorted_values;
pub use example_selectors::BaseExampleSelector;
pub use example_selectors::Example;
pub use example_selectors::LengthBasedExampleSelector;
pub use globals::clear_llm_cache;
pub use globals::disable_debug;
pub use globals::disable_verbose;
pub use globals::enable_debug;
pub use globals::enable_verbose;
pub use globals::get_debug;
pub use globals::get_verbose;
pub use globals::globals_summary;
pub use globals::has_llm_cache;
pub use globals::init_globals;
pub use globals::is_debug;
pub use globals::is_verbose;
pub use globals::reset_globals;
pub use globals::set_debug;
pub use globals::set_llm_cache;
pub use globals::set_verbose;
pub use globals::toggle_debug;
pub use globals::toggle_verbose;
pub use globals::GlobalConfig;
pub use rate_limiters::AdvancedRateLimiter;
pub use rate_limiters::InMemoryRateLimiter;
pub use rate_limiters::InMemoryRateLimiterConfig;
pub use rate_limiters::RateLimiterConfig;
pub use serializable::Serializable;

use vstd::prelude::*;

verus! {

/// Version of the FerricLink Core crate
pub const VERSION: &'static str = "0.1.0";

} // verus!
