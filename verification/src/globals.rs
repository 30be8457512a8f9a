//! Global values and configuration that apply to all of FerricLink.
//!
//! Instead of a process-wide singleton, the configuration is an explicitly
//! constructed [`GlobalConfig`] value handed to collaborators: the same
//! "set once, read everywhere" usage, with clear construction and teardown
//! and no cross-test leakage. The free functions mirror the configuration
//! API over a caller-supplied configuration value.

use vstd::prelude::*;
use vstd::string::StringExecFns;

use crate::caches::InMemoryCache;

verus! {

/// Global configuration state for FerricLink
#[derive(Debug, Clone)]
pub struct GlobalConfig {
    /// Global verbose setting
    pub verbose: bool,
    /// Global debug setting
    pub debug: bool,
    /// Global LLM cache
    pub llm_cache: Option<InMemoryCache>,
}

impl GlobalConfig {
    /// Well-formedness of the held cache, when one is set.
    pub open spec fn wf(self) -> bool {
        self.llm_cache matches Some(c) ==> c.wf()
    }

    /// Create a new global configuration: not verbose, not debugging, no
    /// LLM cache.
    pub fn new() -> (r: Self)
        ensures
            r.wf(),
            !r.verbose,
            !r.debug,
            r.llm_cache is None,
    {
        GlobalConfig { verbose: false, debug: false, llm_cache: None }
    }

    /// Get the verbose setting
    pub fn get_verbose(&self) -> (r: bool)
        ensures
            r == self.verbose,
    {
        self.verbose
    }

    /// Set the verbose setting
    pub fn set_verbose(&mut self, value: bool)
        ensures
            final(self).verbose == value,
            final(self).debug == old(self).debug,
            final(self).llm_cache == old(self).llm_cache,
    {
        self.verbose = value;
    }

    /// Get the debug setting
    pub fn get_debug(&self) -> (r: bool)
        ensures
            r == self.debug,
    {
        self.debug
    }

    /// Set the debug setting
    pub fn set_debug(&mut self, value: bool)
        ensures
            final(self).debug == value,
            final(self).verbose == old(self).verbose,
            final(self).llm_cache == old(self).llm_cache,
    {
        self.debug = value;
    }

    /// Get the LLM cache, if one is set
    pub fn get_llm_cache_ref(&self) -> (r: &Option<InMemoryCache>)
        ensures
            *r == self.llm_cache,
    {
        &self.llm_cache
    }

    /// Check if an LLM cache is set
    pub fn has_llm_cache(&self) -> (r: bool)
        ensures
            r == (self.llm_cache is Some),
    {
        match &self.llm_cache {
            Some(_) => true,
            None => false,
        }
    }

    /// Set the LLM cache. If `None`, the LLM cache is disabled.
    pub fn set_llm_cache(&mut self, cache: Option<InMemoryCache>)
        requires
            cache matches Some(c) ==> c.wf(),
        ensures
            final(self).wf(),
            final(self).llm_cache == cache,
            final(self).verbose == old(self).verbose,
            final(self).debug == old(self).debug,
    {
        self.llm_cache = cache;
    }

    /// Clear the LLM cache
    pub fn clear_llm_cache(&mut self)
        ensures
            final(self).wf(),
            final(self).llm_cache is None,
            final(self).verbose == old(self).verbose,
            final(self).debug == old(self).debug,
    {
        self.llm_cache = None;
    }

    /// Check if verbose mode is enabled
    pub fn is_verbose(&self) -> (r: bool)
        ensures
            r == self.verbose,
    {
        self.get_verbose()
    }

    /// Check if debug mode is enabled
    pub fn is_debug(&self) -> (r: bool)
        ensures
            r == self.debug,
    {
        self.get_debug()
    }

    /// The summary text of a configuration.
    pub open spec fn spec_summary(self) -> Seq<char> {
        "GlobalConfig { verbose: "@ + spec_bool_str(self.verbose) + ", debug: "@
            + spec_bool_str(self.debug) + ", has_llm_cache: "@
            + spec_bool_str(self.llm_cache is Some) + " }"@
    }

    /// Get a summary of current global settings
    pub fn summary(&self) -> (r: String)
        ensures
            r@ == self.spec_summary(),
    {
        let mut s = String::new();
        s.append("GlobalConfig { verbose: ");
        s.append(bool_str(self.verbose));
        s.append(", debug: ");
        s.append(bool_str(self.debug));
        s.append(", has_llm_cache: ");
        s.append(bool_str(self.has_llm_cache()));
        s.append(" }");
        s
    }
}

/// The text of a boolean value.
pub open spec fn spec_bool_str(b: bool) -> Seq<char> {
    if b {
        "true"@
    } else {
        "false"@
    }
}

/// Render a boolean value as text.
pub fn bool_str(b: bool) -> (r: &'static str)
    ensures
        r@ == spec_bool_str(b),
{
    if b {
        "true"
    } else {
        "false"
    }
}

/// Initialize a global configuration: the starting point that collaborators
/// share. Safe to call any number of times; each call yields a fresh value.
pub fn init_globals() -> (r: GlobalConfig)
    ensures
        r.wf(),
        !r.verbose,
        !r.debug,
        r.llm_cache is None,
{
    GlobalConfig::new()
}

/// Set the global verbose setting
pub fn set_verbose(globals: &mut GlobalConfig, value: bool)
    ensures
        final(globals).verbose == value,
        final(globals).debug == old(globals).debug,
        final(globals).llm_cache == old(globals).llm_cache,
{
    globals.set_verbose(value);
}

/// Get the global verbose setting
pub fn get_verbose(globals: &GlobalConfig) -> (r: bool)
    ensures
        r == globals.verbose,
{
    globals.get_verbose()
}

/// Set the global debug setting
pub fn set_debug(globals: &mut GlobalConfig, value: bool)
    ensures
        final(globals).debug == value,
        final(globals).verbose == old(globals).verbose,
        final(globals).llm_cache == old(globals).llm_cache,
{
    globals.set_debug(value);
}

/// Get the global debug setting
pub fn get_debug(globals: &GlobalConfig) -> (r: bool)
    ensures
        r == globals.debug,
{
    globals.get_debug()
}

/// Set the global LLM cache. If `None`, the LLM cache is disabled.
pub fn set_llm_cache(globals: &mut GlobalConfig, cache: Option<InMemoryCache>)
    requires
        cache matches Some(c) ==> c.wf(),
    ensures
        final(globals).wf(),
        final(globals).llm_cache == cache,
        final(globals).verbose == old(globals).verbose,
        final(globals).debug == old(globals).debug,
{
    globals.set_llm_cache(cache);
}

/// Clear the global LLM cache
pub fn clear_llm_cache(globals: &mut GlobalConfig)
    ensures
        final(globals).wf(),
        final(globals).llm_cache is None,
        final(globals).verbose == old(globals).verbose,
        final(globals).debug == old(globals).debug,
{
    globals.clear_llm_cache();
}

/// Check if verbose mode is enabled globally
pub fn is_verbose(globals: &GlobalConfig) -> (r: bool)
    ensures
        r == globals.verbose,
{
    globals.is_verbose()
}

/// Check if debug mode is enabled globally
pub fn is_debug(globals: &GlobalConfig) -> (r: bool)
    ensures
        r == globals.debug,
{
    globals.is_debug()
}

/// Check if an LLM cache is enabled globally
pub fn has_llm_cache(globals: &GlobalConfig) -> (r: bool)
    ensures
        r == (globals.llm_cache is Some),
{
    globals.has_llm_cache()
}

/// Get a summary of current global settings
pub fn globals_summary(globals: &GlobalConfig) -> (r: String)
    ensures
        r@ == globals.spec_summary(),
{
    globals.summary()
}

/// Reset all global settings to their default values
pub fn reset_globals(globals: &mut GlobalConfig)
    ensures
        final(globals).wf(),
        !final(globals).verbose,
        !final(globals).debug,
        final(globals).llm_cache is None,
{
    globals.set_verbose(false);
    globals.set_debug(false);
    globals.clear_llm_cache();
}

/// Convenience function to enable verbose mode
pub fn enable_verbose(globals: &mut GlobalConfig)
    ensures
        final(globals).verbose,
        final(globals).debug == old(globals).debug,
        final(globals).llm_cache == old(globals).llm_cache,
{
    set_verbose(globals, true);
}

/// Convenience function to disable verbose mode
pub fn disable_verbose(globals: &mut GlobalConfig)
    ensures
        !final(globals).verbose,
        final(globals).debug == old(globals).debug,
        final(globals).llm_cache == old(globals).llm_cache,
{
    set_verbose(globals, false);
}

/// Convenience function to enable debug mode
pub fn enable_debug(globals: &mut GlobalConfig)
    ensures
        final(globals).debug,
        final(globals).verbose == old(globals).verbose,
        final(globals).llm_cache == old(globals).llm_cache,
{
    set_debug(globals, true);
}

/// Convenience function to disable debug mode
pub fn disable_debug(globals: &mut GlobalConfig)
    ensures
        !final(globals).debug,
        final(globals).verbose == old(globals).verbose,
        final(globals).llm_cache == old(globals).llm_cache,
{
    set_debug(globals, false);
}

/// Convenience function to toggle verbose mode
pub fn toggle_verbose(globals: &mut GlobalConfig)
    ensures
        final(globals).verbose == !old(globals).verbose,
        final(globals).debug == old(globals).debug,
        final(globals).llm_cache == old(globals).llm_cache,
{
    let v = get_verbose(globals);
    set_verbose(globals, !v);
}

/// Convenience function to toggle debug mode
pub fn toggle_debug(globals: &mut GlobalConfig)
    ensures
        final(globals).debug == !old(globals).debug,
        final(globals).verbose == old(globals).verbose,
        final(globals).llm_cache == old(globals).llm_cache,
{
    let v = get_debug(globals);
    set_debug(globals, !v);
}

} // verus!
