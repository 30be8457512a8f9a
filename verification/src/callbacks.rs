//! Callback handlers for FerricLink Core.
//!
//! The console callback handler prints run information to standard output.
//! Its configuration — verbosity and an optional output colour — is the
//! verified part; the printing itself belongs to the surrounding
//! application.

use std::sync::Arc;

use vstd::prelude::*;
use vstd::string::StringExecFns;

verus! {

/// A console callback handler that prints run information to stdout
#[derive(Debug)]
pub struct ConsoleCallbackHandler {
    /// Whether to print detailed information
    pub verbose: bool,
    /// The color to use for text output
    pub color: Option<String>,
}

impl ConsoleCallbackHandler {
    /// Create a new console callback handler
    pub fn new() -> (r: Self)
        ensures
            !r.verbose,
            r.color is None,
    {
        ConsoleCallbackHandler { verbose: false, color: None }
    }

    /// Create a new console callback handler with verbosity setting
    pub fn new_with_verbose(verbose: bool) -> (r: Self)
        ensures
            r.verbose == verbose,
            r.color is None,
    {
        ConsoleCallbackHandler { verbose, color: None }
    }

    /// Create a new console callback handler with color
    pub fn new_with_color(color: &str) -> (r: Self)
        ensures
            !r.verbose,
            r.color matches Some(c) && c@ == color@,
    {
        ConsoleCallbackHandler { verbose: false, color: Some(color.to_owned()) }
    }

    /// Create a new console callback handler with verbosity and color
    pub fn new_with_verbose_and_color(verbose: bool, color: &str) -> (r: Self)
        ensures
            r.verbose == verbose,
            r.color matches Some(c) && c@ == color@,
    {
        ConsoleCallbackHandler { verbose, color: Some(color.to_owned()) }
    }
}

impl Default for ConsoleCallbackHandler {
    /// Same as [`ConsoleCallbackHandler::new`].
    fn default() -> (r: Self)
        ensures
            !r.verbose,
            r.color is None,
    {
        Self::new()
    }
}

/// Helper function to create a console callback handler
pub fn console_callback_handler() -> (r: Arc<ConsoleCallbackHandler>)
    ensures
        !r.verbose,
        r.color is None,
{
    Arc::new(ConsoleCallbackHandler::new())
}

/// Helper function to create a verbose console callback handler
pub fn verbose_console_callback_handler() -> (r: Arc<ConsoleCallbackHandler>)
    ensures
        r.verbose,
        r.color is None,
{
    Arc::new(ConsoleCallbackHandler::new_with_verbose(true))
}

/// Helper function to create a colored console callback handler
pub fn colored_console_callback_handler(color: &str) -> (r: Arc<ConsoleCallbackHandler>)
    ensures
        !r.verbose,
        r.color matches Some(c) && c@ == color@,
{
    Arc::new(ConsoleCallbackHandler::new_with_color(color))
}

/// Helper function to create a verbose colored console callback handler
pub fn verbose_colored_console_callback_handler(verbose: bool, color: &str)
    -> (r: Arc<ConsoleCallbackHandler>)
    ensures
        r.verbose == verbose,
        r.color matches Some(c) && c@ == color@,
{
    Arc::new(ConsoleCallbackHandler::new_with_verbose_and_color(verbose, color))
}

} // verus!
