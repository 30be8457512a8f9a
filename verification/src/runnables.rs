//! Core runnable abstractions for FerricLink.
//!
//! Most runnables dispatch through asynchronous traits and live with the
//! surrounding application; the verified part here is the console callback
//! handler configuration used for debugging runnable executions.

use vstd::prelude::*;
use vstd::string::StringExecFns;

verus! {

/// A simple console callback handler for debugging
#[derive(Debug)]
pub struct ConsoleCallbackHandler {
    /// The color to use for text output
    pub color: Option<String>,
}

impl ConsoleCallbackHandler {
    /// Create a new console callback handler
    pub fn new() -> (r: Self)
        ensures
            r.color is None,
    {
        ConsoleCallbackHandler { color: None }
    }

    /// Create a new console callback handler with color
    pub fn new_with_color(color: &str) -> (r: Self)
        ensures
            r.color matches Some(c) && c@ == color@,
    {
        ConsoleCallbackHandler { color: Some(color.to_owned()) }
    }
}

impl Default for ConsoleCallbackHandler {
    /// Same as [`ConsoleCallbackHandler::new`].
    fn default() -> (r: Self)
        ensures
            r.color is None,
    {
        Self::new()
    }
}

} // verus!
