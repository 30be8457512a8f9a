//! Color codes for terminal output

use vstd::prelude::*;

verus! {

/// Reset all terminal attributes
pub const RESET: &'static str = "\x1b[0m";

/// Bold text
pub const BOLD: &'static str = "\x1b[1m";

/// Blue text
pub const BLUE: &'static str = "\x1b[36;1m";

/// Yellow text
pub const YELLOW: &'static str = "\x1b[33;1m";

/// Pink text
pub const PINK: &'static str = "\x1b[38;5;200m";

/// Green text
pub const GREEN: &'static str = "\x1b[32;1m";

/// Red text
pub const RED: &'static str = "\x1b[31;1m";

} // verus!
