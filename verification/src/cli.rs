//! Command-line options.

use vstd::prelude::*;

verus! {

/// Paths given on the command line.
#[derive(Clone, Debug, PartialEq, Eq)]
pub struct Cli {
    /// Path to config.toml (default: XDG …/calendar-tui/config.toml).
    pub config: Option<String>,
    /// Path to theme.toml (default: resolved from `[calendar].theme`).
    pub theme: Option<String>,
}

} // verus!
