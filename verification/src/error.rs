//! Errors of configuration, theme and terminal handling.

use vstd::prelude::*;

verus! {

/// What can go wrong while loading settings or running the calendar.
#[derive(Debug)]
pub enum Error {
    /// Standard output is not a terminal.
    NotATty,
    /// The terminal failed; holds the message of the I/O error.
    Terminal(String),
    /// A file could not be read.
    ReadConfig { path: String, source: String },
    /// A file is not valid TOML for its schema.
    TomlParse { path: String, source: String },
    /// A theme color is malformed.
    InvalidColor { value: String, reason: String },
    /// The grid of the month of today cannot be laid out (only at the ends of
    /// the supported date range).
    DateOutOfRange,
}

} // verus!
