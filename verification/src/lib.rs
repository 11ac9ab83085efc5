//! A verified core for a command-line dictionary tool.
//!
//! The library holds everything that can be checked: the column-aware
//! line breaker, the definition renderer, the configuration resolver,
//! and the small decision functions that drive a lookup. The thin shell
//! around it (argument parsing, HTTP, the on-disk cache, the spell
//! engine) lives outside the library and only hands plain values in
//! and out.

use vstd::prelude::*;

pub mod actions;
pub mod config;
pub mod dict_api;
pub mod formatter;
pub mod line_break;
pub mod spell;
pub mod utils;

verus! {

/// The command-line surface: exactly one of `define` or `suggest`
/// carries the query, where a lone "-" asks that the query be read
/// from standard input.
pub struct WordArgs {
    /// Do not print the rendered output.
    pub no_print: bool,
    /// Render everything as one line: no wrapping, no indentation, no
    /// blank separators.
    pub no_formatting: bool,
    /// Do not emit style escape sequences.
    pub no_style: bool,
    /// Emit style escape sequences even into a pipe.
    pub force_style: bool,
    /// Print spelling suggestions for the query.
    pub suggest: Option<String>,
    /// Print the query's definition.
    pub define: Option<String>,
    /// Keep rendered text within this many columns.
    pub columns: Option<usize>,
    /// Read the configuration from this path.
    pub config: Option<String>,
}

/// The kinds of failure the tool reports. Each variant carries the
/// human-readable message that is shown when the run aborts.
#[derive(Debug)]
pub enum WordsError {
    /// No query was supplied, or standard input was unexpectedly empty.
    Input(String),
    /// The dictionary has no entry for the query.
    NotFound(String),
    /// The network request itself failed.
    Transport(String),
    /// A response or cache file could not be decoded.
    Decode(String),
    /// A needed environment variable is unset or empty.
    Environment(String),
    /// The cache directory or a cache file could not be used.
    Filesystem(String),
}

impl WordsError {
    /// The message carried by the error, whatever its kind.
    pub open spec fn message_spec(&self) -> Seq<char> {
        match self {
            WordsError::Input(m) => m@,
            WordsError::NotFound(m) => m@,
            WordsError::Transport(m) => m@,
            WordsError::Decode(m) => m@,
            WordsError::Environment(m) => m@,
            WordsError::Filesystem(m) => m@,
        }
    }

    /// Report the error as one human-readable line.
    pub fn message(&self) -> (m: String)
        ensures
            m@ == self.message_spec(),
    {
        match self {
            WordsError::Input(m) => m.clone(),
            WordsError::NotFound(m) => m.clone(),
            WordsError::Transport(m) => m.clone(),
            WordsError::Decode(m) => m.clone(),
            WordsError::Environment(m) => m.clone(),
            WordsError::Filesystem(m) => m.clone(),
        }
    }
}

} // verus!
