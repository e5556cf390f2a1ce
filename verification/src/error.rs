//! Errors reported by the library.
use vstd::prelude::*;
use crate::json::push_str;

verus! {

/// What went wrong.
#[derive(Debug)]
pub enum GhidraError {
    /// A `--filter` expression that does not follow the filter grammar.
    FilterParseError(String),
    /// A filter that parses but cannot be applied (an invalid regex, a
    /// comparison between incompatible values).
    InvalidFilter(String),
    /// An unknown output format, or a format that does not fit the data.
    InvalidFormat(String),
    /// A configuration problem.
    ConfigError(String),
    /// No usable Ghidra installation.
    GhidraNotFound,
}

impl GhidraError {
    /// Whether this error comes from a `--filter` expression.
    pub fn is_filter_error(&self) -> (r: bool)
        ensures
            r == (self is FilterParseError || self is InvalidFilter),
    {
        match self {
            GhidraError::FilterParseError(_) | GhidraError::InvalidFilter(_) => true,
            _ => false,
        }
    }
}

/// The message an error reads as.
pub open spec fn error_text(e: GhidraError) -> Seq<char> {
    match e {
        GhidraError::FilterParseError(m) => "Filter parse error: "@ + m@,
        GhidraError::InvalidFilter(m) => "Invalid filter: "@ + m@,
        GhidraError::InvalidFormat(m) => "Invalid output format: "@ + m@,
        GhidraError::ConfigError(m) => "Configuration error: "@ + m@,
        GhidraError::GhidraNotFound => "Ghidra installation not found"@,
    }
}

impl GhidraError {
    /// The message this error reads as (see [`error_text`]).
    pub fn message(&self) -> (r: String)
        ensures
            r@ == error_text(*self),
    {
        let mut r = String::new();
        match self {
            GhidraError::FilterParseError(m) => {
                push_str(&mut r, "Filter parse error: ");
                push_str(&mut r, m.as_str());
            },
            GhidraError::InvalidFilter(m) => {
                push_str(&mut r, "Invalid filter: ");
                push_str(&mut r, m.as_str());
            },
            GhidraError::InvalidFormat(m) => {
                push_str(&mut r, "Invalid output format: ");
                push_str(&mut r, m.as_str());
            },
            GhidraError::ConfigError(m) => {
                push_str(&mut r, "Configuration error: ");
                push_str(&mut r, m.as_str());
            },
            GhidraError::GhidraNotFound => {
                push_str(&mut r, "Ghidra installation not found");
            },
        }
        assert(r@ =~= error_text(*self));
        r
    }
}

} // verus!
