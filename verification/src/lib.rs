//! Query planning, filtering and output formatting for a command-line
//! front end to the Ghidra reverse-engineering suite.
pub mod text;
pub mod json;
pub mod error;
pub mod filter;
pub mod cli;
pub mod query;
pub mod format;
pub mod run;
pub mod ghidra;
pub mod diff;
pub mod bridge;
pub mod session;
pub mod maintenance;
