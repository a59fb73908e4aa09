//! Command-line option values.

pub mod parser;
