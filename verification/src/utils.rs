//! Utilities over extracted streams.

pub mod filter;
