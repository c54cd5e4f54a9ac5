//! Case-insensitive and case-normalized access to environment-style
//! key/value tables.
//!
//! The library works on a snapshot of the environment: an ordered sequence
//! of `(key, value)` string pairs. Keys can be compared ignoring case,
//! presented lowercased, or presented UPPERCASED, under either an
//! ASCII-only or a full-Unicode folding policy chosen by the caller.

pub mod casefold;
pub mod lookup;
pub mod vars;
pub mod laws;
