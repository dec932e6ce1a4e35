//! The failures that the service tells apart.

use vstd::prelude::*;

verus! {

/// A failure of the store, by kind.
#[derive(Clone, Copy, Debug, PartialEq, Eq, Structural)]
pub enum StorageError {
    /// No row matched a lookup.
    NotFound,
    /// The primary key of an inserted row was already taken.
    Conflict,
    /// Any other failure: connectivity, a malformed query, another constraint.
    Other,
}

/// A failure of the combinatorics utility.
#[derive(Clone, Copy, Debug, PartialEq, Eq, Structural)]
pub enum ComputeError {
    /// The word is empty, so there is nothing to count.
    InvalidInput,
    /// The count does not fit a signed 32-bit integer.
    Overflow,
}

/// A setting that was missing at start-up.
#[derive(Clone, Copy, Debug, PartialEq, Eq, Structural)]
pub enum ConfigError {
    MissingDatabaseUrl,
    MissingLogLevel,
}

} // verus!
