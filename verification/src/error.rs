//! The error types of the library.
//!
//! Configuration problems are fatal and reported eagerly when a selector set
//! is compiled.  During extraction the only possible failure is structural:
//! the match-list header for the requested type cannot be located.  Every
//! other missing or malformed piece of markup is absorbed as an absent field.

use vstd::prelude::*;
use crate::data_structs::MatchBriefType;

verus! {

/// A fatal configuration error, found while building a selector set.
#[derive(Debug)]
pub enum ConfigError {
    /// The named logical role is missing from the configuration pairs.
    MissingKey(String),
    /// The pattern configured for the named logical role failed to compile.
    BadSelector(String),
}

/// The structural extraction error: no match-list container carried the
/// header label of the requested type, or a container lacked its header
/// element altogether.
#[derive(Debug)]
pub struct ExtractionError {
    /// The match type whose header could not be located.
    pub requested: MatchBriefType,
}

} // verus!
