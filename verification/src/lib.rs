//! Extraction of esports match listings and livestream promotions from the
//! main page of a tournament-coverage site.
//!
//! The library parses a raw HTML document once, then walks it with a set of
//! compiled CSS selectors: match-list containers are classified by their
//! header text against a requested lifecycle state (future / live /
//! completed), member entries are filtered by the presence of a
//! live-indicator marker, and each surviving entry is turned into a typed
//! record.  Missing or malformed sub-elements never abort a call: the
//! affected field is simply left absent.

pub mod data_structs;
pub mod engine;
pub mod error;
pub mod scrapers;
pub mod text;

mod dom;
