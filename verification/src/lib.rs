//! Reconciles the configuration held in a key-value store against a
//! desired-state document.
//!
//! Both sources are reduced to one shape, a snapshot of `(key, value)` string
//! pairs, and compared as sets: what the store holds and the document does not
//! is the difference that gets reported.

pub mod property;
pub mod diff;
pub mod document;
pub mod path;
pub mod flatten;
pub mod error;
pub mod yaml;
pub mod remote;
pub mod report;
