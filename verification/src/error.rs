//! Why a snapshot could not be produced.

use vstd::prelude::*;
use vstd::string::StringExecFns;
use crate::property::{pairs, ConsulProperties, Pair};

verus! {

/// A failure to turn a source into a snapshot. There is no partial result:
/// the first failure ends the run.
#[derive(Debug, Clone, PartialEq, Eq)]
pub enum SourceReadError {
    /// The document's text is not a well-formed document. Holds what the
    /// reader said of it.
    Malformed(String),
    /// The store holds no value under a key. Holds the key as the store
    /// names it.
    MissingValue(String),
    /// The value under a key is not text. Holds the key as the store names
    /// it.
    NotText(String),
}

/// The mathematical value of a [`SourceReadError`].
pub enum SourceReadErrorView {
    Malformed(Seq<char>),
    MissingValue(Seq<char>),
    NotText(Seq<char>),
}

impl View for SourceReadError {
    type V = SourceReadErrorView;

    open spec fn view(&self) -> SourceReadErrorView {
        match self {
            SourceReadError::Malformed(said) => SourceReadErrorView::Malformed(said@),
            SourceReadError::MissingValue(key) => SourceReadErrorView::MissingValue(key@),
            SourceReadError::NotText(key) => SourceReadErrorView::NotText(key@),
        }
    }
}

/// The mathematical value of what loading a snapshot gave: its pairs, or the
/// failure.
pub open spec fn outcome(loaded: Result<Vec<ConsulProperties>, SourceReadError>) -> Result<
    Seq<Pair>,
    SourceReadErrorView,
> {
    match loaded {
        Ok(properties) => Ok(pairs(properties@)),
        Err(error) => Err(error@),
    }
}

/// The diagnostic for a failure: what went wrong, then what it went wrong
/// with.
pub open spec fn diagnostic_of(error: SourceReadErrorView) -> Seq<char> {
    match error {
        SourceReadErrorView::Malformed(said) => "Unable to parse YAML: "@ + said,
        SourceReadErrorView::MissingValue(key) => "No value stored under key: "@ + key,
        SourceReadErrorView::NotText(key) => "Value is not UTF-8 text under key: "@ + key,
    }
}

impl SourceReadError {
    /// Writes the diagnostic that is shown for this failure.
    pub fn diagnostic(&self) -> (text: String)
        ensures
            text@ == diagnostic_of(self@),
    {
        match self {
            SourceReadError::Malformed(said) => {
                let mut text = String::from_str("Unable to parse YAML: ");
                text.append(said.as_str());
                text
            },
            SourceReadError::MissingValue(key) => {
                let mut text = String::from_str("No value stored under key: ");
                text.append(key.as_str());
                text
            },
            SourceReadError::NotText(key) => {
                let mut text = String::from_str("Value is not UTF-8 text under key: ");
                text.append(key.as_str());
                text
            },
        }
    }
}

} // verus!
