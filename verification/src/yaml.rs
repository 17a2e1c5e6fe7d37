//! Reads a document from YAML text.

use vstd::prelude::*;
use crate::document::{Node, NodeView, Scalar};
use crate::error::{outcome, SourceReadError, SourceReadErrorView};
use crate::flatten::{flatten, flatten_document};
use crate::property::{pairs, ConsulProperties, Pair};

verus! {

/// `serde_yaml::Value`, the tree that the YAML reader builds. It is carried
/// from the reader to the conversion and not looked into.
#[verifier::external_type_specification]
#[verifier::external_body]
pub struct ExValue(serde_yaml::Value);

/// What the YAML reader makes of a text: the document that the text holds,
/// or what the reader says against it.
pub uninterp spec fn yaml_document(text: Seq<char>) -> Result<NodeView, Seq<char>>;

/// The mathematical value of what reading a text gave: the document's value,
/// or the message of the refusal.
pub open spec fn answer(read: Result<Node, String>) -> Result<NodeView, Seq<char>> {
    match read {
        Ok(document) => Ok(document@),
        Err(said) => Err(said@),
    }
}

/// Rebuilds a `serde_yaml::Value` as a [`Node`], variant by variant: null, a
/// boolean and a string as they are, a number as the text that its `Display`
/// writes, a tagged value as the text that its `Debug` writes, a sequence and
/// a mapping element by element in their own order. Nothing is claimed of the
/// result here; [`read_yaml`] names it.
#[verifier::external_body]
fn node_of_value(value: serde_yaml::Value) -> Node {
    match value {
        serde_yaml::Value::Null => Node::Leaf(Scalar::Null),
        serde_yaml::Value::Bool(b) => Node::Leaf(Scalar::Bool(b)),
        serde_yaml::Value::Number(n) => Node::Leaf(Scalar::Number(n.to_string())),
        serde_yaml::Value::String(s) => Node::Leaf(Scalar::Text(s)),
        serde_yaml::Value::Sequence(items) => Node::Sequence(
            items.into_iter().map(node_of_value).collect(),
        ),
        serde_yaml::Value::Mapping(entries) => Node::Mapping(
            entries.into_iter().map(|(k, v)| (node_of_value(k), node_of_value(v))).collect(),
        ),
        serde_yaml::Value::Tagged(tagged) => Node::Leaf(Scalar::Other(format!("{:?}", tagged))),
    }
}

/// Calls `serde_yaml::from_str` for a `serde_yaml::Value`. The reader's
/// answer depends on the text alone, so it has a name, [`yaml_document`]:
/// a document that was read is the one that the name gives for the text, and
/// a refusal carries the message that the name gives, which is the text that
/// the `Display` of `serde_yaml::Error` writes.
#[verifier::external_body]
fn read_yaml(text: &str) -> (read: Result<Node, String>)
    ensures
        answer(read) == yaml_document(text@),
{
    match serde_yaml::from_str::<serde_yaml::Value>(text) {
        Ok(value) => Ok(node_of_value(value)),
        Err(error) => Err(error.to_string()),
    }
}

/// The snapshot of the document that a text holds: the pairs of its root
/// under the empty key, or the failure that carries the reader's message.
pub open spec fn document_snapshot(contents: Seq<char>) -> Result<Seq<Pair>, SourceReadErrorView> {
    match yaml_document(contents) {
        Ok(document) => Ok(flatten(document, Seq::empty())),
        Err(said) => Err(SourceReadErrorView::Malformed(said)),
    }
}

/// Reads the document that `contents` holds. A text that is not a
/// well-formed document is refused with the reader's message.
pub fn parse_document(contents: &str) -> (parsed: Result<Node, SourceReadError>)
    ensures
        match yaml_document(contents@) {
            Ok(document) => parsed matches Ok(node) && node@ == document,
            Err(said) => parsed matches Err(error) && error@ == SourceReadErrorView::Malformed(
                said,
            ),
        },
{
    match read_yaml(contents) {
        Ok(node) => Ok(node),
        Err(said) => Err(SourceReadError::Malformed(said)),
    }
}

/// Loads the snapshot of the document that `contents` holds: the pairs of its
/// root under the empty key, or the reader's refusal where `contents` is not
/// a well-formed document.
pub fn load_yml_properties(contents: &str) -> (loaded: Result<
    Vec<ConsulProperties>,
    SourceReadError,
>)
    ensures
        outcome(loaded) == document_snapshot(contents@),
{
    match parse_document(contents) {
        Ok(document) => Ok(flatten_document(&document)),
        Err(error) => Err(error),
    }
}

/// Loading is a function of the text: whatever two loads of one text gave,
/// they gave the same pairs or the same failure.
pub proof fn lemma_loading_is_deterministic(
    contents: Seq<char>,
    first: Result<Vec<ConsulProperties>, SourceReadError>,
    second: Result<Vec<ConsulProperties>, SourceReadError>,
)
    requires
        outcome(first) == document_snapshot(contents),
        outcome(second) == document_snapshot(contents),
    ensures
        outcome(first) == outcome(second),
        first matches Ok(one) ==> second matches Ok(other) && pairs(one@).to_set() == pairs(
            other@,
        ).to_set(),
{
}

} // verus!
