//! The parsed document: a tree of mappings, sequences and scalar leaves.

use vstd::prelude::*;

verus! {

/// A leaf of the document tree.
#[derive(Debug, Clone, PartialEq, Eq)]
pub enum Scalar {
    /// The null value.
    Null,
    /// A boolean.
    Bool(bool),
    /// A number, held as its canonical decimal text.
    Number(String),
    /// A string.
    Text(String),
    /// A node of any other kind, such as a tagged one, held as the structural
    /// rendering that stands for it in a snapshot.
    Other(String),
}

/// A node of the document tree.
#[derive(Debug, PartialEq, Eq)]
pub enum Node {
    /// A scalar, or whatever else is treated as a leaf.
    Leaf(Scalar),
    /// The elements of a sequence, in document order.
    Sequence(Vec<Node>),
    /// The entries of a mapping, in document order, each a key with its value.
    /// A key is a node like any other; only a string key names a path.
    Mapping(Vec<(Node, Node)>),
}

/// The mathematical value of a [`Scalar`].
pub enum ScalarView {
    Null,
    Bool(bool),
    Number(Seq<char>),
    Text(Seq<char>),
    Other(Seq<char>),
}

/// The mathematical value of a [`Node`].
pub enum NodeView {
    Leaf(ScalarView),
    Sequence(Seq<NodeView>),
    Mapping(Seq<(NodeView, NodeView)>),
}

impl View for Scalar {
    type V = ScalarView;

    open spec fn view(&self) -> ScalarView {
        match self {
            Scalar::Null => ScalarView::Null,
            Scalar::Bool(b) => ScalarView::Bool(*b),
            Scalar::Number(text) => ScalarView::Number(text@),
            Scalar::Text(text) => ScalarView::Text(text@),
            Scalar::Other(text) => ScalarView::Other(text@),
        }
    }
}

/// The value of a node: that of its leaf, or those of its elements or
/// entries, in their order.
pub open spec fn node_view(node: Node) -> NodeView
    decreases node,
{
    match node {
        Node::Leaf(scalar) => NodeView::Leaf(scalar@),
        Node::Sequence(items) => NodeView::Sequence(
            Seq::new(
                items@.len(),
                |i: int|
                    if 0 <= i < items@.len() {
                        node_view(items@[i])
                    } else {
                        NodeView::Leaf(ScalarView::Null)
                    },
            ),
        ),
        Node::Mapping(entries) => NodeView::Mapping(
            Seq::new(
                entries@.len(),
                |i: int|
                    if 0 <= i < entries@.len() {
                        let entry = entries@[i];
                        (node_view(entry.0), node_view(entry.1))
                    } else {
                        (NodeView::Leaf(ScalarView::Null), NodeView::Leaf(ScalarView::Null))
                    },
            ),
        ),
    }
}

impl View for Node {
    type V = NodeView;

    open spec fn view(&self) -> NodeView {
        node_view(*self)
    }
}

} // verus!
