//! Projects a document tree onto a flat snapshot of properties.

use vstd::prelude::*;
use vstd::string::StringExecFns;
use crate::document::{Node, NodeView, Scalar, ScalarView};
use crate::path::{element_key, entry_key, join_element, join_entry};
use crate::property::{pairs, ConsulProperties, Pair};

verus! {

/// The text that stands for a leaf in a snapshot.
pub open spec fn rendering(scalar: ScalarView) -> Seq<char> {
    match scalar {
        ScalarView::Null => seq!['n', 'u', 'l', 'l'],
        ScalarView::Bool(true) => seq!['t', 'r', 'u', 'e'],
        ScalarView::Bool(false) => seq!['f', 'a', 'l', 's', 'e'],
        ScalarView::Number(text) => text,
        ScalarView::Text(text) => text,
        ScalarView::Other(text) => text,
    }
}

/// The pairs that the tree under `node` holds when `node` itself has the key
/// `prefix`: one for each leaf, in document order.
pub open spec fn flatten(node: NodeView, prefix: Seq<char>) -> Seq<Pair>
    decreases node, 0nat,
{
    match node {
        NodeView::Leaf(scalar) => seq![(prefix, rendering(scalar))],
        NodeView::Sequence(items) => flatten_elements(items, prefix, items.len()),
        NodeView::Mapping(entries) => flatten_entries(entries, prefix, entries.len()),
    }
}

/// The pairs of the first `count` elements of a sequence whose key is `prefix`.
pub open spec fn flatten_elements(items: Seq<NodeView>, prefix: Seq<char>, count: nat) -> Seq<Pair>
    decreases items, count,
{
    if count == 0 || count > items.len() {
        Seq::empty()
    } else {
        let last = (count - 1) as nat;
        flatten_elements(items, prefix, last) + flatten(
            items[last as int],
            element_key(prefix, last),
        )
    }
}

/// The pairs of one entry of a mapping whose key is `prefix`: those of its
/// value under the joined key, or none where the key is not a string.
pub open spec fn flatten_entry(entry: (NodeView, NodeView), prefix: Seq<char>) -> Seq<Pair>
    decreases entry, 0nat,
{
    match entry.0 {
        NodeView::Leaf(ScalarView::Text(name)) => flatten(entry.1, entry_key(prefix, name)),
        _ => Seq::empty(),
    }
}

/// The pairs of the first `count` entries of a mapping whose key is `prefix`.
pub open spec fn flatten_entries(
    entries: Seq<(NodeView, NodeView)>,
    prefix: Seq<char>,
    count: nat,
) -> Seq<Pair>
    decreases entries, count,
{
    if count == 0 || count > entries.len() {
        Seq::empty()
    } else {
        let last = (count - 1) as nat;
        flatten_entries(entries, prefix, last) + flatten_entry(entries[last as int], prefix)
    }
}

/// Renders a leaf as the text that stands for it in a snapshot: `null` for
/// the null value, `true` or `false` for a boolean, and the text held for a
/// number, a string or a node of another kind, unchanged.
pub fn value_to_string(scalar: &Scalar) -> (text: String)
    ensures
        text@ == rendering(scalar@),
{
    proof {
        reveal_strlit("null");
        reveal_strlit("true");
        reveal_strlit("false");
    }
    let text = match scalar {
        Scalar::Null => String::from_str("null"),
        Scalar::Bool(b) => if *b {
            String::from_str("true")
        } else {
            String::from_str("false")
        },
        Scalar::Number(text) => text.clone(),
        Scalar::Text(text) => text.clone(),
        Scalar::Other(text) => text.clone(),
    };
    assert(text@ =~= rendering(scalar@));
    text
}

/// Appends to `properties` the pairs of the tree under `node`, which itself
/// has the key `prefix`.
///
/// A leaf gives one property under `prefix`. An element of a sequence is
/// flattened under `prefix` followed by its bracketed position, an entry of a
/// mapping under `prefix`, a slash and its name. An entry whose key is not a
/// string is passed over.
pub fn flatten_yaml(node: &Node, properties: &mut Vec<ConsulProperties>, prefix: String)
    ensures
        pairs(final(properties)@) == pairs(old(properties)@) + flatten(node@, prefix@),
    decreases node,
{
    let ghost before = pairs(properties@);
    match node {
        Node::Leaf(scalar) => {
            let value = value_to_string(scalar);
            properties.push(ConsulProperties { key: prefix, value });
            assert(pairs(properties@) =~= before + flatten(node@, prefix@));
        },
        Node::Sequence(items) => {
            let ghost views = node@->Sequence_0;
            let mut i: usize = 0;
            assert(pairs(properties@) =~= before + flatten_elements(views, prefix@, 0));
            while i < items.len()
                invariant
                    i <= items.len(),
                    *node == Node::Sequence(*items),
                    node@ == NodeView::Sequence(views),
                    views.len() == items.len(),
                    pairs(properties@) == before + flatten_elements(views, prefix@, i as nat),
                decreases items.len() - i,
            {
                let key = join_element(prefix.as_str(), i);
                flatten_yaml(&items[i], properties, key);
                proof {
                    assert(views[i as int] == items@[i as int]@);
                    assert(pairs(properties@) =~= before + flatten_elements(
                        views,
                        prefix@,
                        (i + 1) as nat,
                    ));
                }
                i += 1;
            }
        },
        Node::Mapping(entries) => {
            let ghost views = node@->Mapping_0;
            let mut i: usize = 0;
            while i < entries.len()
                invariant
                    i <= entries.len(),
                    *node == Node::Mapping(*entries),
                    node@ == NodeView::Mapping(views),
                    views.len() == entries.len(),
                    pairs(properties@) == before + flatten_entries(views, prefix@, i as nat),
                decreases entries.len() - i,
            {
                let entry = &entries[i];
                assert(views[i as int] == (entry.0@, entry.1@));
                let ghost done = pairs(properties@);
                match &entry.0 {
                    Node::Leaf(Scalar::Text(name)) => {
                        let key = join_entry(prefix.as_str(), name.as_str());
                        flatten_yaml(&entry.1, properties, key);
                        assert(entry.0@ == NodeView::Leaf(ScalarView::Text(name@)));
                    },
                    _ => {
                        assert(!(entry.0@ matches NodeView::Leaf(ScalarView::Text(_))));
                    },
                }
                assert(pairs(properties@) == done + flatten_entry(views[i as int], prefix@));
                assert(pairs(properties@) =~= before + flatten_entries(
                    views,
                    prefix@,
                    (i + 1) as nat,
                ));
                i += 1;
            }
        },
    }
}

/// The snapshot of a whole document: the pairs of its root under the empty
/// key.
pub fn flatten_document(document: &Node) -> (properties: Vec<ConsulProperties>)
    ensures
        pairs(properties@) == flatten(document@, Seq::empty()),
{
    let mut properties: Vec<ConsulProperties> = Vec::new();
    flatten_yaml(document, &mut properties, String::new());
    assert(pairs(properties@) =~= flatten(document@, Seq::empty()));
    properties
}

/// A document that is one scalar flattens to exactly one pair: the empty key
/// with the scalar's rendering.
pub proof fn lemma_scalar_document(scalar: ScalarView)
    ensures
        flatten(NodeView::Leaf(scalar), Seq::empty()) == seq![
            (Seq::<char>::empty(), rendering(scalar)),
        ],
{
}

/// Flattening is a function of the document and the prefix: whatever two
/// flattenings of one document under one prefix produced, they hold the same
/// pairs.
pub proof fn lemma_flattening_is_deterministic(
    document: NodeView,
    prefix: Seq<char>,
    first: Seq<Pair>,
    second: Seq<Pair>,
)
    requires
        first == flatten(document, prefix),
        second == flatten(document, prefix),
    ensures
        first == second,
        first.to_set() == second.to_set(),
{
}

/// An entry whose key is not a string contributes nothing: the mapping
/// flattens as it would without that entry.
pub proof fn lemma_unnamed_entry_is_omitted(
    entries: Seq<(NodeView, NodeView)>,
    prefix: Seq<char>,
    at: int,
)
    requires
        0 <= at < entries.len(),
        !(entries[at].0 matches NodeView::Leaf(ScalarView::Text(_))),
    ensures
        flatten(NodeView::Mapping(entries), prefix) == flatten(
            NodeView::Mapping(entries.remove(at)),
            prefix,
        ),
{
    lemma_entries_without(entries, prefix, at, entries.len());
}

/// The first `count` entries flatten as the entries before them do once the
/// unnamed entry at `at` is taken out.
proof fn lemma_entries_without(
    entries: Seq<(NodeView, NodeView)>,
    prefix: Seq<char>,
    at: int,
    count: nat,
)
    requires
        0 <= at < entries.len(),
        count <= entries.len(),
        !(entries[at].0 matches NodeView::Leaf(ScalarView::Text(_))),
    ensures
        count <= at ==> flatten_entries(entries, prefix, count) == flatten_entries(
            entries.remove(at),
            prefix,
            count,
        ),
        count > at ==> flatten_entries(entries, prefix, count) == flatten_entries(
            entries.remove(at),
            prefix,
            (count - 1) as nat,
        ),
    decreases count,
{
    let rest = entries.remove(at);
    if count > 0 {
        let last = (count - 1) as nat;
        lemma_entries_without(entries, prefix, at, last);
        if last < at {
            assert(rest[last as int] == entries[last as int]);
        } else if last == at {
            assert(flatten_entry(entries[at], prefix) =~= Seq::<Pair>::empty());
            assert(flatten_entries(entries, prefix, count) =~= flatten_entries(
                entries,
                prefix,
                last,
            ));
        } else {
            assert(rest[last - 1] == entries[last as int]);
        }
    }
}

} // verus!
