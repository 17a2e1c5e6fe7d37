//! The `(key, value)` pair that both snapshot producers emit.

use vstd::prelude::*;

verus! {

/// The mathematical value of a property: its key and its value, as text.
pub type Pair = (Seq<char>, Seq<char>);

/// One configuration entry. Keys are paths: `/` separates the levels of nested
/// mappings, and `[i]` follows the key of a sequence for its `i`-th element.
#[derive(Debug, Clone, PartialEq, Eq, Hash)]
pub struct ConsulProperties {
    pub key: String,
    pub value: String,
}

impl View for ConsulProperties {
    type V = Pair;

    open spec fn view(&self) -> Pair {
        (self.key@, self.value@)
    }
}

/// The pairs that a list of properties stands for, in the list's order.
pub open spec fn pairs(properties: Seq<ConsulProperties>) -> Seq<Pair> {
    properties.map_values(|p: ConsulProperties| p@)
}

impl ConsulProperties {
    /// A property made of copies of the two given texts.
    pub fn new(key: &str, value: &str) -> (property: ConsulProperties)
        ensures
            property@ == (key@, value@),
    {
        ConsulProperties { key: key.to_owned(), value: value.to_owned() }
    }

    /// Whether two properties are the same pair: both key and value match.
    pub fn same_pair(&self, other: &ConsulProperties) -> (same: bool)
        ensures
            same == (self@ == other@),
    {
        self.key == other.key && self.value == other.value
    }

    /// A fresh property that stands for the same pair.
    pub fn duplicate(&self) -> (copy: ConsulProperties)
        ensures
            copy@ == self@,
    {
        ConsulProperties { key: self.key.clone(), value: self.value.clone() }
    }
}

} // verus!
