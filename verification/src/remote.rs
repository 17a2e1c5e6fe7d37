//! Turns what the store returned under a prefix into a snapshot.

use vstd::prelude::*;
use vstd::string::{StrSliceExecFns, StringExecFns};
use crate::error::{outcome, SourceReadError, SourceReadErrorView};
use crate::property::{pairs, ConsulProperties, Pair};

verus! {

/// What the store holds under one key.
#[derive(Debug, Clone, PartialEq, Eq)]
pub enum RemoteValue {
    /// Nothing: the key is there without a value.
    Absent,
    /// Something that does not decode to UTF-8 text.
    Undecodable,
    /// The decoded text.
    Text(String),
}

/// One entry as the store returned it: the full key and what lies under it.
#[derive(Debug, Clone, PartialEq, Eq)]
pub struct RemoteEntry {
    pub key: String,
    pub value: RemoteValue,
}

/// The address under which the store of `host` is reached: plain HTTP on port
/// 8500.
pub open spec fn address_of(host: Seq<char>) -> Seq<char> {
    seq!['h', 't', 't', 'p', ':', '/', '/'] + host + seq![':', '8', '5', '0', '0']
}

/// The key of an entry inside the namespace `prefix`: the key without its
/// leading `prefix` and slash. A key that does not begin so is kept whole,
/// also where `prefix` and a slash occur further inside it.
pub open spec fn relative_key(key: Seq<char>, prefix: Seq<char>) -> Seq<char> {
    let lead = prefix + seq!['/'];
    if lead.is_prefix_of(key) {
        key.skip(lead.len() as int)
    } else {
        key
    }
}

/// The pair that a readable entry stands for in the namespace `prefix`.
pub open spec fn pair_of(entry: RemoteEntry, prefix: Seq<char>) -> Pair
    recommends
        entry.value is Text,
{
    (relative_key(entry.key@, prefix), entry.value->Text_0@)
}

/// The failure that an unreadable entry stands for.
pub open spec fn failure_of(entry: RemoteEntry) -> SourceReadErrorView
    recommends
        !(entry.value is Text),
{
    if entry.value is Absent {
        SourceReadErrorView::MissingValue(entry.key@)
    } else {
        SourceReadErrorView::NotText(entry.key@)
    }
}

/// What a list of entries comes to: the pairs of all of them, in their order,
/// or the failure of the first that holds no text.
pub open spec fn snapshot_of(entries: Seq<RemoteEntry>, prefix: Seq<char>) -> Result<
    Seq<Pair>,
    SourceReadErrorView,
>
    decreases entries.len(),
{
    if entries.len() == 0 {
        Ok(Seq::empty())
    } else {
        match snapshot_of(entries.drop_last(), prefix) {
            Err(failure) => Err(failure),
            Ok(before) => if entries.last().value is Text {
                Ok(before.push(pair_of(entries.last(), prefix)))
            } else {
                Err(failure_of(entries.last()))
            },
        }
    }
}

/// Builds the address of the store on `consul_host`.
pub fn consul_address(consul_host: &str) -> (address: String)
    ensures
        address@ == address_of(consul_host@),
{
    let mut address = String::from_str("http://");
    address.append(consul_host);
    address.append(":8500");
    proof {
        reveal_strlit("http://");
        reveal_strlit(":8500");
        assert(address@ =~= address_of(consul_host@));
    }
    address
}

/// Strips the namespace `app_prefix` and its slash from the front of `key`.
pub fn strip_prefix(key: &str, app_prefix: &str) -> (stripped: String)
    ensures
        stripped@ == relative_key(key@, app_prefix@),
{
    let mut lead = String::from_str(app_prefix);
    lead.append("/");
    proof {
        reveal_strlit("/");
        assert(lead@ =~= app_prefix@ + seq!['/']);
    }
    let lead_len = lead.as_str().unicode_len();
    let key_len = key.unicode_len();
    if lead_len <= key_len {
        let head = String::from_str(key.substring_char(0, lead_len));
        if head == lead {
            let rest = String::from_str(key.substring_char(lead_len, key_len));
            proof {
                assert(key@.subrange(0, lead_len as int) == lead@);
                assert(lead@.is_prefix_of(key@));
                assert(rest@ =~= key@.skip(lead_len as int));
            }
            return rest;
        }
        proof {
            if lead@.is_prefix_of(key@) {
                assert(key@.subrange(0, lead_len as int) =~= lead@);
            }
        }
    }
    String::from_str(key)
}

/// Normalizes the entries that the store returned under `app_prefix` into a
/// snapshot: each key relative to the prefix, each value as text.
///
/// The first entry without a value, or with a value that is not text, fails
/// the whole load.
pub fn load_consul_properties(entries: &Vec<RemoteEntry>, app_prefix: &str) -> (loaded: Result<
    Vec<ConsulProperties>,
    SourceReadError,
>)
    ensures
        outcome(loaded) == snapshot_of(entries@, app_prefix@),
{
    let mut properties: Vec<ConsulProperties> = Vec::new();
    let mut i: usize = 0;
    assert(entries@.take(0) =~= Seq::empty());
    assert(pairs(properties@) =~= Seq::empty());
    while i < entries.len()
        invariant
            i <= entries.len(),
            snapshot_of(entries@.take(i as int), app_prefix@) == Ok::<
                Seq<Pair>,
                SourceReadErrorView,
            >(pairs(properties@)),
        decreases entries.len() - i,
    {
        let entry = &entries[i];
        proof {
            let grown = entries@.take(i as int + 1);
            assert(grown.drop_last() =~= entries@.take(i as int));
            assert(grown.last() == *entry);
        }
        match &entry.value {
            RemoteValue::Text(text) => {
                let ghost before = pairs(properties@);
                properties.push(
                    ConsulProperties {
                        key: strip_prefix(entry.key.as_str(), app_prefix),
                        value: text.clone(),
                    },
                );
                assert(pairs(properties@) =~= before.push(pair_of(*entry, app_prefix@)));
            },
            RemoteValue::Absent => {
                proof {
                    lemma_failure_stays(entries@, app_prefix@, i as int + 1);
                }
                return Err(SourceReadError::MissingValue(entry.key.clone()));
            },
            RemoteValue::Undecodable => {
                proof {
                    lemma_failure_stays(entries@, app_prefix@, i as int + 1);
                }
                return Err(SourceReadError::NotText(entry.key.clone()));
            },
        }
        i += 1;
    }
    assert(entries@.take(i as int) =~= entries@);
    Ok(properties)
}

/// A failure among the first `count` entries is the failure of the whole
/// list.
pub proof fn lemma_failure_stays(entries: Seq<RemoteEntry>, prefix: Seq<char>, count: int)
    requires
        0 <= count <= entries.len(),
        snapshot_of(entries.take(count), prefix) is Err,
    ensures
        snapshot_of(entries, prefix) == snapshot_of(entries.take(count), prefix),
    decreases entries.len(),
{
    if count == entries.len() {
        assert(entries.take(count) =~= entries);
    } else {
        assert(entries.drop_last().take(count) =~= entries.take(count));
        lemma_failure_stays(entries.drop_last(), prefix, count);
    }
}

} // verus!
