//! The one-directional difference between two snapshots.

use vstd::prelude::*;
use crate::property::{pairs, ConsulProperties, Pair};

verus! {

/// The pairs of `remote` that no pair of `document` equals.
pub open spec fn difference(remote: Seq<Pair>, document: Seq<Pair>) -> Set<Pair> {
    remote.to_set().difference(document.to_set())
}

/// Whether some property of `list` is the same pair as `wanted`.
pub fn contains_pair(list: &Vec<ConsulProperties>, wanted: &ConsulProperties) -> (found: bool)
    ensures
        found == pairs(list@).contains(wanted@),
{
    let mut i: usize = 0;
    while i < list.len()
        invariant
            i <= list.len(),
            forall|j: int| 0 <= j < i ==> pairs(list@)[j] != wanted@,
        decreases list.len() - i,
    {
        if list[i].same_pair(wanted) {
            assert(pairs(list@)[i as int] == wanted@);
            return true;
        }
        i += 1;
    }
    false
}

/// Computes which properties of `list1` are matched by no property of `list2`.
///
/// Both lists are read as sets of pairs, so the result holds each differing
/// pair once, however often `list1` repeats it.
pub fn difference_between_properties(
    list1: Vec<ConsulProperties>,
    list2: Vec<ConsulProperties>,
) -> (result: Vec<ConsulProperties>)
    ensures
        pairs(result@).to_set() == difference(pairs(list1@), pairs(list2@)),
        pairs(result@).no_duplicates(),
{
    let mut result: Vec<ConsulProperties> = Vec::new();
    let mut i: usize = 0;
    while i < list1.len()
        invariant
            i <= list1.len(),
            pairs(result@).no_duplicates(),
            forall|p: Pair| #[trigger]
                pairs(result@).contains(p) <==> (pairs(list1@).take(i as int).contains(p)
                    && !pairs(list2@).contains(p)),
        decreases list1.len() - i,
    {
        let candidate = &list1[i];
        let ghost before = pairs(result@);
        let ghost seen = pairs(list1@).take(i as int);
        let ghost grown = pairs(list1@).take(i as int + 1);
        proof {
            assert(pairs(list1@)[i as int] == candidate@);
            assert(grown == seen.push(candidate@));
            assert forall|p: Pair| grown.contains(p) <==> (seen.contains(p) || p == candidate@) by {
                if grown.contains(p) {
                    let j = choose|j: int| 0 <= j < grown.len() && grown[j] == p;
                    if j < seen.len() {
                        assert(seen[j] == p);
                    }
                }
                if seen.contains(p) {
                    let j = choose|j: int| 0 <= j < seen.len() && seen[j] == p;
                    assert(grown[j] == p);
                }
                assert(grown[i as int] == candidate@);
            }
        }
        if !contains_pair(&list2, candidate) && !contains_pair(&result, candidate) {
            result.push(candidate.duplicate());
            proof {
                let after = pairs(result@);
                assert(after == before.push(candidate@));
                assert forall|p: Pair| after.contains(p) <==> (before.contains(p) || p
                    == candidate@) by {
                    if after.contains(p) {
                        let j = choose|j: int| 0 <= j < after.len() && after[j] == p;
                        if j < before.len() {
                            assert(before[j] == p);
                        }
                    }
                    if before.contains(p) {
                        let j = choose|j: int| 0 <= j < before.len() && before[j] == p;
                        assert(after[j] == p);
                    }
                    assert(after[before.len() as int] == candidate@);
                }
            }
        }
        i += 1;
    }
    proof {
        assert(pairs(list1@).take(i as int) == pairs(list1@));
        assert(pairs(result@).to_set() =~= difference(pairs(list1@), pairs(list2@)));
    }
    result
}

/// Nothing differs between a snapshot and itself.
pub proof fn lemma_difference_with_itself(snapshot: Seq<Pair>)
    ensures
        difference(snapshot, snapshot) == Set::<Pair>::empty(),
{
    assert(difference(snapshot, snapshot) =~= Set::<Pair>::empty());
}

/// Against an empty snapshot every pair differs: the difference is the
/// snapshot itself with its repetitions collapsed.
pub proof fn lemma_difference_with_nothing(snapshot: Seq<Pair>)
    ensures
        difference(snapshot, Seq::<Pair>::empty()) == snapshot.to_set(),
{
    assert(Seq::<Pair>::empty().to_set() =~= Set::<Pair>::empty());
    assert(difference(snapshot, Seq::<Pair>::empty()) =~= snapshot.to_set());
}

/// The direction matters: the difference one way equals the difference the
/// other way only where the two snapshots hold the same pairs, and both
/// differences are then empty.
pub proof fn lemma_difference_is_directed(remote: Seq<Pair>, document: Seq<Pair>)
    ensures
        difference(remote, document) == difference(document, remote) <==> remote.to_set()
            == document.to_set(),
        difference(remote, document) == difference(document, remote) ==> difference(
            remote,
            document,
        ) == Set::<Pair>::empty(),
{
    let forth = difference(remote, document);
    let back = difference(document, remote);
    if forth == back {
        assert forall|p: Pair| !forth.contains(p) by {
            if forth.contains(p) {
                assert(back.contains(p));
            }
        }
        assert(forth =~= Set::<Pair>::empty());
        assert forall|p: Pair| remote.to_set().contains(p) <==> document.to_set().contains(p) by {
            if remote.to_set().contains(p) && !document.to_set().contains(p) {
                assert(forth.contains(p));
            }
            if document.to_set().contains(p) && !remote.to_set().contains(p) {
                assert(back.contains(p));
            }
        }
        assert(remote.to_set() =~= document.to_set());
    }
    if remote.to_set() == document.to_set() {
        assert(forth =~= back);
    }
}

} // verus!
