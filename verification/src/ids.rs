//! Small operations on sets of identifiers.
use std::collections::HashSet;
use vstd::prelude::*;

verus! {

/// Copies a set of identifiers.
pub fn copy_set(ids: &HashSet<u64>) -> (copy: HashSet<u64>)
    ensures
        copy@ == ids@,
{
    let mut copy: HashSet<u64> = HashSet::new();
    for id in walk: ids.iter()
        invariant
            walk.seq().unref().to_set() == ids@,
            forall|k: u64| copy@.contains(k) ==> ids@.contains(k),
            forall|i: int| 0 <= i < walk.index() ==> copy@.contains(*#[trigger] walk.seq()[i]),
    {
        proof {
            let at = walk.index();
            assert(walk.seq().unref()[at] == *id);
            assert(walk.seq().unref().to_set().contains(*id));
        }
        copy.insert(*id);
    }
    copy
}

/// Tells whether two sets of identifiers have nothing in common.
pub fn are_disjoint(left: &HashSet<u64>, right: &HashSet<u64>) -> (result: bool)
    ensures
        result == left@.disjoint(right@),
{
    for id in walk: left.iter()
        invariant
            walk.seq().unref().to_set() == left@,
            forall|i: int| 0 <= i < walk.index() ==> !right@.contains(*#[trigger] walk.seq()[i]),
    {
        proof {
            let at = walk.index();
            assert(walk.seq().unref()[at] == *id);
            assert(walk.seq().unref().to_set().contains(*id));
        }
        if right.contains(id) {
            return false;
        }
    }
    true
}

/// Collects a list of identifiers into a set.
pub fn set_of(ids: &Vec<u64>) -> (result: HashSet<u64>)
    ensures
        result@ == ids@.to_set(),
{
    let mut result: HashSet<u64> = HashSet::new();
    let mut at: usize = 0;
    while at < ids.len()
        invariant
            at <= ids.len(),
            result@ == ids@.take(at as int).to_set(),
        decreases ids.len() - at,
    {
        result.insert(ids[at]);
        proof {
            let before = ids@.take(at as int);
            let after = ids@.take(at + 1);
            assert(after =~= before.push(ids@[at as int]));
            assert forall|k: u64| after.to_set().contains(k) == result@.contains(k) by {
                if before.contains(k) {
                    let i = choose|i: int| 0 <= i < before.len() && before[i] == k;
                    assert(after[i] == k);
                }
                if k == ids@[at as int] {
                    assert(after[at as int] == k);
                }
                if after.contains(k) && k != ids@[at as int] {
                    let i = choose|i: int| 0 <= i < after.len() && after[i] == k;
                    assert(before[i] == k);
                }
            }
            assert(result@ =~= after.to_set());
        }
        at += 1;
    }
    assert(ids@.take(ids@.len() as int) =~= ids@);
    result
}

/// A copied set has the same members, a set of listed identifiers has those that are listed, and two
/// sets are disjoint exactly if no identifier is in both.
pub proof fn sets_hold_their_members(
    ids: HashSet<u64>,
    copy: HashSet<u64>,
    list: Vec<u64>,
    collected: HashSet<u64>,
    other: HashSet<u64>,
    apart: bool,
    id: u64,
)
    requires
        call_ensures(copy_set, (&ids,), copy),
        call_ensures(set_of, (&list,), collected),
        call_ensures(are_disjoint, (&ids, &other), apart),
    ensures
        copy@.contains(id) <==> ids@.contains(id),
        collected@.contains(id) <==> list@.contains(id),
        ids@.contains(id) && other@.contains(id) ==> !apart,
        !apart ==> exists|shared: u64| #[trigger] ids@.contains(shared) && other@.contains(shared),
{
}

} // verus!
