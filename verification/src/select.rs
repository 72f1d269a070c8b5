//! Choosing one position out of many.
//!
//! The adapters pick windows by "the first that ...", "the least by ..." and "the greatest
//! by ...". Each such choice is stated here once, over a sequence of flags or of ranks, so that
//! the adapters only have to say which flag or rank each item carries.
use vstd::prelude::*;
use vstd::relations::*;

verus! {

/// A lexicographic sort key.
pub type Rank = (int, int, int, int);

/// Strict lexicographic order on ranks.
pub open spec fn rank_lt(a: Rank, b: Rank) -> bool {
    ||| a.0 < b.0
    ||| a.0 == b.0 && a.1 < b.1
    ||| a.0 == b.0 && a.1 == b.1 && a.2 < b.2
    ||| a.0 == b.0 && a.1 == b.1 && a.2 == b.2 && a.3 < b.3
}

/// Ranks are totally ordered.
pub proof fn ranks_are_totally_ordered(a: Rank, b: Rank, c: Rank)
    ensures
        !rank_lt(a, a),
        rank_lt(a, b) ==> !rank_lt(b, a),
        rank_lt(a, b) || a == b || rank_lt(b, a),
        rank_lt(a, b) && rank_lt(b, c) ==> rank_lt(a, c),
{
}

/// The position of an executable search, as a mathematical integer.
pub open spec fn position(found: Option<usize>) -> Option<int> {
    match found {
        Some(at) => Some(at as int),
        None => None,
    }
}

/// `at` is the first position whose flag is set.
pub open spec fn is_first_set(flags: Seq<bool>, at: int) -> bool {
    &&& 0 <= at < flags.len()
    &&& flags[at]
    &&& forall|i: int| 0 <= i < at ==> !#[trigger] flags[i]
}

/// The first position whose flag is set, if any is.
pub open spec fn first_set(flags: Seq<bool>) -> Option<int> {
    if exists|at: int| is_first_set(flags, at) {
        Some(choose|at: int| is_first_set(flags, at))
    } else {
        None
    }
}

pub proof fn lemma_first_set(flags: Seq<bool>, at: int)
    requires
        is_first_set(flags, at),
    ensures
        first_set(flags) == Some(at),
{
    let chosen = choose|i: int| is_first_set(flags, i);
    assert(is_first_set(flags, chosen));
    if chosen < at {
        assert(!flags[chosen]);
    } else if at < chosen {
        assert(!flags[at]);
    }
}

pub proof fn lemma_none_set(flags: Seq<bool>)
    requires
        forall|i: int| 0 <= i < flags.len() ==> !#[trigger] flags[i],
    ensures
        first_set(flags) is None,
{
}

/// What `first_set` finds is the first set position, and it finds one whenever there is one.
pub proof fn first_set_finds_the_first(flags: Seq<bool>)
    ensures
        match first_set(flags) {
            Some(at) => is_first_set(flags, at),
            None => forall|i: int| 0 <= i < flags.len() ==> !#[trigger] flags[i],
        },
{
    if first_set(flags) is None {
        assert forall|i: int| 0 <= i < flags.len() implies !#[trigger] flags[i] by {
            if flags[i] {
                lemma_set_has_first(flags, i);
            }
        }
    }
}

proof fn lemma_set_has_first(flags: Seq<bool>, at: int)
    requires
        0 <= at < flags.len(),
        flags[at],
    ensures
        exists|i: int| is_first_set(flags, i),
    decreases at,
{
    if exists|i: int| 0 <= i < at && #[trigger] flags[i] {
        let earlier = choose|i: int| 0 <= i < at && #[trigger] flags[i];
        lemma_set_has_first(flags, earlier);
    } else {
        assert(is_first_set(flags, at));
    }
}

/// `at` holds a least rank, and it is the first position that does.
pub open spec fn is_first_least(ranks: Seq<Option<Rank>>, at: int) -> bool {
    &&& 0 <= at < ranks.len()
    &&& ranks[at] is Some
    &&& forall|i: int|
        0 <= i < ranks.len() && (#[trigger] ranks[i]) is Some ==> !rank_lt(
            ranks[i]->0,
            ranks[at]->0,
        ) && (i < at ==> rank_lt(ranks[at]->0, ranks[i]->0))
}

/// The first position of a least rank among the positions that carry one.
pub open spec fn first_least(ranks: Seq<Option<Rank>>) -> Option<int> {
    if exists|at: int| is_first_least(ranks, at) {
        Some(choose|at: int| is_first_least(ranks, at))
    } else {
        None
    }
}

pub proof fn lemma_first_least(ranks: Seq<Option<Rank>>, at: int)
    requires
        is_first_least(ranks, at),
    ensures
        first_least(ranks) == Some(at),
{
    let chosen = choose|i: int| is_first_least(ranks, i);
    assert(is_first_least(ranks, chosen));
    assert(ranks[chosen] is Some && ranks[at] is Some);
}

pub proof fn lemma_nothing_ranked(ranks: Seq<Option<Rank>>)
    requires
        forall|i: int| 0 <= i < ranks.len() ==> (#[trigger] ranks[i]) is None,
    ensures
        first_least(ranks) is None,
        last_greatest(ranks) is None,
{
}

/// `at` holds a greatest rank, and it is the last position that does.
pub open spec fn is_last_greatest(ranks: Seq<Option<Rank>>, at: int) -> bool {
    &&& 0 <= at < ranks.len()
    &&& ranks[at] is Some
    &&& forall|i: int|
        0 <= i < ranks.len() && (#[trigger] ranks[i]) is Some ==> !rank_lt(
            ranks[at]->0,
            ranks[i]->0,
        ) && (at < i ==> rank_lt(ranks[i]->0, ranks[at]->0))
}

/// The last position of a greatest rank among the positions that carry one.
pub open spec fn last_greatest(ranks: Seq<Option<Rank>>) -> Option<int> {
    if exists|at: int| is_last_greatest(ranks, at) {
        Some(choose|at: int| is_last_greatest(ranks, at))
    } else {
        None
    }
}

pub proof fn lemma_last_greatest(ranks: Seq<Option<Rank>>, at: int)
    requires
        is_last_greatest(ranks, at),
    ensures
        last_greatest(ranks) == Some(at),
{
    let chosen = choose|i: int| is_last_greatest(ranks, i);
    assert(is_last_greatest(ranks, chosen));
    assert(ranks[chosen] is Some && ranks[at] is Some);
}

/// Whenever some position carries a rank, the two choices exist and are optimal.
pub proof fn choices_are_optimal(ranks: Seq<Option<Rank>>)
    ensures
        match first_least(ranks) {
            Some(at) => is_first_least(ranks, at),
            None => forall|i: int| 0 <= i < ranks.len() ==> (#[trigger] ranks[i]) is None,
        },
        match last_greatest(ranks) {
            Some(at) => is_last_greatest(ranks, at),
            None => forall|i: int| 0 <= i < ranks.len() ==> (#[trigger] ranks[i]) is None,
        },
{
    lemma_choices_exist(ranks);
}

proof fn lemma_choices_exist(ranks: Seq<Option<Rank>>)
    ensures
        (exists|i: int| is_first_least(ranks, i)) || forall|i: int|
            0 <= i < ranks.len() ==> (#[trigger] ranks[i]) is None,
        (exists|i: int| is_last_greatest(ranks, i)) || forall|i: int|
            0 <= i < ranks.len() ==> (#[trigger] ranks[i]) is None,
    decreases ranks.len(),
{
    if ranks.len() > 0 {
        let init = ranks.drop_last();
        let last = ranks.len() - 1;
        lemma_choices_exist(init);
        assert forall|i: int| 0 <= i < last implies #[trigger] ranks[i] == init[i] by {}
        if exists|i: int| is_first_least(init, i) {
            let at = choose|i: int| is_first_least(init, i);
            assert(init[at] is Some);
            if ranks[last] is Some && rank_lt(ranks[last]->0, ranks[at]->0) {
                assert(is_first_least(ranks, last));
            } else {
                assert(is_first_least(ranks, at));
            }
        } else if ranks[last] is Some {
            assert(is_first_least(ranks, last));
        }
        if exists|i: int| is_last_greatest(init, i) {
            let at = choose|i: int| is_last_greatest(init, i);
            assert(init[at] is Some);
            if ranks[last] is Some && !rank_lt(ranks[last]->0, ranks[at]->0) {
                assert(is_last_greatest(ranks, last));
            } else {
                assert(is_last_greatest(ranks, at));
            }
        } else if ranks[last] is Some {
            assert(is_last_greatest(ranks, last));
        }
    }
}

/// Non-strict order on positions: by rank, equal ranks by position.
pub open spec fn stable_leq(ranks: Seq<Rank>) -> spec_fn(int, int) -> bool {
    |i: int, j: int| rank_lt(ranks[i], ranks[j]) || (ranks[i] == ranks[j] && i <= j)
}

/// The positions `0..ranks.len()`, sorted by rank; equal ranks keep their order.
pub open spec fn stable_order(ranks: Seq<Rank>) -> Seq<int> {
    Seq::new(ranks.len(), |i: int| i).sort_by(stable_leq(ranks))
}

pub proof fn lemma_stable_leq_is_total(ranks: Seq<Rank>)
    ensures
        total_ordering(stable_leq(ranks)),
{
}

/// A sorted arrangement of all positions is the stable order.
pub proof fn lemma_stable_order(ranks: Seq<Rank>, order: Seq<int>)
    requires
        sorted_by(order, stable_leq(ranks)),
        order.to_multiset() == Seq::new(ranks.len(), |i: int| i).to_multiset(),
    ensures
        order == stable_order(ranks),
{
    let all = Seq::new(ranks.len(), |i: int| i);
    lemma_stable_leq_is_total(ranks);
    all.lemma_sort_by_ensures(stable_leq(ranks));
    vstd::seq_lib::lemma_sorted_unique(order, stable_order(ranks), stable_leq(ranks));
}

/// Sorting neither loses, repeats nor invents a position, and puts ranks in order.
pub proof fn stable_order_is_a_sorted_permutation(ranks: Seq<Rank>)
    ensures
        stable_order(ranks).to_multiset() == Seq::new(ranks.len(), |i: int| i).to_multiset(),
        stable_order(ranks).len() == ranks.len(),
        forall|i: int, j: int|
            0 <= i < j < ranks.len() ==> !rank_lt(
                ranks[#[trigger] stable_order(ranks)[j]],
                ranks[#[trigger] stable_order(ranks)[i]],
            ),
{
    let all = Seq::new(ranks.len(), |i: int| i);
    lemma_stable_leq_is_total(ranks);
    all.lemma_sort_by_ensures(stable_leq(ranks));
    vstd::seq_lib::to_multiset_len(stable_order(ranks));
    vstd::seq_lib::to_multiset_len(all);
    let leq = stable_leq(ranks);
    let order = stable_order(ranks);
    assert forall|i: int, j: int| 0 <= i < j < ranks.len() implies !rank_lt(
        ranks[#[trigger] order[j]],
        ranks[#[trigger] order[i]],
    ) by {
        assert(leq(order[i], order[j]));
    }
}

/// Every entry of the stable order is a position.
pub proof fn lemma_stable_order_in_range(ranks: Seq<Rank>, at: int)
    requires
        0 <= at < ranks.len(),
    ensures
        0 <= stable_order(ranks)[at] < ranks.len(),
{
    broadcast use vstd::seq_lib::group_to_multiset_ensures;

    let order = stable_order(ranks);
    let all = Seq::new(ranks.len(), |i: int| i);
    stable_order_is_a_sorted_permutation(ranks);
    assert(order.contains(order[at]));
    assert(order.to_multiset().count(order[at]) > 0);
    assert(all.contains(order[at]));
}

/// Every position occurs in the stable order.
pub proof fn lemma_stable_order_covers(ranks: Seq<Rank>, position: int) -> (at: int)
    requires
        0 <= position < ranks.len(),
    ensures
        0 <= at < ranks.len(),
        stable_order(ranks)[at] == position,
{
    broadcast use vstd::seq_lib::group_to_multiset_ensures;

    let order = stable_order(ranks);
    let all = Seq::new(ranks.len(), |i: int| i);
    stable_order_is_a_sorted_permutation(ranks);
    assert(all[position] == position);
    assert(all.contains(position));
    assert(all.to_multiset().count(position) > 0);
    assert(order.contains(position));
    choose|at: int| 0 <= at < order.len() && order[at] == position
}

/// Filtering one more item appends it exactly if it is kept.
pub proof fn lemma_filter_step<T>(s: Seq<T>, keep: spec_fn(T) -> bool, at: int)
    requires
        0 <= at < s.len(),
    ensures
        s.take(at + 1).filter(keep) == if keep(s[at]) {
            s.take(at).filter(keep).push(s[at])
        } else {
            s.take(at).filter(keep)
        },
{
    reveal(Seq::filter);
    assert(s.take(at + 1).drop_last() =~= s.take(at));
}

/// Filtering keeps nothing exactly if nothing is to be kept, one item exactly if one is, and more
/// exactly if several are.
pub proof fn lemma_filter_count<T>(s: Seq<T>, keep: spec_fn(T) -> bool)
    ensures
        s.filter(keep).len() == 0 <==> forall|i: int|
            0 <= i < s.len() ==> !keep(#[trigger] s[i]),
        s.filter(keep).len() == 1 ==> exists|i: int|
            0 <= i < s.len() && keep(#[trigger] s[i]) && s[i] == s.filter(keep)[0] && forall|j: int|
                0 <= j < s.len() && keep(#[trigger] s[j]) ==> j == i,
        s.filter(keep).len() > 1 ==> exists|i: int, j: int|
            0 <= i < j < s.len() && keep(#[trigger] s[i]) && keep(#[trigger] s[j]),
    decreases s.len(),
{
    reveal(Seq::filter);
    if s.len() > 0 {
        let init = s.drop_last();
        let last = s.len() - 1;
        lemma_filter_count(init, keep);
        assert forall|i: int| 0 <= i < last implies #[trigger] s[i] == init[i] by {}
        if keep(s[last]) {
            if init.filter(keep).len() == 0 {
                assert forall|j: int| 0 <= j < s.len() && keep(#[trigger] s[j]) implies j
                    == last by {
                    if j < last {
                        assert(!keep(init[j]));
                    }
                }
            } else {
                let i = choose|i: int| 0 <= i < init.len() && keep(#[trigger] init[i]);
                assert(keep(s[i]) && keep(s[last]));
            }
        } else if init.filter(keep).len() == 1 {
            let i = choose|i: int|
                0 <= i < init.len() && keep(#[trigger] init[i]) && init[i] == init.filter(keep)[0]
                    && forall|j: int|
                    0 <= j < init.len() && keep(#[trigger] init[j]) ==> j == i;
            assert(keep(s[i]));
            assert forall|j: int| 0 <= j < s.len() && keep(#[trigger] s[j]) implies j == i by {
                if j < last {
                    assert(keep(init[j]));
                }
            }
        } else if init.filter(keep).len() > 1 {
            let (i, j) = choose|i: int, j: int|
                0 <= i < j < init.len() && keep(#[trigger] init[i]) && keep(#[trigger] init[j]);
            assert(keep(s[i]) && keep(s[j]));
        }
        if s.filter(keep).len() == 0 {
            assert forall|i: int| 0 <= i < s.len() implies !keep(#[trigger] s[i]) by {
                if i < last {
                    assert(!keep(init[i]));
                }
            }
        }
    }
}

/// Whatever filtering keeps was there and is to be kept, and whatever was there and is to be kept is
/// kept.
pub proof fn lemma_filter_keeps<T>(s: Seq<T>, keep: spec_fn(T) -> bool)
    ensures
        forall|i: int|
            0 <= i < s.filter(keep).len() ==> s.contains(#[trigger] s.filter(keep)[i]) && keep(
                s.filter(keep)[i],
            ),
        forall|i: int|
            0 <= i < s.len() && keep(#[trigger] s[i]) ==> s.filter(keep).contains(s[i]),
    decreases s.len(),
{
    reveal(Seq::filter);
    if s.len() > 0 {
        let init = s.drop_last();
        let last = s.len() - 1;
        let kept = s.filter(keep);
        lemma_filter_keeps(init, keep);
        assert forall|i: int| 0 <= i < kept.len() implies s.contains(#[trigger] kept[i]) && keep(
            kept[i],
        ) by {
            if i < init.filter(keep).len() {
                assert(kept[i] == init.filter(keep)[i]);
                let j = choose|j: int| 0 <= j < init.len() && init[j] == kept[i];
                assert(s[j] == kept[i]);
            } else {
                assert(s[last] == kept[i]);
            }
        }
        assert forall|i: int| 0 <= i < s.len() && keep(#[trigger] s[i]) implies kept.contains(
            s[i],
        ) by {
            if i < last {
                assert(init[i] == s[i]);
                let before = init.filter(keep);
                let j = choose|j: int| 0 <= j < before.len() && before[j] == s[i];
                assert(kept[j] == s[i]);
            } else {
                assert(kept.last() == s[i]);
            }
        }
    }
}

/// An executable rank.
#[derive(Clone, Copy, Debug, PartialEq, Eq, Structural)]
pub struct Key {
    pub first: i128,
    pub second: i128,
    pub third: i128,
    pub fourth: i128,
}

impl View for Key {
    type V = Rank;

    open spec fn view(&self) -> Rank {
        (self.first as int, self.second as int, self.third as int, self.fourth as int)
    }
}

impl Key {
    /// Tells whether this key sorts strictly before `other`.
    pub fn precedes(&self, other: &Key) -> (result: bool)
        ensures
            result == rank_lt(self@, other@),
    {
        if self.first != other.first {
            self.first < other.first
        } else if self.second != other.second {
            self.second < other.second
        } else if self.third != other.third {
            self.third < other.third
        } else {
            self.fourth < other.fourth
        }
    }
}

/// The ranks that a list of optional keys stands for.
pub open spec fn ranks_of(keys: Seq<Option<Key>>) -> Seq<Option<Rank>> {
    Seq::new(
        keys.len(),
        |i: int|
            match keys[i] {
                Some(key) => Some(key@),
                None => None,
            },
    )
}

/// The ranks that a list of keys stands for.
pub open spec fn all_ranks_of(keys: Seq<Key>) -> Seq<Rank> {
    Seq::new(keys.len(), |i: int| keys[i]@)
}

/// Positions as mathematical integers.
pub open spec fn positions(found: Seq<usize>) -> Seq<int> {
    Seq::new(found.len(), |i: int| found[i] as int)
}

/// Finds the first position of a least key.
pub fn first_least_key(keys: &Vec<Option<Key>>) -> (result: Option<usize>)
    ensures
        position(result) == first_least(ranks_of(keys@)),
{
    let ghost ranks = ranks_of(keys@);
    let mut best: Option<usize> = None;
    let mut at: usize = 0;
    while at < keys.len()
        invariant
            at <= keys.len(),
            ranks == ranks_of(keys@),
            match best {
                Some(b) => b < at && is_first_least(ranks.take(at as int), b as int),
                None => forall|i: int| 0 <= i < at ==> (#[trigger] ranks[i]) is None,
            },
        decreases keys.len() - at,
    {
        let ghost before = ranks.take(at as int);
        let ghost after = ranks.take(at + 1);
        assert forall|i: int| 0 <= i < at implies #[trigger] after[i] == before[i] by {}
        match (best, keys[at]) {
            (Some(b), Some(key)) => {
                assert(before[b as int] is Some);
                let held: Key = keys[b].unwrap();
                if key.precedes(&held) {
                    best = Some(at);
                    assert(is_first_least(after, at as int));
                } else {
                    assert(is_first_least(after, b as int));
                }
            },
            (None, Some(_)) => {
                best = Some(at);
                assert(is_first_least(after, at as int));
            },
            (Some(b), None) => {
                assert(is_first_least(after, b as int));
            },
            (None, None) => {},
        }
        at += 1;
    }
    assert(ranks.take(ranks.len() as int) =~= ranks);
    proof {
        match best {
            Some(b) => lemma_first_least(ranks, b as int),
            None => lemma_nothing_ranked(ranks),
        }
    }
    best
}

/// Finds the last position of a greatest key.
pub fn last_greatest_key(keys: &Vec<Option<Key>>) -> (result: Option<usize>)
    ensures
        position(result) == last_greatest(ranks_of(keys@)),
{
    let ghost ranks = ranks_of(keys@);
    let mut best: Option<usize> = None;
    let mut at: usize = 0;
    while at < keys.len()
        invariant
            at <= keys.len(),
            ranks == ranks_of(keys@),
            match best {
                Some(b) => b < at && is_last_greatest(ranks.take(at as int), b as int),
                None => forall|i: int| 0 <= i < at ==> (#[trigger] ranks[i]) is None,
            },
        decreases keys.len() - at,
    {
        let ghost before = ranks.take(at as int);
        let ghost after = ranks.take(at + 1);
        assert forall|i: int| 0 <= i < at implies #[trigger] after[i] == before[i] by {}
        match (best, keys[at]) {
            (Some(b), Some(key)) => {
                assert(before[b as int] is Some);
                let held: Key = keys[b].unwrap();
                if !key.precedes(&held) {
                    best = Some(at);
                    assert(is_last_greatest(after, at as int));
                } else {
                    assert(is_last_greatest(after, b as int));
                }
            },
            (None, Some(_)) => {
                best = Some(at);
                assert(is_last_greatest(after, at as int));
            },
            (Some(b), None) => {
                assert(is_last_greatest(after, b as int));
            },
            (None, None) => {},
        }
        at += 1;
    }
    assert(ranks.take(ranks.len() as int) =~= ranks);
    proof {
        match best {
            Some(b) => lemma_last_greatest(ranks, b as int),
            None => lemma_nothing_ranked(ranks),
        }
    }
    best
}

/// Arranges the positions of `keys` in ascending order; equal keys keep their order.
pub fn stable_order_of_keys(keys: &Vec<Key>) -> (result: Vec<usize>)
    ensures
        positions(result@) == stable_order(all_ranks_of(keys@)),
        result.len() == keys.len(),
        forall|i: int| 0 <= i < result.len() ==> (#[trigger] result@[i]) < keys.len(),
{
    let ghost ranks = all_ranks_of(keys@);
    let ghost leq = stable_leq(ranks);
    let mut order: Vec<usize> = Vec::new();
    let mut next: usize = 0;
    assert(positions(order@) =~= Seq::new(0, |i: int| i));
    while next < keys.len()
        invariant
            next <= keys.len(),
            ranks == all_ranks_of(keys@),
            leq == stable_leq(ranks),
            order.len() == next,
            forall|i: int| 0 <= i < order.len() ==> (#[trigger] order@[i]) < next,
            sorted_by(positions(order@), leq),
            positions(order@).to_multiset() == Seq::new(next as nat, |i: int| i).to_multiset(),
        decreases keys.len() - next,
    {
        let mut slot: usize = order.len();
        while slot > 0 && keys[next].precedes(&keys[order[slot - 1]])
            invariant
                slot <= order.len(),
                next < keys.len(),
                ranks == all_ranks_of(keys@),
                order.len() == next,
                forall|i: int| 0 <= i < order.len() ==> (#[trigger] order@[i]) < next,
                forall|i: int|
                    slot <= i < order.len() ==> rank_lt(
                        ranks[next as int],
                        ranks[(#[trigger] order@[i]) as int],
                    ),
            decreases slot,
        {
            slot -= 1;
        }
        let ghost before = positions(order@);
        order.insert(slot, next);
        proof {
            let after = positions(order@);
            assert(after =~= before.insert(slot as int, next as int));
            assert forall|i: int, j: int| 0 <= i < j < after.len() implies #[trigger] leq(
                after[i],
                after[j],
            ) by {
                lemma_inserted_in_order(ranks, before, slot as int, next as int, i, j);
            }
            lemma_insert_to_multiset(before, slot as int, next as int);
            let grown = Seq::new((next + 1) as nat, |i: int| i);
            let shorter = Seq::new(next as nat, |i: int| i);
            assert(grown =~= shorter.push(next as int));
            vstd::seq_lib::to_multiset_build(shorter, next as int);
        }
        next += 1;
    }
    proof {
        lemma_stable_order(ranks, positions(order@));
    }
    order
}

proof fn lemma_inserted_in_order(
    ranks: Seq<Rank>,
    before: Seq<int>,
    slot: int,
    next: int,
    i: int,
    j: int,
)
    requires
        sorted_by(before, stable_leq(ranks)),
        0 <= slot <= before.len(),
        forall|k: int| 0 <= k < before.len() ==> (#[trigger] before[k]) < next,
        forall|k: int|
            slot <= k < before.len() ==> rank_lt(ranks[next], ranks[#[trigger] before[k]]),
        slot > 0 ==> !rank_lt(ranks[next], ranks[before[slot - 1]]),
        0 <= i < j < before.len() + 1,
    ensures
        stable_leq(ranks)(before.insert(slot, next)[i], before.insert(slot, next)[j]),
{
    let leq = stable_leq(ranks);
    if j < slot {
        assert(leq(before[i], before[j]));
    } else if i >= slot {
        if i > slot {
            assert(leq(before[i - 1], before[j - 1]));
        } else {
            assert(rank_lt(ranks[next], ranks[before[j - 1]]));
        }
    } else if j == slot {
        if i < slot - 1 {
            assert(leq(before[i], before[slot - 1]));
        }
        assert(before[i] < next);
    } else {
        assert(leq(before[i], before[j - 1]));
    }
}

proof fn lemma_insert_to_multiset(s: Seq<int>, slot: int, value: int)
    requires
        0 <= slot <= s.len(),
    ensures
        s.insert(slot, value).to_multiset() == s.to_multiset().insert(value),
{
    broadcast use vstd::multiset::group_multiset_axioms;

    let head = s.take(slot);
    let tail = s.skip(slot);
    assert(s =~= head + tail);
    assert(s.insert(slot, value) =~= head.push(value) + tail);
    vstd::seq_lib::lemma_multiset_commutative(head, tail);
    vstd::seq_lib::lemma_multiset_commutative(head.push(value), tail);
    vstd::seq_lib::to_multiset_build(head, value);
    assert(s.insert(slot, value).to_multiset() =~= s.to_multiset().insert(value));
}

/// No position occurs twice in the stable order.
pub proof fn lemma_stable_order_is_distinct(ranks: Seq<Rank>)
    ensures
        stable_order(ranks).no_duplicates(),
{
    broadcast use vstd::seq_lib::group_to_multiset_ensures;

    let sorted = stable_order(ranks);
    let all = Seq::new(ranks.len(), |i: int| i);
    stable_order_is_a_sorted_permutation(ranks);
    assert(all.no_duplicates());
    all.lemma_multiset_has_no_duplicates();
    sorted.lemma_multiset_has_no_duplicates_conv();
}

/// A filter keeps exactly the items that are to be kept, once each and in their order: `places` says
/// where they stood.
pub proof fn lemma_filter_order<T>(s: Seq<T>, keep: spec_fn(T) -> bool) -> (places: Seq<int>)
    ensures
        places.len() == s.filter(keep).len(),
        forall|i: int|
            0 <= i < places.len() ==> 0 <= #[trigger] places[i] < s.len() && keep(s[places[i]])
                && s.filter(keep)[i] == s[places[i]],
        forall|i: int, j: int|
            0 <= i < j < places.len() ==> #[trigger] places[i] < #[trigger] places[j],
        forall|k: int| 0 <= k < s.len() && keep(#[trigger] s[k]) ==> places.contains(k),
    decreases s.len(),
{
    reveal(Seq::filter);
    if s.len() == 0 {
        Seq::empty()
    } else {
        let init = s.drop_last();
        let last = s.len() - 1;
        let before = lemma_filter_order(init, keep);
        let places = if keep(s[last]) {
            before.push(last)
        } else {
            before
        };
        assert forall|i: int| 0 <= i < places.len() implies 0 <= #[trigger] places[i] < s.len()
            && keep(s[places[i]]) && s.filter(keep)[i] == s[places[i]] by {
            if i < before.len() {
                assert(before[i] == places[i]);
                assert(init[before[i]] == s[places[i]]);
            }
        }
        assert forall|i: int, j: int| 0 <= i < j < places.len() implies #[trigger] places[i]
            < #[trigger] places[j] by {
            assert(before[i] == places[i]);
            if j < before.len() {
                assert(before[j] == places[j]);
            }
        }
        assert forall|k: int| 0 <= k < s.len() && keep(#[trigger] s[k]) implies places.contains(
            k,
        ) by {
            if k < last {
                assert(init[k] == s[k]);
                let i = choose|i: int| 0 <= i < before.len() && before[i] == k;
                assert(places[i] == k);
            } else {
                assert(places.last() == k);
            }
        }
        places
    }
}

/// Keys compare by their first part, equal first parts by the second, and so on.
pub proof fn keys_compare_part_by_part(a: Key, b: Key, result: bool)
    requires
        call_ensures(Key::precedes, (&a, &b), result),
    ensures
        a.first != b.first ==> (result <==> a.first < b.first),
        a.first == b.first && a.second != b.second ==> (result <==> a.second < b.second),
        a.first == b.first && a.second == b.second && a.third != b.third ==> (result <==> a.third
            < b.third),
        a.first == b.first && a.second == b.second && a.third == b.third ==> (result <==> a.fourth
            < b.fourth),
{
}

/// Of all keys that sort first, the first one is found; of all that sort last, the last one. Nothing
/// is found only where there is no key.
pub proof fn searches_find_the_extreme_keys(
    keys: Vec<Option<Key>>,
    least: Option<usize>,
    greatest: Option<usize>,
    at: int,
    before: bool,
    after: bool,
)
    requires
        call_ensures(first_least_key, (&keys,), least),
        call_ensures(last_greatest_key, (&keys,), greatest),
        0 <= at < keys@.len(),
        keys@[at] is Some,
        least matches Some(found) ==> call_ensures(
            Key::precedes,
            (&keys@[found as int]->0, &keys@[at]->0),
            before,
        ),
        greatest matches Some(found) ==> call_ensures(
            Key::precedes,
            (&keys@[at]->0, &keys@[found as int]->0),
            after,
        ),
    ensures
        least matches Some(found) && found < keys@.len() && keys@[found as int] is Some && (before
            || found <= at && keys@[found as int]->0@ == keys@[at]->0@),
        greatest matches Some(found) && found < keys@.len() && keys@[found as int] is Some && (after
            || found >= at && keys@[found as int]->0@ == keys@[at]->0@),
{
    let ranks = ranks_of(keys@);
    choices_are_optimal(ranks);
    assert(ranks[at] is Some);
    ranks_are_totally_ordered(ranks[least->0 as int]->0, ranks[at]->0, ranks[at]->0);
    ranks_are_totally_ordered(ranks[greatest->0 as int]->0, ranks[at]->0, ranks[at]->0);
}

/// Sorting lists every position once, no key after one that sorts behind it, and equal keys in their
/// order.
pub proof fn sorting_keeps_equal_keys_in_order(
    keys: Vec<Key>,
    order: Vec<usize>,
    early: int,
    late: int,
    misplaced: bool,
)
    requires
        call_ensures(stable_order_of_keys, (&keys,), order),
        0 <= early < late < order@.len(),
        call_ensures(
            Key::precedes,
            (&keys@[order@[late] as int], &keys@[order@[early] as int]),
            misplaced,
        ),
    ensures
        order@.len() == keys@.len(),
        order@[early] < keys@.len(),
        order@[late] < keys@.len(),
        !misplaced,
        keys@[order@[early] as int]@ == keys@[order@[late] as int]@ ==> order@[early] < order@[late],
        order@[early] != order@[late],
{
    let ranks = all_ranks_of(keys@);
    let sorted = stable_order(ranks);
    let all = Seq::new(ranks.len(), |i: int| i);
    stable_order_is_a_sorted_permutation(ranks);
    lemma_stable_leq_is_total(ranks);
    all.lemma_sort_by_ensures(stable_leq(ranks));
    assert(positions(order@)[early] == sorted[early]);
    assert(positions(order@)[late] == sorted[late]);
    assert(stable_leq(ranks)(sorted[early], sorted[late]));
    lemma_stable_order_is_distinct(ranks);
}

} // verus!
