//! Stable ordering of stored records by a rank, as the store returns them:
//! delivery hops by hop index, component-trace events by sequence, system
//! event summaries by when they were first seen.
use vstd::prelude::*;

verus! {

/// `a` ranks no later than `b`: lexicographic on the two positions.
pub open spec fn rank_le(a: (int, int), b: (int, int)) -> bool {
    a.0 < b.0 || (a.0 == b.0 && a.1 <= b.1)
}

/// A record that knows its rank.
pub trait Ranked: Sized {
    spec fn rank(&self) -> (int, int);

    /// Whether this record ranks no later than `other`.
    fn ranks_no_later_than(&self, other: &Self) -> (answer: bool)
        ensures
            answer == rank_le(self.rank(), other.rank()),
    ;
}

/// Insert `item` after every element of `sorted` that ranks no later than it,
/// walking from the back: the step of a stable insertion sort.
pub open spec fn insert_ranked<T: Ranked>(sorted: Seq<T>, item: T) -> Seq<T>
    decreases sorted.len(),
{
    if sorted.len() == 0 {
        seq![item]
    } else if rank_le(sorted.last().rank(), item.rank()) {
        sorted.push(item)
    } else {
        insert_ranked(sorted.drop_last(), item).push(sorted.last())
    }
}

/// The stable sort of a sequence by rank.
pub open spec fn sort_ranked<T: Ranked>(items: Seq<T>) -> Seq<T>
    decreases items.len(),
{
    if items.len() == 0 {
        items
    } else {
        insert_ranked(sort_ranked(items.drop_last()), items.last())
    }
}

/// A sequence in non-decreasing rank.
pub open spec fn ranked_in_order<T: Ranked>(items: Seq<T>) -> bool {
    forall|i: int, j: int| 0 <= i < j < items.len() ==> rank_le(#[trigger] items[i].rank(), #[trigger] items[j].rank())
}

/// Inserting at the position found from the back is `insert_ranked`.
proof fn lemma_insert_at<T: Ranked>(sorted: Seq<T>, item: T, position: int)
    requires
        0 <= position <= sorted.len(),
        forall|j: int| position <= j < sorted.len() ==> !rank_le(#[trigger] sorted[j].rank(), item.rank()),
        position == 0 || rank_le(sorted[position - 1].rank(), item.rank()),
    ensures
        insert_ranked(sorted, item) == sorted.insert(position, item),
    decreases sorted.len(),
{
    if sorted.len() == 0 {
        assert(sorted.insert(position, item) =~= seq![item]);
    } else if position == sorted.len() {
        assert(rank_le(sorted.last().rank(), item.rank()));
        assert(sorted.insert(position, item) =~= sorted.push(item));
    } else {
        assert(!rank_le(sorted[sorted.len() - 1].rank(), item.rank()));
        let rest = sorted.drop_last();
        assert forall|j: int| position <= j < rest.len() implies !rank_le(#[trigger] rest[j].rank(), item.rank()) by {
            assert(rest[j] == sorted[j]);
        }
        if position > 0 {
            assert(rest[position - 1] == sorted[position - 1]);
        }
        lemma_insert_at(rest, item, position);
        assert(rest.insert(position, item).push(sorted.last()) =~= sorted.insert(position, item));
    }
}

/// Insertion into an ordered sequence keeps it ordered and adds exactly the item.
pub proof fn lemma_insert_ranked<T: Ranked>(sorted: Seq<T>, item: T)
    requires
        ranked_in_order(sorted),
    ensures
        ranked_in_order(insert_ranked(sorted, item)),
        insert_ranked(sorted, item).to_multiset() == sorted.to_multiset().insert(item),
        insert_ranked(sorted, item).len() == sorted.len() + 1,
        forall|j: int| 0 <= j < insert_ranked(sorted, item).len() ==> (#[trigger] insert_ranked(sorted, item)[j] == item
            || sorted.contains(insert_ranked(sorted, item)[j])),
    decreases sorted.len(),
{
    broadcast use vstd::seq_lib::group_to_multiset_ensures;
    if sorted.len() == 0 {
        assert(seq![item] =~= Seq::<T>::empty().push(item));
    } else if rank_le(sorted.last().rank(), item.rank()) {
        let result = sorted.push(item);
        assert forall|i: int, j: int| 0 <= i < j < result.len() implies rank_le(
            #[trigger] result[i].rank(),
            #[trigger] result[j].rank(),
        ) by {
            if j == result.len() - 1 {
                if i < sorted.len() - 1 {
                    assert(rank_le(sorted[i].rank(), sorted[sorted.len() - 1].rank()));
                }
            }
        }
        assert forall|j: int| 0 <= j < result.len() implies (#[trigger] result[j] == item
            || sorted.contains(result[j])) by {
            if j < sorted.len() {
                assert(result[j] == sorted[j]);
            }
        }
    } else {
        let rest = sorted.drop_last();
        let last = sorted.last();
        assert(ranked_in_order(rest)) by {
            assert forall|i: int, j: int| 0 <= i < j < rest.len() implies rank_le(
                #[trigger] rest[i].rank(),
                #[trigger] rest[j].rank(),
            ) by {
                assert(rest[i] == sorted[i]);
                assert(rest[j] == sorted[j]);
            }
        }
        lemma_insert_ranked(rest, item);
        let inner = insert_ranked(rest, item);
        let result = inner.push(last);
        assert(sorted == rest.push(last));
        assert forall|i: int, j: int| 0 <= i < j < result.len() implies rank_le(
            #[trigger] result[i].rank(),
            #[trigger] result[j].rank(),
        ) by {
            if j == result.len() - 1 {
                assert(result[i] == inner[i]);
                if inner[i] == item {
                    assert(!rank_le(last.rank(), item.rank()));
                } else {
                    assert(rest.contains(inner[i]));
                    let a = choose|a: int| 0 <= a < rest.len() && rest[a] == inner[i];
                    assert(rank_le(sorted[a].rank(), sorted[sorted.len() - 1].rank()));
                }
            } else {
                assert(result[i] == inner[i]);
                assert(result[j] == inner[j]);
            }
        }
        assert forall|j: int| 0 <= j < result.len() implies (#[trigger] result[j] == item
            || sorted.contains(result[j])) by {
            if j < inner.len() {
                assert(result[j] == inner[j]);
                if inner[j] != item {
                    assert(rest.contains(inner[j]));
                    let a = choose|a: int| 0 <= a < rest.len() && rest[a] == inner[j];
                    assert(sorted[a] == inner[j]);
                }
            } else {
                assert(result[j] == sorted[sorted.len() - 1]);
            }
        }
        assert(sorted.to_multiset() == rest.to_multiset().insert(last));
    }
}

/// The stable sort is ordered, and it is a permutation of its input.
pub proof fn lemma_sort_ranked<T: Ranked>(items: Seq<T>)
    ensures
        ranked_in_order(sort_ranked(items)),
        sort_ranked(items).to_multiset() == items.to_multiset(),
        sort_ranked(items).len() == items.len(),
    decreases items.len(),
{
    broadcast use vstd::seq_lib::group_to_multiset_ensures;
    if items.len() > 0 {
        lemma_sort_ranked(items.drop_last());
        lemma_insert_ranked(sort_ranked(items.drop_last()), items.last());
        assert(items == items.drop_last().push(items.last()));
    }
}

/// Sort records by rank, keeping records of equal rank in their input order.
pub fn stable_sort<T: Ranked>(items: Vec<T>) -> (sorted: Vec<T>)
    ensures
        sorted@ == sort_ranked(items@),
{
    let ghost given = items@;
    let mut remaining = items;
    let mut sorted: Vec<T> = Vec::new();
    let total = remaining.len();
    let mut taken: usize = 0;
    while remaining.len() > 0
        invariant
            total == given.len(),
            taken + remaining@.len() == total,
            remaining@ == given.skip(taken as int),
            sorted@ == sort_ranked(given.take(taken as int)),
        decreases remaining@.len(),
    {
        let item = remaining.remove(0);
        proof {
            lemma_sort_ranked(given.take(taken as int));
            assert(item == given[taken as int]);
            assert(given.take(taken as int + 1).drop_last() == given.take(taken as int));
        }
        let mut position = sorted.len();
        while position > 0 && !sorted[position - 1].ranks_no_later_than(&item)
            invariant
                position <= sorted@.len(),
                forall|j: int| position <= j < sorted@.len() ==> !rank_le(#[trigger] sorted@[j].rank(), item.rank()),
            decreases position,
        {
            position = position - 1;
        }
        proof {
            lemma_insert_at(sorted@, item, position as int);
        }
        sorted.insert(position, item);
        taken = taken + 1;
        proof {
            assert(remaining@ =~= given.skip(taken as int));
        }
    }
    proof {
        assert(given.take(total as int) == given);
    }
    sorted
}

} // verus!
