//! Sequences read as sets: appending only what is not yet present.

use vstd::prelude::*;

verus! {

/// `seen` followed by the elements of `items` that occur neither in `seen` nor
/// earlier in `items`, in the order of their first occurrence.
pub open spec fn extend_unique<T>(seen: Seq<T>, items: Seq<T>) -> Seq<T>
    decreases items.len(),
{
    if items.len() == 0 {
        seen
    } else {
        let front = extend_unique(seen, items.drop_last());
        if front.contains(items.last()) {
            front
        } else {
            front.push(items.last())
        }
    }
}

/// The elements of `items`, each kept at its first occurrence only.
pub open spec fn dedup<T>(items: Seq<T>) -> Seq<T> {
    extend_unique(Seq::<T>::empty(), items)
}

/// Extending adds exactly the elements of `items`, and introduces no repetition.
pub proof fn lemma_extend_unique<T>(seen: Seq<T>, items: Seq<T>)
    ensures
        forall|x: T| #[trigger]
            extend_unique(seen, items).contains(x) <==> seen.contains(x) || items.contains(x),
        seen.no_duplicates() ==> extend_unique(seen, items).no_duplicates(),
        seen.is_prefix_of(extend_unique(seen, items)),
    decreases items.len(),
{
    broadcast use vstd::seq_lib::group_seq_properties;

    if items.len() > 0 {
        let init = items.drop_last();
        let last = items.last();
        lemma_extend_unique(seen, init);
        let front = extend_unique(seen, init);
        assert(items =~= init.push(last));
        assert forall|x: T| #[trigger]
            extend_unique(seen, items).contains(x) <==> seen.contains(x) || items.contains(
                x,
            ) by {
            assert(items.contains(x) <==> init.contains(x) || x == last);
        }
    }
}

/// Extending in two steps is extending by the concatenation.
pub proof fn lemma_extend_unique_concat<T>(seen: Seq<T>, first: Seq<T>, second: Seq<T>)
    ensures
        extend_unique(extend_unique(seen, first), second) == extend_unique(seen, first + second),
    decreases second.len(),
{
    if second.len() == 0 {
        assert(first + second =~= first);
    } else {
        lemma_extend_unique_concat(seen, first, second.drop_last());
        assert((first + second).drop_last() =~= first + second.drop_last());
        assert((first + second).last() == second.last());
    }
}

/// Deduplication keeps every element and leaves no repetition.
pub proof fn lemma_dedup_set<T>(items: Seq<T>)
    ensures
        dedup(items).no_duplicates(),
        dedup(items).to_set() == items.to_set(),
{
    lemma_extend_unique(Seq::<T>::empty(), items);
    assert(dedup(items).to_set() =~= items.to_set());
}

} // verus!
