use vstd::prelude::*;

verus! {

/// The position of the last element of `items` that `wanted` accepts.
pub open spec fn last_match<T>(items: Seq<T>, wanted: spec_fn(T) -> bool) -> Option<int>
    decreases items.len(),
{
    if items.len() == 0 {
        None
    } else if wanted(items.last()) {
        Some(items.len() - 1)
    } else {
        last_match(items.drop_last(), wanted)
    }
}

/// What `last_match` finds is accepted, and nothing behind it is.
pub proof fn lemma_last_match<T>(items: Seq<T>, wanted: spec_fn(T) -> bool)
    ensures
        match last_match(items, wanted) {
            Some(i) => 0 <= i < items.len() && wanted(items[i]) && forall|j: int|
                i < j < items.len() ==> !wanted(#[trigger] items[j]),
            None => forall|j: int| 0 <= j < items.len() ==> !wanted(#[trigger] items[j]),
        },
    decreases items.len(),
{
    if items.len() > 0 && !wanted(items.last()) {
        lemma_last_match(items.drop_last(), wanted);
        assert forall|j: int| 0 <= j < items.len() - 1 implies items[j] == items.drop_last()[j] by {}
    }
}

/// An accepted element with nothing accepted behind it is what `last_match` finds.
pub proof fn lemma_last_match_found<T>(items: Seq<T>, wanted: spec_fn(T) -> bool, i: int)
    requires
        0 <= i < items.len(),
        wanted(items[i]),
        forall|j: int| i < j < items.len() ==> !wanted(#[trigger] items[j]),
    ensures
        last_match(items, wanted) == Some(i),
{
    lemma_last_match(items, wanted);
}

/// Where nothing is accepted, `last_match` finds nothing.
pub proof fn lemma_last_match_none<T>(items: Seq<T>, wanted: spec_fn(T) -> bool)
    requires
        forall|j: int| 0 <= j < items.len() ==> !wanted(#[trigger] items[j]),
    ensures
        last_match(items, wanted) is None,
{
    lemma_last_match(items, wanted);
}

} // verus!
