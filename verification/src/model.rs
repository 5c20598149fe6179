//! The model of a cursor: the sequence of elements it has not produced yet.
//!
//! One call is described by two functions of that sequence, [`produced`] and
//! [`retained`]; a run of calls by [`retained_after`]. The proof functions
//! below state what a full walk over a collection looks like.

use vstd::prelude::*;

verus! {

/// What one call produces when the cursor still holds `remaining`: the first
/// element, or nothing once the cursor is exhausted.
pub open spec fn produced<T>(remaining: Seq<T>) -> Option<T> {
    if remaining.len() == 0 {
        None
    } else {
        Some(remaining[0])
    }
}

/// What the cursor holds after one call: everything but the first element.
/// An exhausted cursor stays as it is.
pub open spec fn retained<T>(remaining: Seq<T>) -> Seq<T> {
    if remaining.len() == 0 {
        remaining
    } else {
        remaining.skip(1)
    }
}

/// What a cursor that started with `remaining` holds after `calls` calls.
pub open spec fn retained_after<T>(remaining: Seq<T>, calls: nat) -> Seq<T>
    decreases calls,
{
    if calls == 0 {
        remaining
    } else {
        retained(retained_after(remaining, (calls - 1) as nat))
    }
}

/// After `calls` calls the cursor holds the collection without its first
/// `calls` elements, and nothing at all once `calls` reaches the length.
pub proof fn lemma_retained_after<T>(collection: Seq<T>, calls: nat)
    ensures
        calls <= collection.len() ==> retained_after(collection, calls) == collection.skip(
            calls as int,
        ),
        calls >= collection.len() ==> retained_after(collection, calls) == Seq::<T>::empty(),
    decreases calls,
{
    if calls > 0 {
        lemma_retained_after(collection, (calls - 1) as nat);
        if calls <= collection.len() {
            assert(collection.skip(calls - 1).skip(1) == collection.skip(calls as int));
        }
    } else {
        assert(collection.skip(0) == collection);
    }
}

/// A walk produces every element exactly once, in the order of the collection:
/// call number `k + 1` produces `collection[k]`. The call after the last
/// element produces nothing.
pub proof fn lemma_walk_follows_collection<T>(collection: Seq<T>)
    ensures
        forall|k: nat|
            k < collection.len() ==> produced(#[trigger] retained_after(collection, k)) == Some(
                collection[k as int],
            ),
        produced(retained_after(collection, collection.len())) is None,
{
    assert forall|k: nat| k < collection.len() implies produced(
        #[trigger] retained_after(collection, k),
    ) == Some(collection[k as int]) by {
        lemma_retained_after(collection, k);
    }
    lemma_retained_after(collection, collection.len());
}

/// Exhaustion is permanent: once a call has produced nothing, every later
/// call produces nothing either, and the cursor no longer changes.
pub proof fn lemma_exhaustion_is_permanent<T>(collection: Seq<T>, calls: nat, more: nat)
    requires
        produced(retained_after(collection, calls)) is None,
    ensures
        produced(retained_after(collection, calls + more)) is None,
        retained_after(collection, calls + more) == retained_after(collection, calls),
    decreases more,
{
    if more > 0 {
        lemma_exhaustion_is_permanent(collection, calls, (more - 1) as nat);
        assert(retained_after(collection, calls + more) == retained(
            retained_after(collection, (calls + more - 1) as nat),
        ));
    }
}

/// Exhaustion comes after exactly as many calls as the collection has
/// elements: no call before that produces nothing, every call from then on
/// does.
pub proof fn lemma_exhausted_exactly_at_length<T>(collection: Seq<T>, calls: nat)
    ensures
        produced(retained_after(collection, calls)) is None <==> calls >= collection.len(),
{
    lemma_retained_after(collection, calls);
}

/// A cursor over an empty collection is exhausted from the start.
pub proof fn lemma_empty_collection<T>()
    ensures
        produced(Seq::<T>::empty()) is None,
        retained(Seq::<T>::empty()) == Seq::<T>::empty(),
{
}

/// A cursor over a single element produces that element, then nothing.
pub proof fn lemma_single_element<T>(x: T)
    ensures
        produced(seq![x]) == Some(x),
        produced(retained(seq![x])) is None,
{
}

} // verus!
