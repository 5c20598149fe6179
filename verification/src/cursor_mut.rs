//! The cursor that gives exclusive access.

use crate::model::produced;
use crate::model::retained;
use vstd::prelude::*;

verus! {

/// A cursor that hands out exclusive references to the elements of a
/// mutably borrowed slice, front to back.
///
/// Each call splits the slice the cursor holds into its first element and the
/// rest; the cursor keeps the rest and gives the first element away. A handle
/// and the cursor therefore never reach the same element, and handles from
/// different calls may be alive at the same time.
pub struct MyMutableIterator<'iter, T> {
    /// The elements that have not been produced yet.
    pub slice: &'iter mut [T],
}

impl<'iter, T> View for MyMutableIterator<'iter, T> {
    type V = Seq<T>;

    /// The elements that have not been produced yet, in order, as they are now.
    open spec fn view(&self) -> Seq<T> {
        self.slice@
    }
}

impl<'iter, T> MyMutableIterator<'iter, T> {
    /// A cursor over all of `slice`. Whatever the cursor's slice holds when the
    /// borrow ends is what `slice` holds then.
    pub fn new(slice: &'iter mut [T]) -> (cursor: Self)
        ensures
            cursor@ == old(slice)@,
            final(slice)@ == final(cursor.slice)@,
    {
        MyMutableIterator { slice }
    }

    /// Produces a handle to the first element that is left and moves past it,
    /// or produces nothing when no element is left.
    ///
    /// The slice held before the call ends up as the value last written through
    /// the handle, followed by whatever the slice held after the call ends up
    /// as: the two share no element. An exhausted cursor holds an empty slice
    /// before and after the call, and nothing is written.
    pub fn next(&mut self) -> (item: Option<&'iter mut T>)
        ensures
            final(self)@ == retained(old(self)@),
            match item {
                Some(element) => {
                    &&& produced(old(self)@) == Some(*element)
                    &&& final(old(self).slice)@
                        == seq![*final(element)] + final(final(self).slice)@
                },
                None => {
                    &&& produced(old(self)@) is None
                    &&& final(old(self).slice)@ == old(self)@
                    &&& final(final(self).slice)@ == final(self)@
                },
            },
    {
        let mut held: &'iter mut [T] = &mut [];
        std::mem::swap(&mut self.slice, &mut held);
        if held.is_empty() {
            return None;
        }
        let (first, rest) = held.split_at_mut(1);
        self.slice = rest;
        Some(&mut first[0])
    }
}

/// Adds one to every element of `collection`, in place, by walking it once
/// with a [`MyMutableIterator`] and writing through each handle.
///
/// No element may be `i32::MAX`: the sum has to fit.
pub fn increment_each(collection: &mut [i32])
    requires
        forall|i: int| 0 <= i < old(collection)@.len() ==> old(collection)@[i] < i32::MAX,
    ensures
        final(collection)@.len() == old(collection)@.len(),
        forall|i: int|
            0 <= i < old(collection)@.len() ==> final(collection)@[i] == old(collection)@[i] + 1,
{
    let ghost mut written: Seq<i32> = Seq::empty();
    let mut cursor = MyMutableIterator::new(collection);
    loop
        invariant
            written.len() + cursor@.len() == old(collection)@.len(),
            cursor@ == old(collection)@.skip(written.len() as int),
            forall|i: int| 0 <= i < old(collection)@.len() ==> old(collection)@[i] < i32::MAX,
            forall|i: int| 0 <= i < written.len() ==> written[i] == old(collection)@[i] + 1,
            after_borrow(collection)@ == written + final(cursor.slice)@,
        ensures
            cursor@.len() == 0,
            final(cursor.slice)@.len() == 0,
        decreases cursor@.len(),
    {
        match cursor.next() {
            Some(element) => {
                *element = *element + 1;
                proof {
                    written = written.push(*element);
                }
            },
            None => {
                break;
            },
        }
    }
}

} // verus!
