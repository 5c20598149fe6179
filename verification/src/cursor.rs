//! The read-only cursor.

use crate::model::produced;
use crate::model::retained;
use vstd::prelude::*;

verus! {

/// A cursor that hands out shared references to the elements of a borrowed
/// slice, front to back.
///
/// The cursor borrows the collection for `'a`, and so do the references it
/// produces: they stay usable after the cursor has moved on or is gone.
pub struct MyIterator<'a, T> {
    /// The elements that have not been produced yet.
    pub slice: &'a [T],
}

impl<'a, T> View for MyIterator<'a, T> {
    type V = Seq<T>;

    /// The elements that have not been produced yet, in order.
    open spec fn view(&self) -> Seq<T> {
        self.slice@
    }
}

impl<'a, T> MyIterator<'a, T> {
    /// A cursor over all of `slice`.
    pub fn new(slice: &'a [T]) -> (cursor: Self)
        ensures
            cursor@ == slice@,
    {
        MyIterator { slice }
    }

    /// Produces the first element that is left and moves past it, or produces
    /// nothing and leaves the cursor as it is when no element is left.
    pub fn next(&mut self) -> (item: Option<&'a T>)
        ensures
            final(self)@ == retained(old(self)@),
            match item {
                Some(element) => produced(old(self)@) == Some(*element),
                None => produced(old(self)@) is None,
            },
    {
        let element = self.slice.first()?;
        let (_, rest) = self.slice.split_at(1);
        self.slice = rest;
        Some(element)
    }
}

} // verus!
