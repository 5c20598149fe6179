//! Forward-only cursors over a borrowed slice.
//!
//! [`MyIterator`] hands out shared references to the elements of a slice, one
//! per call and front to back; [`MyMutableIterator`] hands out exclusive
//! references, so that a collection can be rewritten in place while it is
//! walked. Neither owns or allocates anything: a cursor is one borrowed
//! slice, and every call that produces an element shortens that slice by its
//! first element.
//!
//! The `model` module holds the mathematical model the contracts are written
//! in, and the laws of a whole walk that follow from it.

pub mod cursor;
pub mod cursor_mut;
pub mod model;

pub use crate::cursor::MyIterator;
pub use crate::cursor_mut::increment_each;
pub use crate::cursor_mut::MyMutableIterator;
