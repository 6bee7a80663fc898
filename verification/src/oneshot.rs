//! The take-once cell that guards completion callbacks.
//!
//! The foreign side promises to invoke a completion callback at most once,
//! but never promises to invoke it at all, and the callback's natural form —
//! a movable closure — cannot be run twice.  The cell resolves this: taking
//! the closure out consumes it, a second take finds the cell empty and is a
//! documented no-op, and a cell destroyed while still armed simply discards
//! its closure.

use vstd::prelude::*;

verus! {

/// A mutually exclusive slot holding at most one movable value.
pub struct OneShotCell<T> {
    slot: Option<T>,
}

impl<T> OneShotCell<T> {
    /// What the cell currently holds.
    pub closed spec fn contents(&self) -> Option<T> {
        self.slot
    }

    /// The cell still holds its value: no take has happened yet.
    pub open spec fn armed(&self) -> bool {
        self.contents() is Some
    }

    /// What one take leaves behind and what it yields: an emptied cell, and
    /// the old contents.
    pub closed spec fn take_spec(self) -> (OneShotCell<T>, Option<T>) {
        (OneShotCell { slot: Option::None }, self.slot)
    }

    /// A cell armed with `value`.
    pub fn new(value: T) -> (cell: OneShotCell<T>)
        ensures
            cell.contents() == Option::Some(value),
            cell.armed(),
    {
        OneShotCell { slot: Some(value) }
    }

    /// A cell that was never armed.
    pub fn empty() -> (cell: OneShotCell<T>)
        ensures
            cell.contents() is None,
            !cell.armed(),
    {
        OneShotCell { slot: None }
    }

    /// Remove the value, leaving the cell empty.  On an already emptied
    /// cell this yields nothing and is not an error.
    pub fn take(&mut self) -> (taken: Option<T>)
        ensures
            *final(self) == old(self).take_spec().0,
            taken == old(self).take_spec().1,
            taken == old(self).contents(),
            !final(self).armed(),
    {
        self.slot.take()
    }

    /// Whether the value is still in place.
    pub fn is_armed(&self) -> (r: bool)
        ensures
            r == self.armed(),
    {
        self.slot.is_some()
    }
}

/// Law: however often a cell is taken from, only the first take can yield
/// the wrapped value; the take after any take yields nothing and leaves the
/// cell empty.
pub proof fn lemma_take_at_most_once<T>(cell: OneShotCell<T>)
    ensures
        cell.take_spec().1 == cell.contents(),
        cell.take_spec().0.take_spec().1 is None,
        !cell.take_spec().0.take_spec().0.armed(),
{
}

} // verus!
