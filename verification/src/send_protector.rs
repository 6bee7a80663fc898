//! The thread-confinement wrapper.
//!
//! Some payloads must travel across the boundary into calls that arrive on
//! a thread the local type system knows nothing about, while the enclosing
//! API documents that all such calls happen on one thread.  The wrapper
//! marks that contract at a single, named place: it adds no lock and no
//! runtime check, and its correctness rests entirely on the caller keeping
//! the documented thread contract.  Here only the value-level behaviour is
//! stated and verified: access yields exactly the payload that was put in.

use vstd::prelude::*;

verus! {

/// A payload under a documented single-thread access contract.
pub struct SendProtectorMut<T> {
    payload: T,
}

impl<T> SendProtectorMut<T> {
    /// The confined payload.
    pub closed spec fn value(&self) -> T {
        self.payload
    }

    /// Confine `payload`.
    pub fn new(payload: T) -> (w: SendProtectorMut<T>)
        ensures
            w.value() == payload,
    {
        SendProtectorMut { payload }
    }

    /// Borrow the payload mutably.  Documented as callable only from the
    /// thread that the enclosing API promises will invoke the associated
    /// trampoline.
    pub fn get_mut(&mut self) -> (r: &mut T)
        ensures
            *r == old(self).value(),
            final(self).value() == *final(r),
    {
        &mut self.payload
    }

    /// Borrow the payload, under the same documented thread contract.
    pub fn get(&self) -> (r: &T)
        ensures
            *r == self.value(),
    {
        &self.payload
    }

    /// Give the payload back, ending the confinement.
    pub fn into_inner(self) -> (r: T)
        ensures
            r == self.value(),
    {
        self.payload
    }
}

} // verus!
