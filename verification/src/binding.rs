//! The thread-local buffer binding: the per-thread slot that names
//! where the calling thread's IPC buffer lives.
//!
//! Every thread owns exactly one IPC buffer, bound once when the
//! thread is set up; each invocation that spills past the register
//! budget consults the binding to find it. Reading an unbound slot is
//! answered with a definite absence, never with a stray location.
//! Rebinding mid-lifetime is the caller's affair and is not ruled
//! out here.
use vstd::prelude::*;

use crate::types::seL4_Word;

verus! {

/// One thread's binding slot: the location of its IPC buffer, once
/// bound.
pub struct BufferBinding {
    location: Option<seL4_Word>,
}

impl BufferBinding {
    /// Whether a buffer location has been bound.
    pub closed spec fn is_bound(self) -> bool {
        self.location is Some
    }

    /// The bound location; meaningful only once bound.
    pub closed spec fn spec_location(self) -> seL4_Word {
        match self.location {
            Option::Some(loc) => loc,
            Option::None => 0,
        }
    }

    /// A fresh, unbound slot.
    pub fn new() -> (r: Self)
        ensures
            !r.is_bound(),
    {
        BufferBinding { location: None }
    }

    /// Binds the calling thread's buffer location.
    pub fn bind(&mut self, location: seL4_Word)
        ensures
            final(self).is_bound(),
            final(self).spec_location() == location,
    {
        self.location = Some(location);
    }

    /// Reads the bound buffer location: the location exactly when one
    /// was bound, and a definite absence otherwise.
    pub fn get_buffer(&self) -> (r: Option<seL4_Word>)
        ensures
            r is Some <==> self.is_bound(),
            r matches Some(loc) ==> loc == self.spec_location(),
    {
        match self.location {
            Some(loc) => Some(loc),
            None => None,
        }
    }
}

} // verus!
