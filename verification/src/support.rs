//! The opaque handle: a non-null identifier for one native object.

use vstd::prelude::*;

verus! {

/// An opaque, non-null identifier standing for one native-library object
/// (a context, module, function, block, or similar). A `Handle` carries no
/// ownership by itself: ownership is decided entirely by the wrapper that
/// holds it. Equality of handles is identity equality within one universe.
#[derive(Clone, Copy, Debug, PartialEq, Eq, Hash, Structural)]
pub struct Handle {
    raw: u64,
}

impl Handle {
    /// The invariant of every handle: the null identifier is never wrapped.
    #[verifier::type_invariant]
    pub closed spec fn non_null(self) -> bool {
        self.raw != 0
    }

    pub closed spec fn spec_raw(self) -> u64 {
        self.raw
    }

    /// Wraps a raw identifier. Handing in the null identifier is a caller
    /// contract violation, so it is excluded up front.
    pub fn from_raw(raw: u64) -> (r: Handle)
        requires
            raw != 0,
        ensures
            r.spec_raw() == raw,
    {
        Handle { raw }
    }

    pub fn raw(self) -> (r: u64)
        ensures
            r == self.spec_raw(),
            r != 0,
    {
        proof {
            use_type_invariant(self);
        }
        self.raw
    }
}

} // verus!
