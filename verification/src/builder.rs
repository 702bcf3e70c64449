//! The instruction builder: an entity of the universe that the (external)
//! instruction-building machinery drives. The core only mints it and ties
//! it to its universe.

use vstd::prelude::*;
use crate::support::Handle;

verus! {

/// A builder minted by a universe.
#[derive(Clone, Copy, Debug, PartialEq, Eq, Structural)]
pub struct Builder {
    pub handle: Handle,
    pub ctx: Handle,
}

} // verus!
