//! Modules and the memory buffers they are parsed from.

use vstd::prelude::*;
use crate::basic_block::FunctionValue;
use crate::context::Context;
use crate::support::Handle;
use crate::types::FunctionType;

verus! {

/// The container signature the reader recognizes as a well-formed IR
/// payload: the four-byte bitcode wrapper magic, "BC" followed by the two
/// fixed marker bytes.
pub open spec fn well_formed_ir(bytes: Seq<u8>) -> bool {
    &&& bytes.len() >= 4
    &&& bytes[0] == 0x42u8
    &&& bytes[1] == 0x43u8
    &&& bytes[2] == 0xc0u8
    &&& bytes[3] == 0xdeu8
}

/// A byte buffer handed to the universe for parsing. It is a move-only
/// resource: the parsing call consumes it whether or not parsing succeeds,
/// so a second release of the underlying storage is impossible.
#[derive(Debug, PartialEq)]
pub struct MemoryBuffer {
    pub bytes: Vec<u8>,
}

impl MemoryBuffer {
    /// A buffer holding its own copy of the given bytes.
    pub fn create_from_memory_range_copy(data: &[u8]) -> (r: MemoryBuffer)
        ensures
            r.bytes@ == data@,
    {
        let n = data.len();
        let mut bytes: Vec<u8> = Vec::new();
        let mut i: usize = 0;
        while i < n
            invariant
                i <= n,
                n == data@.len(),
                bytes@.len() == i,
                forall|j: int| 0 <= j < i ==> bytes@[j] == data@[j],
            decreases n - i,
        {
            bytes.push(data[i]);
            i += 1;
        }
        proof {
            assert(bytes@ =~= data@);
        }
        MemoryBuffer { bytes }
    }

    pub fn get_size(&self) -> (r: usize)
        ensures
            r == self.bytes@.len(),
    {
        self.bytes.len()
    }
}

/// A module of a universe.
#[derive(Debug)]
pub struct Module {
    pub handle: Handle,
    pub ctx: Handle,
    pub name: String,
}

impl Module {
    /// Adds a named function of the given type to this module. The function
    /// starts with no basic blocks; blocks are placed by the universe's
    /// block operations.
    pub fn add_function(&self, ctx: &mut Context, name: &str, ty: FunctionType) -> (r:
        FunctionValue)
        requires
            old(ctx).wf(),
            old(ctx).next_id < u64::MAX,
            self.ctx == old(ctx).handle,
        ensures
            final(ctx).wf(),
            final(ctx).extends(*old(ctx)),
            final(ctx).types@ == old(ctx).types@,
            final(ctx).kind_keys@ == old(ctx).kind_keys@,
            final(ctx).next_id == old(ctx).next_id + 1,
            r.blocks@.len() == 0,
            r.name@ == name@,
            r.fn_ty == ty,
            r.handle.spec_raw() == old(ctx).next_id,
            final(ctx).func_wf(r),
    {
        let h = ctx.mint_handle();
        FunctionValue { handle: h, name: name.to_owned(), fn_ty: ty, blocks: Vec::new() }
    }
}

} // verus!
