//! Basic blocks and the functions that order them. A block has identity (a
//! minted handle) and a label; a function owns the ordered list of its
//! blocks, and every placement operation of the universe speaks about that
//! order.

use vstd::prelude::*;
use crate::support::Handle;
use crate::types::FunctionType;

verus! {

/// A labelled basic block. Equality of blocks is identity equality: two
/// blocks are the same exactly when their handles are, whatever their
/// labels read.
#[derive(Debug, PartialEq)]
pub struct BasicBlock {
    pub handle: Handle,
    pub name: String,
}

impl BasicBlock {
    /// An identical second token for the same block.
    pub fn duplicate(&self) -> (r: BasicBlock)
        ensures
            r == *self,
    {
        BasicBlock { handle: self.handle, name: self.name.clone() }
    }
}

/// A function value: its identity, its label, its type token, and the
/// ordered list of its basic blocks.
#[derive(Debug)]
pub struct FunctionValue {
    pub handle: Handle,
    pub name: String,
    pub fn_ty: FunctionType,
    pub blocks: Vec<BasicBlock>,
}

impl FunctionValue {
    /// No two blocks of a function share a handle.
    pub open spec fn blocks_distinct(&self) -> bool {
        forall|i: int, j: int|
            0 <= i < j < self.blocks@.len() ==> (#[trigger] self.blocks@[i]).handle != (
            #[trigger] self.blocks@[j]).handle
    }

    /// Every block handle was minted below the given bound, so a fresh
    /// handle at or above it cannot collide with any of them.
    pub open spec fn handles_below(&self, bound: u64) -> bool {
        forall|i: int|
            0 <= i < self.blocks@.len() ==> (#[trigger] self.blocks@[i]).handle.spec_raw() < bound
    }

    pub open spec fn spec_contains_handle(&self, h: Handle) -> bool {
        exists|i: int| 0 <= i < self.blocks@.len() && (#[trigger] self.blocks@[i]).handle == h
    }

    /// The position of the block with handle `h`; meaningful when the
    /// function contains it, for with distinct handles it is unique.
    pub open spec fn block_index(&self, h: Handle) -> int {
        choose|i: int| 0 <= i < self.blocks@.len() && (#[trigger] self.blocks@[i]).handle == h
    }

    /// With distinct handles, the position of a contained block is exactly
    /// the index it sits at.
    pub proof fn lemma_block_index_unique(&self, h: Handle, i: int)
        requires
            self.blocks_distinct(),
            0 <= i < self.blocks@.len(),
            self.blocks@[i].handle == h,
        ensures
            self.spec_contains_handle(h),
            self.block_index(h) == i,
    {
        assert(self.spec_contains_handle(h));
        let j = self.block_index(h);
        assert(0 <= j < self.blocks@.len() && self.blocks@[j].handle == h);
        if i < j {
            assert(self.blocks@[i].handle != self.blocks@[j].handle);
        } else if j < i {
            assert(self.blocks@[j].handle != self.blocks@[i].handle);
        }
    }

    /// The index of the block with handle `h`.
    pub fn index_of_handle(&self, h: Handle) -> (idx: usize)
        requires
            self.blocks_distinct(),
            self.spec_contains_handle(h),
        ensures
            idx < self.blocks@.len(),
            self.blocks@[idx as int].handle == h,
            self.block_index(h) == idx,
    {
        let n = self.blocks.len();
        let mut i: usize = 0;
        while i < n
            invariant
                i <= n,
                n == self.blocks@.len(),
                self.blocks_distinct(),
                self.spec_contains_handle(h),
                forall|j: int| 0 <= j < i ==> (#[trigger] self.blocks@[j]).handle != h,
            decreases n - i,
        {
            if self.blocks[i].handle == h {
                proof {
                    self.lemma_block_index_unique(h, i as int);
                }
                return i;
            }
            i += 1;
        }
        proof {
            let w = self.block_index(h);
            assert(self.blocks@[w].handle != h);
        }
        vstd::pervasive::unreached()
    }

    /// How many basic blocks this function has.
    pub fn count_basic_blocks(&self) -> (r: u32)
        requires
            self.blocks@.len() <= u32::MAX,
        ensures
            r == self.blocks@.len(),
    {
        self.blocks.len() as u32
    }

    /// The entry block, if any block exists yet.
    pub fn get_first_basic_block(&self) -> (r: Option<BasicBlock>)
        ensures
            self.blocks@.len() == 0 ==> r is None,
            self.blocks@.len() > 0 ==> r == Some(self.blocks@.first()),
    {
        if self.blocks.len() == 0 {
            None
        } else {
            Some(self.blocks[0].duplicate())
        }
    }

    /// The last block, if any block exists yet.
    pub fn get_last_basic_block(&self) -> (r: Option<BasicBlock>)
        ensures
            self.blocks@.len() == 0 ==> r is None,
            self.blocks@.len() > 0 ==> r == Some(self.blocks@.last()),
    {
        let n = self.blocks.len();
        if n == 0 {
            None
        } else {
            Some(self.blocks[n - 1].duplicate())
        }
    }
}

/// LAW: appending two named blocks, in sequence, to a function that had
/// none leaves the first appended block first, the second appended block
/// last, and a block count of two. (Each append contributes one `push`
/// to the function's block order.)
pub proof fn lemma_two_appended_blocks(s0: Seq<BasicBlock>, b1: BasicBlock, b2: BasicBlock)
    requires
        s0.len() == 0,
    ensures
        s0.push(b1).push(b2).len() == 2,
        s0.push(b1).push(b2).first() == b1,
        s0.push(b1).push(b2).last() == b2,
{
}

} // verus!
