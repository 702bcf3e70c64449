//! A minimal description of the compilation target, as far as the universe's
//! own operations read it: the bit width of a pointer, overall and per
//! address space.

use vstd::prelude::*;
use crate::AddressSpace;
use crate::types::MAX_INT_BIT_WIDTH;

verus! {

/// Target layout data. `space_widths` lists exceptional address spaces as
/// `(space, width)` pairs; every other address space uses `default_width`.
#[derive(Debug)]
pub struct TargetData {
    pub default_width: u32,
    pub space_widths: Vec<(u32, u32)>,
}

impl TargetData {
    /// Every recorded width is a legal integer width, and no address space
    /// is recorded twice, so a lookup has at most one answer.
    pub open spec fn wf(&self) -> bool {
        &&& 1 <= self.default_width <= MAX_INT_BIT_WIDTH
        &&& forall|i: int|
            0 <= i < self.space_widths@.len() ==> 1 <= (#[trigger] self.space_widths@[i]).1
                <= MAX_INT_BIT_WIDTH
        &&& forall|i: int, j: int|
            0 <= i < j < self.space_widths@.len() ==> (#[trigger] self.space_widths@[i]).0 != (
            #[trigger] self.space_widths@[j]).0
    }

    pub open spec fn has_space(&self, space: u32) -> bool {
        exists|i: int| 0 <= i < self.space_widths@.len() && (#[trigger] self.space_widths@[i]).0
            == space
    }

    /// The width recorded for `space`; meaningful only when `has_space`.
    pub open spec fn recorded_width(&self, space: u32) -> u32 {
        self.space_widths@[choose|i: int|
            0 <= i < self.space_widths@.len() && (#[trigger] self.space_widths@[i]).0 == space].1
    }

    /// The pointer width this target uses in the given address space.
    pub open spec fn spec_ptr_width(&self, address_space: Option<AddressSpace>) -> u32 {
        match address_space {
            Option::None => self.default_width,
            Option::Some(s) => if self.has_space(s.0) {
                self.recorded_width(s.0)
            } else {
                self.default_width
            },
        }
    }

    /// The pointer width for the given address space, or the default width
    /// where none is recorded.
    pub fn ptr_width(&self, address_space: Option<AddressSpace>) -> (r: u32)
        requires
            self.wf(),
        ensures
            r == self.spec_ptr_width(address_space),
            1 <= r <= MAX_INT_BIT_WIDTH,
    {
        let space: u32 = match address_space {
            Option::Some(s) => s.0,
            Option::None => {
                return self.default_width;
            },
        };
        let n = self.space_widths.len();
        let mut i: usize = 0;
        while i < n
            invariant
                i <= n,
                n == self.space_widths@.len(),
                self.wf(),
                forall|j: int| 0 <= j < i ==> (#[trigger] self.space_widths@[j]).0 != space,
                address_space == Some(AddressSpace(space)),
            decreases n - i,
        {
            if self.space_widths[i].0 == space {
                proof {
                    assert(self.has_space(space));
                    let j = choose|j: int|
                        0 <= j < self.space_widths@.len() && (#[trigger] self.space_widths@[j]).0
                            == space;
                    if j < i as int {
                        assert((self.space_widths@[j]).0 != space);
                    } else if (i as int) < j {
                        assert((self.space_widths@[i as int]).0 != (self.space_widths@[j]).0);
                    }
                }
                return self.space_widths[i].1;
            }
            i += 1;
        }
        proof {
            assert(!self.has_space(space));
        }
        self.default_width
    }

    pub fn new(default_width: u32, space_widths: Vec<(u32, u32)>) -> (r: TargetData)
        requires
            1 <= default_width <= MAX_INT_BIT_WIDTH,
            forall|i: int|
                0 <= i < space_widths@.len() ==> 1 <= (#[trigger] space_widths@[i]).1
                    <= MAX_INT_BIT_WIDTH,
            forall|i: int, j: int|
                0 <= i < j < space_widths@.len() ==> (#[trigger] space_widths@[i]).0 != (
                #[trigger] space_widths@[j]).0,
        ensures
            r.wf(),
            r.default_width == default_width,
            r.space_widths@ == space_widths@,
    {
        TargetData { default_width, space_widths }
    }
}

} // verus!
