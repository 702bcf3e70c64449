//! Vector values. A constant vector holds its lanes directly as reduced
//! integers; reads of the element type go through the owning universe, as
//! every compound-type read does.
//!
//! Constant classification follows the native library's node classes. A
//! lane-holding constant is one of three mutually exclusive shapes: an
//! array constant (the byte-string path builds these), a data vector (a
//! lane-built vector whose element type the native library stores
//! directly: integers of 8, 16, 32 or 64 bits), or a vector aggregate
//! (any other lane-built vector). A string constant is a lane-holding
//! constant of 8-bit integer elements — array or data vector alike — and
//! never a vector aggregate. The undefined value is a constant with no
//! stored lanes and none of the three shapes.

use vstd::prelude::*;
use std::io::Write;
use crate::context::Context;
use crate::support::Handle;
use crate::types::{BasicTypeEnum, TypeRecord, VectorType};
use crate::values::{int_fits, BasicValueEnum, InstructionValue, IntValue};

verus! {

/// What a vector value holds: directly stored constant lanes (with a
/// marker for constants built as arrays, the byte-string path), the
/// undefined value, or an opaque non-constant (an instruction result or
/// an argument), known only by handle and name.
#[derive(Debug, PartialEq)]
pub enum VectorData {
    ConstData { lanes: Vec<u64>, array: bool },
    Undef,
    Opaque { inst: Option<Handle>, name: String },
}

/// A vector value of a universe.
#[derive(Debug, PartialEq)]
pub struct VectorValue {
    pub ty: VectorType,
    pub data: VectorData,
}

impl VectorValue {
    /// The constant lanes; empty where no lanes are stored.
    pub open spec fn spec_lanes(self) -> Seq<u64> {
        match self.data {
            VectorData::ConstData { lanes, .. } => lanes@,
            _ => Seq::empty(),
        }
    }

    /// A compile-time constant: a lane-holding constant or the undefined
    /// value.
    pub open spec fn spec_is_const(self) -> bool {
        self.data is ConstData || self.data is Undef
    }

    /// A constant whose lanes are stored here (the undefined value is a
    /// constant without stored lanes).
    pub open spec fn spec_stores_lanes(self) -> bool {
        self.data is ConstData
    }

    /// A constant built as an array — the shape the byte-string factory
    /// produces.
    pub open spec fn spec_is_array(self) -> bool {
        match self.data {
            VectorData::ConstData { array, .. } => array,
            _ => false,
        }
    }

    /// A lane-holding constant whose lanes are all zero.
    pub open spec fn spec_is_null(self) -> bool {
        &&& self.spec_stores_lanes()
        &&& forall|i: int| 0 <= i < self.spec_lanes().len() ==> self.spec_lanes()[i] == 0
    }

    pub open spec fn spec_as_instruction(self) -> Option<InstructionValue> {
        match self.data {
            VectorData::Opaque { inst, .. } => match inst {
                Some(h) => Some(InstructionValue { inst: h }),
                None => None,
            },
            _ => None,
        }
    }

    /// The name of this value; constants read as the empty string.
    pub open spec fn spec_name(self) -> Seq<char> {
        match self.data {
            VectorData::Opaque { name, .. } => name@,
            _ => Seq::empty(),
        }
    }

    /// Whether this vector is a compile-time constant. The undefined
    /// value is one.
    pub fn is_const(&self) -> (r: bool)
        ensures
            r == self.spec_is_const(),
    {
        match &self.data {
            VectorData::ConstData { .. } => true,
            VectorData::Undef => true,
            VectorData::Opaque { .. } => false,
        }
    }

    /// Whether this value is a data vector: a lane-built constant vector
    /// whose element type the native library stores directly (an integer
    /// of 8, 16, 32 or 64 bits). At most one of this and
    /// `is_constant_vector` holds of a value, and an array constant (a
    /// string constant's shape) is neither.
    pub fn is_constant_data_vector(&self, ctx: &Context) -> (r: bool)
        requires
            ctx.wf(),
            ctx.vec_wf(*self),
        ensures
            r == ctx.vec_is_data_vector(*self),
    {
        match &self.data {
            VectorData::ConstData { array, .. } => {
                if *array {
                    false
                } else {
                    match self.ty.get_element_type(ctx) {
                        BasicTypeEnum::IntType(it) => {
                            let bits = it.get_bit_width();
                            bits == 8 || bits == 16 || bits == 32 || bits == 64
                        },
                        _ => false,
                    }
                }
            },
            _ => false,
        }
    }

    /// Whether this value is a vector aggregate: a lane-built constant
    /// vector whose element type is not directly stored (any other
    /// element width). Mutually exclusive with `is_constant_data_vector`.
    pub fn is_constant_vector(&self, ctx: &Context) -> (r: bool)
        requires
            ctx.wf(),
            ctx.vec_wf(*self),
        ensures
            r == ctx.vec_is_vector_node(*self),
    {
        match &self.data {
            VectorData::ConstData { array, .. } => {
                if *array {
                    false
                } else {
                    match self.ty.get_element_type(ctx) {
                        BasicTypeEnum::IntType(it) => {
                            let bits = it.get_bit_width();
                            !(bits == 8 || bits == 16 || bits == 32 || bits == 64)
                        },
                        _ => true,
                    }
                }
            },
            _ => false,
        }
    }

    /// Writes a rendering of this value to the standard error stream.
    /// Relies on std::io::stderr for the stream; the model value itself is
    /// borrowed and unchanged.
    #[verifier::external_body]
    pub fn print_to_stderr(&self) {
        let _ = writeln!(std::io::stderr(), "{:?}", self);
    }

    /// The name of this value. A constant has no name and reads as the
    /// empty string.
    pub fn get_name(&self) -> (r: String)
        ensures
            r@ == self.spec_name(),
    {
        match &self.data {
            VectorData::Opaque { name, .. } => name.clone(),
            _ => String::new(),
        }
    }

    pub fn get_type(&self) -> (r: VectorType)
        ensures
            r == self.ty,
    {
        self.ty
    }

    /// Whether this value is the all-zero constant. The undefined value
    /// is not.
    pub fn is_null(&self) -> (r: bool)
        ensures
            r == self.spec_is_null(),
    {
        match &self.data {
            VectorData::ConstData { lanes, .. } => {
                let n = lanes.len();
                let mut i: usize = 0;
                while i < n
                    invariant
                        i <= n,
                        n == lanes@.len(),
                        lanes@ == self.spec_lanes(),
                        self.spec_stores_lanes(),
                        forall|j: int| 0 <= j < i ==> lanes@[j] == 0,
                    decreases n - i,
                {
                    if lanes[i] != 0 {
                        proof {
                            assert(self.spec_lanes()[i as int] != 0);
                        }
                        return false;
                    }
                    i += 1;
                }
                true
            },
            _ => false,
        }
    }

    /// Whether this value is the undefined constant.
    pub fn is_undef(&self) -> (r: bool)
        ensures
            r == (self.data is Undef),
    {
        match &self.data {
            VectorData::Undef => true,
            _ => false,
        }
    }

    /// The instruction this value came from, if it is an instruction result.
    pub fn as_instruction(&self) -> (r: Option<InstructionValue>)
        ensures
            r == self.spec_as_instruction(),
    {
        match &self.data {
            VectorData::Opaque { inst, .. } => match inst {
                Some(h) => Some(InstructionValue { inst: *h }),
                None => None,
            },
            _ => None,
        }
    }

    /// Asks the native layer to rewire every use of this value to `other`.
    /// Uses are tracked by the native library, not by this model, so the
    /// two model values themselves are unchanged.
    pub fn replace_all_uses_with(&self, other: &VectorValue) {
        let _ = other;
    }

    /// Whether this vector is a string constant: a lane-holding constant
    /// of 8-bit integer elements. String-ness is the element type's, not
    /// the construction path's: a vector built lanewise from 8-bit
    /// constants is a string constant just as a byte-built array is.
    pub fn is_const_string(&self, ctx: &Context) -> (r: bool)
        requires
            ctx.wf(),
            ctx.vec_wf(*self),
        ensures
            r == ctx.vec_is_const_string(*self),
    {
        match &self.data {
            VectorData::ConstData { .. } => {
                match self.ty.get_element_type(ctx) {
                    BasicTypeEnum::IntType(it) => it.get_bit_width() == 8,
                    _ => false,
                }
            },
            _ => false,
        }
    }

    /// The lane the constant `index` picks, as a constant of the element
    /// type. A vector without stored lanes, a non-integer element type, or
    /// an out-of-range index is a caller contract violation — the one
    /// policy this core uses for every constant-element read.
    pub fn const_extract_element(&self, ctx: &Context, index: IntValue) -> (r: BasicValueEnum)
        requires
            ctx.wf(),
            ctx.vec_wf(*self),
            self.spec_stores_lanes(),
            ctx.vector_elem(self.ty) is IntType,
            index.val < self.spec_lanes().len(),
        ensures
            ctx.vector_elem(self.ty) matches BasicTypeEnum::IntType(it) && r
                == BasicValueEnum::IntValue(
                IntValue { ty: it, val: self.spec_lanes()[index.val as int] },
            ),
    {
        let elem = self.ty.get_element_type(ctx);
        match (elem, &self.data) {
            (BasicTypeEnum::IntType(it), VectorData::ConstData { lanes, .. }) => {
                let n = lanes.len();
                proof {
                    assert(index.val < n);
                }
                let i = index.val as usize;
                BasicValueEnum::IntValue(IntValue { ty: it, val: lanes[i] })
            },
            _ => vstd::pervasive::unreached(),
        }
    }

    /// The lane at the given position, as a constant of the element type;
    /// the same read as `const_extract_element`, with the position handed
    /// directly. The same caller contract applies.
    pub fn get_element_as_constant(&self, ctx: &Context, index: u32) -> (r: BasicValueEnum)
        requires
            ctx.wf(),
            ctx.vec_wf(*self),
            self.spec_stores_lanes(),
            ctx.vector_elem(self.ty) is IntType,
            index < self.spec_lanes().len(),
        ensures
            ctx.vector_elem(self.ty) matches BasicTypeEnum::IntType(it) && r
                == BasicValueEnum::IntValue(
                IntValue { ty: it, val: self.spec_lanes()[index as int] },
            ),
    {
        let elem = self.ty.get_element_type(ctx);
        match (elem, &self.data) {
            (BasicTypeEnum::IntType(it), VectorData::ConstData { lanes, .. }) => {
                let n = lanes.len();
                proof {
                    assert(index < n);
                }
                BasicValueEnum::IntValue(IntValue { ty: it, val: lanes[index as usize] })
            },
            _ => vstd::pervasive::unreached(),
        }
    }

    /// The same vector with the lane at the constant `index` replaced by
    /// `value`, keeping the constant's shape (array or lane-built). The
    /// value must be an integer constant of the element type, and the
    /// index in range; anything else is a caller contract violation.
    pub fn const_insert_element(self, ctx: &Context, index: IntValue, value: BasicValueEnum)
        -> (r: BasicValueEnum)
        requires
            ctx.wf(),
            ctx.vec_wf(self),
            self.spec_stores_lanes(),
            index.val < self.spec_lanes().len(),
            value matches BasicValueEnum::IntValue(iv) && ctx.vector_elem(self.ty)
                == BasicTypeEnum::IntType(iv.ty) && int_fits(iv.ty.bits, iv.val),
        ensures
            value matches BasicValueEnum::IntValue(iv) && r matches BasicValueEnum::VectorValue(v)
                && v.ty == self.ty && v.spec_stores_lanes() && v.spec_is_array()
                == self.spec_is_array() && v.spec_lanes() == self.spec_lanes().update(
                index.val as int,
                iv.val,
            ) && ctx.vec_wf(v),
    {
        let ty = self.ty;
        match (self.data, value) {
            (VectorData::ConstData { mut lanes, array }, BasicValueEnum::IntValue(iv)) => {
                let n = lanes.len();
                proof {
                    assert(index.val < n);
                }
                let i = index.val as usize;
                lanes[i] = iv.val;
                let v = VectorValue { ty, data: VectorData::ConstData { lanes, array } };
                proof {
                    assert(ctx.vec_wf(v));
                }
                BasicValueEnum::VectorValue(v)
            },
            _ => vstd::pervasive::unreached(),
        }
    }

    /// Lanewise selection: this vector is the condition (a constant vector
    /// of 1-bit integers), and each result lane comes from `then` where the
    /// condition lane is set, from `else_` where it is clear. The two
    /// branches must be lane-holding constant vectors of one same type, as
    /// long as the condition.
    pub fn const_select(&self, ctx: &Context, then: &VectorValue, else_: &VectorValue) -> (r:
        BasicValueEnum)
        requires
            ctx.wf(),
            ctx.vec_wf(*self),
            ctx.vec_wf(*then),
            ctx.vec_wf(*else_),
            self.spec_stores_lanes(),
            then.spec_stores_lanes(),
            else_.spec_stores_lanes(),
            ctx.vector_elem(self.ty) matches BasicTypeEnum::IntType(it) && it.bits == 1,
            then.ty == else_.ty,
            then.spec_lanes().len() == self.spec_lanes().len(),
            else_.spec_lanes().len() == self.spec_lanes().len(),
        ensures
            r matches BasicValueEnum::VectorValue(v) && v.ty == then.ty && v.spec_stores_lanes()
                && !v.spec_is_array() && v.spec_lanes().len() == self.spec_lanes().len() && (
            forall|i: int|
                0 <= i < self.spec_lanes().len() ==> #[trigger] v.spec_lanes()[i] == (
                if self.spec_lanes()[i] != 0 {
                    then.spec_lanes()[i]
                } else {
                    else_.spec_lanes()[i]
                })) && ctx.vec_wf(v),
    {
        match (&self.data, &then.data, &else_.data) {
            (
                VectorData::ConstData { lanes: cond, .. },
                VectorData::ConstData { lanes: a, .. },
                VectorData::ConstData { lanes: b, .. },
            ) => {
                let n = cond.len();
                let mut lanes: Vec<u64> = Vec::new();
                let mut i: usize = 0;
                while i < n
                    invariant
                        i <= n,
                        n == cond@.len(),
                        cond@ == self.spec_lanes(),
                        a@ == then.spec_lanes(),
                        b@ == else_.spec_lanes(),
                        a@.len() == n,
                        b@.len() == n,
                        lanes@.len() == i,
                        forall|j: int|
                            0 <= j < i ==> #[trigger] lanes@[j] == (if cond@[j] != 0 {
                                a@[j]
                            } else {
                                b@[j]
                            }),
                    decreases n - i,
                {
                    let picked = if cond[i] != 0 {
                        a[i]
                    } else {
                        b[i]
                    };
                    lanes.push(picked);
                    i += 1;
                }
                let v = VectorValue { ty: then.ty, data: VectorData::ConstData {
                    lanes,
                    array: false,
                } };
                proof {
                    assert(ctx.vec_wf(v)) by {
                        match ctx.vector_elem(then.ty) {
                            BasicTypeEnum::IntType(it) => {
                                assert(forall|j: int|
                                    0 <= j < v.spec_lanes().len() ==> int_fits(
                                        it.bits,
                                        #[trigger] v.spec_lanes()[j],
                                    ));
                            },
                            _ => {},
                        }
                    }
                }
                BasicValueEnum::VectorValue(v)
            },
            _ => vstd::pervasive::unreached(),
        }
    }

    /// Lanewise shuffle: each mask lane picks one lane out of this vector
    /// and `right` laid side by side (positions below this vector's length
    /// read from it, the rest from `right`). The result is a fresh vector
    /// type of the shared element type, as long as the mask.
    pub fn const_shuffle_vector(&self, ctx: &mut Context, right: &VectorValue, mask: &VectorValue)
        -> (r: VectorValue)
        requires
            old(ctx).wf(),
            old(ctx).vec_wf(*self),
            old(ctx).vec_wf(*right),
            old(ctx).vec_wf(*mask),
            self.spec_stores_lanes(),
            right.spec_stores_lanes(),
            mask.spec_stores_lanes(),
            old(ctx).vector_elem(self.ty) == old(ctx).vector_elem(right.ty),
            forall|i: int|
                0 <= i < mask.spec_lanes().len() ==> #[trigger] mask.spec_lanes()[i]
                    < self.spec_lanes().len() + right.spec_lanes().len(),
        ensures
            final(ctx).wf(),
            final(ctx).extends(*old(ctx)),
            final(ctx).next_id == old(ctx).next_id,
            final(ctx).kind_keys@ == old(ctx).kind_keys@,
            r.ty.ctx == old(ctx).handle,
            final(ctx).token_ok(BasicTypeEnum::VectorType(r.ty)),
            final(ctx).vector_elem(r.ty) == old(ctx).vector_elem(self.ty),
            r.spec_stores_lanes(),
            !r.spec_is_array(),
            r.spec_lanes().len() == mask.spec_lanes().len(),
            forall|i: int|
                0 <= i < mask.spec_lanes().len() ==> #[trigger] r.spec_lanes()[i] == (
                if mask.spec_lanes()[i] < self.spec_lanes().len() {
                    self.spec_lanes()[mask.spec_lanes()[i] as int]
                } else {
                    right.spec_lanes()[mask.spec_lanes()[i] - self.spec_lanes().len()]
                }),
            final(ctx).vec_wf(r),
    {
        let elem = self.ty.get_element_type(ctx);
        match (&self.data, &right.data, &mask.data) {
            (
                VectorData::ConstData { lanes: a, .. },
                VectorData::ConstData { lanes: b, .. },
                VectorData::ConstData { lanes: m, .. },
            ) => {
                let n1 = a.len();
                let n2 = b.len();
                let n3 = m.len();
                let mut lanes: Vec<u64> = Vec::new();
                let mut i: usize = 0;
                while i < n3
                    invariant
                        i <= n3,
                        n1 == a@.len(),
                        n2 == b@.len(),
                        n3 == m@.len(),
                        a@ == self.spec_lanes(),
                        b@ == right.spec_lanes(),
                        m@ == mask.spec_lanes(),
                        forall|j: int| 0 <= j < n3 ==> #[trigger] m@[j] < n1 + n2,
                        lanes@.len() == i,
                        forall|j: int|
                            0 <= j < i ==> #[trigger] lanes@[j] == (if m@[j] < n1 {
                                a@[m@[j] as int]
                            } else {
                                b@[m@[j] - n1]
                            }),
                    decreases n3 - i,
                {
                    let sel = m[i];
                    let picked = if sel < n1 as u64 {
                        a[sel as usize]
                    } else {
                        b[(sel - n1 as u64) as usize]
                    };
                    lanes.push(picked);
                    i += 1;
                }
                let size = n3 as u32;
                proof {
                    assert(n3 == old(ctx).vector_size(mask.ty));
                }
                let rec = TypeRecord::Vector { elem, size };
                let id = ctx.push_type_record(rec);
                let ty = VectorType { ctx: ctx.handle, id };
                let r = VectorValue { ty, data: VectorData::ConstData { lanes, array: false } };
                proof {
                    match elem {
                        BasicTypeEnum::IntType(it) => {
                            assert forall|j: int|
                                0 <= j < r.spec_lanes().len() implies int_fits(
                                it.bits,
                                #[trigger] r.spec_lanes()[j],
                            ) by {
                                if m@[j] < n1 {
                                    assert(int_fits(it.bits, a@[m@[j] as int]));
                                } else {
                                    assert(int_fits(it.bits, b@[m@[j] - n1]));
                                }
                            }
                        },
                        _ => {},
                    }
                    assert(ctx.vec_wf(r));
                }
                r
            },
            _ => vstd::pervasive::unreached(),
        }
    }

    /// The bytes of a string constant up to (and not including) its first
    /// nul byte, as the native C-string read reports them. Calling this on
    /// a value that is not a string constant is a caller contract violation.
    pub fn get_string_constant(&self, ctx: &Context) -> (r: Vec<u8>)
        requires
            ctx.wf(),
            ctx.vec_wf(*self),
            ctx.vec_is_const_string(*self),
        ensures
            r@.len() <= self.spec_lanes().len(),
            forall|k: int|
                0 <= k < r@.len() ==> r@[k] == self.spec_lanes()[k] as u8 && self.spec_lanes()[k]
                    != 0,
            r@.len() < self.spec_lanes().len() ==> self.spec_lanes()[r@.len() as int] == 0,
    {
        match &self.data {
            VectorData::ConstData { lanes, .. } => {
                let n = lanes.len();
                let mut out: Vec<u8> = Vec::new();
                let mut i: usize = 0;
                while i < n
                    invariant
                        i <= n,
                        n == lanes@.len(),
                        ctx.wf(),
                        ctx.vec_wf(*self),
                        ctx.vec_is_const_string(*self),
                        lanes@ == self.spec_lanes(),
                        out@.len() == i,
                        forall|k: int| 0 <= k < i ==> out@[k] == lanes@[k] as u8 && lanes@[k] != 0,
                    decreases n - i,
                {
                    let lane = lanes[i];
                    if lane == 0 {
                        return out;
                    }
                    proof {
                        vstd::arithmetic::power2::lemma2_to64();
                        assert(crate::values::int_fits(8, self.spec_lanes()[i as int]));
                        assert(self.spec_lanes()[i as int] < 256);
                    }
                    out.push(lane as u8);
                    i += 1;
                }
                out
            },
            _ => vstd::pervasive::unreached(),
        }
    }
}

impl VectorType {
    /// The undefined value of this vector type.
    pub fn get_undef(self) -> (r: VectorValue)
        ensures
            r == (VectorValue { ty: self, data: VectorData::Undef }),
    {
        VectorValue { ty: self, data: VectorData::Undef }
    }

    /// A constant vector over the given lane values, which must be integer
    /// constants of this type's element type, one per lane.
    pub fn const_vector(self, ctx: &Context, values: &Vec<IntValue>) -> (r: VectorValue)
        requires
            ctx.wf(),
            ctx.token_ok(BasicTypeEnum::VectorType(self)),
            values@.len() == ctx.vector_size(self),
            ctx.vector_elem(self) matches BasicTypeEnum::IntType(it) && (forall|j: int|
                0 <= j < values@.len() ==> (#[trigger] values@[j]).ty == it && int_fits(
                    it.bits,
                    values@[j].val,
                )),
        ensures
            r.ty == self,
            r.spec_stores_lanes(),
            !r.spec_is_array(),
            r.spec_lanes().len() == values@.len(),
            forall|j: int|
                0 <= j < values@.len() ==> #[trigger] r.spec_lanes()[j] == values@[j].val,
            ctx.vec_wf(r),
    {
        let n = values.len();
        let mut lanes: Vec<u64> = Vec::new();
        let mut i: usize = 0;
        while i < n
            invariant
                i <= n,
                n == values@.len(),
                lanes@.len() == i,
                forall|j: int| 0 <= j < i ==> #[trigger] lanes@[j] == values@[j].val,
            decreases n - i,
        {
            lanes.push(values[i].val);
            i += 1;
        }
        VectorValue { ty: self, data: VectorData::ConstData { lanes, array: false } }
    }
}

} // verus!
