//! Value entities. Constant values are structural in the native library
//! (building the same constant twice yields the same object), so the model
//! carries them as plain data tagged with their type token; only entities
//! with identity (blocks, modules, functions) carry minted handles.

use vstd::prelude::*;
use crate::support::Handle;
use crate::types::{BasicTypeEnum, FunctionType, IntType, StructType};
use crate::vec_value::VectorValue;
use crate::InlineAsmDialect;

verus! {

/// A 64-bit stored value reduced to a bit width: for widths under 64 it is
/// strictly below two to that width; wider types store all 64 digits.
pub open spec fn int_fits(bits: u32, val: u64) -> bool {
    bits >= 64 || (val as nat) < vstd::arithmetic::power2::pow2(bits as nat)
}

/// A constant integer of a fixed type. The value is kept reduced modulo the
/// type's width (for widths up to 64 bits, the native library's own storage
/// unit for the initial digits).
#[derive(Clone, Copy, Debug, PartialEq, Eq, Structural)]
pub struct IntValue {
    pub ty: IntType,
    pub val: u64,
}

/// A constant struct value: its struct type plus its ordered field values.
#[derive(Debug, PartialEq)]
pub struct StructValue {
    pub ty: StructType,
    pub fields: Vec<BasicValueEnum>,
}

/// A value that can stand as a struct field or vector element.
#[derive(Debug, PartialEq)]
pub enum BasicValueEnum {
    IntValue(IntValue),
    StructValue(StructValue),
    VectorValue(VectorValue),
}

/// A value produced by an instruction, identified by its handle.
#[derive(Clone, Copy, Debug, PartialEq, Eq, Structural)]
pub struct InstructionValue {
    pub inst: Handle,
}

/// An inline-assembly callable: the assembly text, the constraint string,
/// and the flags the native library attaches to the call site.
#[derive(Debug, PartialEq)]
pub struct InlineAsm {
    pub fn_ty: FunctionType,
    pub assembly: String,
    pub constraints: String,
    pub has_side_effects: bool,
    pub is_align_stack: bool,
    pub dialect: InlineAsmDialect,
    pub can_throw: bool,
}

/// A pointer value. In this core it arises from inline-assembly creation
/// alone, so it always carries its assembly payload.
#[derive(Debug, PartialEq)]
pub struct PointerValue {
    pub ctx: Handle,
    pub inline_asm: InlineAsm,
}

/// What a metadata value holds: a tuple of values (a "node"), or a string.
#[derive(Debug, PartialEq)]
pub enum MetadataData {
    Node { elems: Vec<BasicValueEnum> },
    Str { text: String },
}

/// A metadata value of a universe.
#[derive(Debug, PartialEq)]
pub struct MetadataValue {
    pub ctx: Handle,
    pub data: MetadataData,
}

impl IntType {
    /// A constant integer of this type. The handed value is reduced modulo
    /// the type's width; for widths of 64 bits and beyond the 64 handed
    /// digits are stored whole, and `sign_extend` only governs how the
    /// native library extends them into upper digits this model does not
    /// track.
    pub fn const_int(self, value: u64, sign_extend: bool) -> (r: IntValue)
        requires
            1 <= self.bits,
        ensures
            r.ty == self,
            int_fits(self.bits, r.val),
            self.bits >= 64 ==> r.val == value,
            self.bits < 64 ==> r.val as nat == (value as nat) % vstd::arithmetic::power2::pow2(
                self.bits as nat,
            ),
    {
        let _ = sign_extend;
        if self.bits >= 64 {
            IntValue { ty: self, val: value }
        } else {
            proof {
                vstd::bits::lemma_u64_pow2_no_overflow(self.bits as nat);
                vstd::bits::lemma_u64_shl_is_mul(1u64, self.bits as u64);
            }
            let m: u64 = 1u64 << self.bits;
            IntValue { ty: self, val: value % m }
        }
    }
}

impl BasicValueEnum {
    /// The type token of this value.
    pub open spec fn spec_ty(self) -> BasicTypeEnum {
        match self {
            BasicValueEnum::IntValue(v) => BasicTypeEnum::IntType(v.ty),
            BasicValueEnum::StructValue(v) => BasicTypeEnum::StructType(v.ty),
            BasicValueEnum::VectorValue(v) => BasicTypeEnum::VectorType(v.ty),
        }
    }

    pub fn get_type(&self) -> (r: BasicTypeEnum)
        ensures
            r == self.spec_ty(),
    {
        match self {
            BasicValueEnum::IntValue(v) => BasicTypeEnum::IntType(v.ty),
            BasicValueEnum::StructValue(v) => BasicTypeEnum::StructType(v.ty),
            BasicValueEnum::VectorValue(v) => BasicTypeEnum::VectorType(v.ty),
        }
    }
}

impl StructValue {
    pub fn get_type(&self) -> (r: StructType)
        ensures
            r == self.ty,
    {
        self.ty
    }
}

impl MetadataValue {
    /// Whether this metadata is a tuple node.
    pub fn is_node(&self) -> (r: bool)
        ensures
            r == (self.data is Node),
    {
        match &self.data {
            MetadataData::Node { .. } => true,
            MetadataData::Str { .. } => false,
        }
    }

    /// Whether this metadata is a string.
    pub fn is_string(&self) -> (r: bool)
        ensures
            r == (self.data is Str),
    {
        match &self.data {
            MetadataData::Node { .. } => false,
            MetadataData::Str { .. } => true,
        }
    }
}

} // verus!
