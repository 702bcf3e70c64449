//! Type entities minted by a universe.
//!
//! Scalar types carry their whole description in the token itself. Compound
//! types (struct, vector, function) are records in the owning universe's
//! arena, and their tokens hold the owning universe's handle plus the record
//! index; every read of a compound type is validated against the universe.

use vstd::prelude::*;
use crate::context::Context;
use crate::support::Handle;

verus! {

/// The widest integer type the native library accepts.
pub const MAX_INT_BIT_WIDTH: u32 = 8388607;

/// The floating-point formats the universe can mint types for. Only the
/// format tag lives here: no floating-point data is ever held.
#[derive(Clone, Copy, Debug, PartialEq, Eq, Structural)]
pub enum FloatKind {
    Half,
    Single,
    Double,
    X86F80,
    F128,
    PpcF128,
}

/// The empty type.
#[derive(Clone, Copy, Debug, PartialEq, Eq, Structural)]
pub struct VoidType {
    pub ctx: Handle,
}

/// An integer type of a fixed bit width, tied to the universe `ctx`.
#[derive(Clone, Copy, Debug, PartialEq, Eq, Structural)]
pub struct IntType {
    pub ctx: Handle,
    pub bits: u32,
}

/// A floating-point type tag, tied to the universe `ctx`.
#[derive(Clone, Copy, Debug, PartialEq, Eq, Structural)]
pub struct FloatType {
    pub ctx: Handle,
    pub kind: FloatKind,
}

/// The metadata type, tied to the universe `ctx`.
#[derive(Clone, Copy, Debug, PartialEq, Eq, Structural)]
pub struct MetadataType {
    pub ctx: Handle,
}

/// A struct type: a token into the owning universe's type arena.
#[derive(Clone, Copy, Debug, PartialEq, Eq, Structural)]
pub struct StructType {
    pub ctx: Handle,
    pub id: usize,
}

/// A vector type: a token into the owning universe's type arena.
#[derive(Clone, Copy, Debug, PartialEq, Eq, Structural)]
pub struct VectorType {
    pub ctx: Handle,
    pub id: usize,
}

/// A function type: a token into the owning universe's type arena.
#[derive(Clone, Copy, Debug, PartialEq, Eq, Structural)]
pub struct FunctionType {
    pub ctx: Handle,
    pub id: usize,
}

/// A type that can stand as a field, element or parameter.
#[derive(Clone, Copy, Debug, PartialEq, Eq, Structural)]
pub enum BasicTypeEnum {
    IntType(IntType),
    FloatType(FloatType),
    StructType(StructType),
    VectorType(VectorType),
}

/// Any type a universe can mint, including the ones that cannot stand as a
/// field or parameter.
#[derive(Clone, Copy, Debug, PartialEq, Eq, Structural)]
pub enum AnyTypeEnum {
    VoidType(VoidType),
    IntType(IntType),
    FloatType(FloatType),
    StructType(StructType),
    VectorType(VectorType),
    FunctionType(FunctionType),
    MetadataType(MetadataType),
}

/// One record of the universe's type arena. Compound types refer to their
/// components by token, never by embedding, so the arena is append-only and
/// tokens stay valid for the life of the universe.
#[derive(Debug)]
pub enum TypeRecord {
    Struct { name: Option<String>, field_types: Vec<BasicTypeEnum>, packed: bool, opaque: bool },
    Vector { elem: BasicTypeEnum, size: u32 },
    Function { ret: Option<BasicTypeEnum>, params: Vec<BasicTypeEnum>, is_var_args: bool },
}

/// An owned copy of a token list (tokens are plain copies).
pub(crate) fn copy_type_tokens(src: &Vec<BasicTypeEnum>) -> (r: Vec<BasicTypeEnum>)
    ensures
        r@ == src@,
{
    let n = src.len();
    let mut out: Vec<BasicTypeEnum> = Vec::new();
    let mut i: usize = 0;
    while i < n
        invariant
            i <= n,
            n == src@.len(),
            out@.len() == i,
            forall|j: int| 0 <= j < i ==> out@[j] == src@[j],
        decreases n - i,
    {
        out.push(src[i]);
        i += 1;
    }
    proof {
        assert(out@ =~= src@);
    }
    out
}

impl IntType {
    /// A vector type over this element type, with the given lane count.
    pub fn vec_type(self, ctx: &mut Context, size: u32) -> (r: VectorType)
        requires
            old(ctx).wf(),
            old(ctx).token_ok(BasicTypeEnum::IntType(self)),
            1 <= size,
        ensures
            final(ctx).wf(),
            final(ctx).extends(*old(ctx)),
            final(ctx).next_id == old(ctx).next_id,
            final(ctx).kind_keys@ == old(ctx).kind_keys@,
            r.ctx == old(ctx).handle,
            final(ctx).token_ok(BasicTypeEnum::VectorType(r)),
            final(ctx).vector_elem(r) == BasicTypeEnum::IntType(self),
            final(ctx).vector_size(r) == size,
    {
        let rec = TypeRecord::Vector { elem: BasicTypeEnum::IntType(self), size };
        let id = ctx.push_type_record(rec);
        VectorType { ctx: ctx.handle, id }
    }

    /// A function type returning this type over the given parameter types.
    pub fn fn_type(self, ctx: &mut Context, param_types: &Vec<BasicTypeEnum>, is_var_args: bool)
        -> (r: FunctionType)
        requires
            old(ctx).wf(),
            old(ctx).token_ok(BasicTypeEnum::IntType(self)),
            param_types@.len() <= u32::MAX,
            forall|j: int|
                0 <= j < param_types@.len() ==> old(ctx).token_ok(#[trigger] param_types@[j]),
        ensures
            final(ctx).wf(),
            final(ctx).extends(*old(ctx)),
            final(ctx).next_id == old(ctx).next_id,
            final(ctx).kind_keys@ == old(ctx).kind_keys@,
            r.ctx == old(ctx).handle,
            final(ctx).fn_token_ok(r),
            final(ctx).fn_ret(r) == Some(BasicTypeEnum::IntType(self)),
            final(ctx).fn_params(r) == param_types@,
            final(ctx).fn_is_var_args(r) == is_var_args,
    {
        let params = copy_type_tokens(param_types);
        proof {
            assert(params@ =~= param_types@);
        }
        let rec = TypeRecord::Function {
            ret: Some(BasicTypeEnum::IntType(self)),
            params,
            is_var_args,
        };
        let id = ctx.push_type_record(rec);
        FunctionType { ctx: ctx.handle, id }
    }

    pub fn get_bit_width(self) -> (r: u32)
        ensures
            r == self.bits,
    {
        self.bits
    }

    pub fn as_basic_type_enum(self) -> (r: BasicTypeEnum)
        ensures
            r == BasicTypeEnum::IntType(self),
    {
        BasicTypeEnum::IntType(self)
    }

    pub fn as_any_type_enum(self) -> (r: AnyTypeEnum)
        ensures
            r == AnyTypeEnum::IntType(self),
    {
        AnyTypeEnum::IntType(self)
    }
}

impl FloatType {
    pub fn as_basic_type_enum(self) -> (r: BasicTypeEnum)
        ensures
            r == BasicTypeEnum::FloatType(self),
    {
        BasicTypeEnum::FloatType(self)
    }
}

impl VoidType {
    /// A function type returning nothing over the given parameter types.
    pub fn fn_type(self, ctx: &mut Context, param_types: &Vec<BasicTypeEnum>, is_var_args: bool)
        -> (r: FunctionType)
        requires
            old(ctx).wf(),
            self.ctx == old(ctx).handle,
            param_types@.len() <= u32::MAX,
            forall|j: int|
                0 <= j < param_types@.len() ==> old(ctx).token_ok(#[trigger] param_types@[j]),
        ensures
            final(ctx).wf(),
            final(ctx).extends(*old(ctx)),
            final(ctx).next_id == old(ctx).next_id,
            final(ctx).kind_keys@ == old(ctx).kind_keys@,
            r.ctx == old(ctx).handle,
            final(ctx).fn_token_ok(r),
            final(ctx).fn_ret(r) is None,
            final(ctx).fn_params(r) == param_types@,
            final(ctx).fn_is_var_args(r) == is_var_args,
    {
        let params = copy_type_tokens(param_types);
        proof {
            assert(params@ =~= param_types@);
        }
        let rec = TypeRecord::Function { ret: None, params, is_var_args };
        let id = ctx.push_type_record(rec);
        FunctionType { ctx: ctx.handle, id }
    }
}

impl StructType {
    pub fn as_basic_type_enum(self) -> (r: BasicTypeEnum)
        ensures
            r == BasicTypeEnum::StructType(self),
    {
        BasicTypeEnum::StructType(self)
    }

    /// The ordered field types of this struct type, read back from its
    /// universe: exactly the sequence the type was constructed from.
    pub fn get_field_types(self, ctx: &Context) -> (r: Vec<BasicTypeEnum>)
        requires
            ctx.wf(),
            ctx.token_ok(BasicTypeEnum::StructType(self)),
        ensures
            r@ == ctx.struct_fields(self),
    {
        match &ctx.types[self.id] {
            TypeRecord::Struct { field_types, .. } => copy_type_tokens(field_types),
            _ => vstd::pervasive::unreached(),
        }
    }

    /// How many fields this struct type has.
    pub fn count_fields(self, ctx: &Context) -> (r: u32)
        requires
            ctx.wf(),
            ctx.token_ok(BasicTypeEnum::StructType(self)),
        ensures
            r == ctx.struct_fields(self).len(),
    {
        proof {
            assert(ctx.record_ok(ctx.types@[self.id as int]));
        }
        match &ctx.types[self.id] {
            TypeRecord::Struct { field_types, .. } => field_types.len() as u32,
            _ => vstd::pervasive::unreached(),
        }
    }

    /// Whether this struct type is packed.
    pub fn is_packed(self, ctx: &Context) -> (r: bool)
        requires
            ctx.wf(),
            ctx.token_ok(BasicTypeEnum::StructType(self)),
        ensures
            r == ctx.struct_packed(self),
    {
        match &ctx.types[self.id] {
            TypeRecord::Struct { packed, .. } => *packed,
            _ => vstd::pervasive::unreached(),
        }
    }

    /// The name of a named struct type; a literal struct type has none.
    pub fn get_name(self, ctx: &Context) -> (r: Option<String>)
        requires
            ctx.wf(),
            ctx.token_ok(BasicTypeEnum::StructType(self)),
        ensures
            r is Some <==> ctx.struct_name(self) is Some,
            r matches Some(s) ==> ctx.struct_name(self) == Some(s@),
    {
        match &ctx.types[self.id] {
            TypeRecord::Struct { name, .. } => match name {
                Some(n) => Some(n.clone()),
                None => None,
            },
            _ => vstd::pervasive::unreached(),
        }
    }

    /// Whether this struct type is still opaque (named, with no body).
    pub fn is_opaque(self, ctx: &Context) -> (r: bool)
        requires
            ctx.wf(),
            ctx.token_ok(BasicTypeEnum::StructType(self)),
        ensures
            r == ctx.struct_opaque(self),
    {
        match &ctx.types[self.id] {
            TypeRecord::Struct { opaque, .. } => *opaque,
            _ => vstd::pervasive::unreached(),
        }
    }
}

impl VectorType {
    /// The lane count of this vector type.
    pub fn get_size(self, ctx: &Context) -> (r: u32)
        requires
            ctx.wf(),
            ctx.token_ok(BasicTypeEnum::VectorType(self)),
        ensures
            r == ctx.vector_size(self),
    {
        match &ctx.types[self.id] {
            TypeRecord::Vector { size, .. } => *size,
            _ => vstd::pervasive::unreached(),
        }
    }

    /// The element type of this vector type; a valid token of the same
    /// universe.
    pub fn get_element_type(self, ctx: &Context) -> (r: BasicTypeEnum)
        requires
            ctx.wf(),
            ctx.token_ok(BasicTypeEnum::VectorType(self)),
        ensures
            r == ctx.vector_elem(self),
            ctx.token_ok(r),
    {
        proof {
            assert(ctx.record_ok(ctx.types@[self.id as int]));
        }
        match &ctx.types[self.id] {
            TypeRecord::Vector { elem, .. } => *elem,
            _ => vstd::pervasive::unreached(),
        }
    }
}

} // verus!
