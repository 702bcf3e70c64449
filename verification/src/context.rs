//! The universe: the owning container for all entities of one compilation
//! session, the sole factory for derived entities, and the one place where
//! disposal of the underlying native resource is decided.

use vstd::prelude::*;
use core::marker::PhantomData;
use crate::support::Handle;
use crate::targets::TargetData;
use crate::attributes::{Attribute, AttributeData};
use crate::types::{
    AnyTypeEnum, BasicTypeEnum, FloatKind, FloatType, FunctionType, IntType, MetadataType,
    StructType, TypeRecord, VectorType, VoidType, MAX_INT_BIT_WIDTH,
};
use crate::values::{
    int_fits, BasicValueEnum, InlineAsm, MetadataData, MetadataValue, PointerValue, StructValue,
};
use crate::vec_value::{VectorData, VectorValue};
use crate::basic_block::{BasicBlock, FunctionValue};
use crate::builder::Builder;
use crate::module::{well_formed_ir, MemoryBuffer, Module};
use crate::{AddressSpace, InlineAsmDialect};

verus! {

/// A diagnostic callback registration: the native library calls the handler
/// with the opaque user data from within later operations. The universe only
/// records the registration; it never interprets either value.
#[derive(Clone, Copy, Debug, PartialEq, Eq, Structural)]
pub struct DiagnosticRegistration {
    pub handler: u64,
    pub user_data: u64,
}

/// No two distinct entries of a key table read the same.
pub open spec fn distinct_keys(keys: Seq<Seq<char>>) -> bool {
    forall|i: int, j: int| 0 <= i < j < keys.len() ==> #[trigger] keys[i] != #[trigger] keys[j]
}

pub open spec fn keys_contain(keys: Seq<Seq<char>>, key: Seq<char>) -> bool {
    exists|i: int| 0 <= i < keys.len() && #[trigger] keys[i] == key
}

/// The id a key table assigns to `key`; meaningful when the table contains
/// the key and its entries are distinct, for then it is the unique index of
/// the key.
pub open spec fn key_id(keys: Seq<Seq<char>>, key: Seq<char>) -> int {
    choose|i: int| 0 <= i < keys.len() && #[trigger] keys[i] == key
}

/// With distinct entries, the id of a key is exactly the index it sits at.
pub proof fn lemma_key_id_unique(keys: Seq<Seq<char>>, key: Seq<char>, i: int)
    requires
        distinct_keys(keys),
        0 <= i < keys.len(),
        keys[i] == key,
    ensures
        keys_contain(keys, key),
        key_id(keys, key) == i,
{
    assert(keys_contain(keys, key));
    let j = key_id(keys, key);
    assert(0 <= j < keys.len() && keys[j] == key);
    if i < j {
        assert(keys[i] != keys[j]);
    } else if j < i {
        assert(keys[j] != keys[i]);
    }
}

/// LAW: a key keeps the id it was first assigned. Whenever one key table is
/// extended into another (entries are only ever appended, never removed or
/// reordered) and the entries stay distinct, every key already present keeps
/// exactly the id it had before.
pub proof fn lemma_kind_id_stable(k1: Seq<Seq<char>>, k2: Seq<Seq<char>>, key: Seq<char>)
    requires
        distinct_keys(k2),
        k1.len() <= k2.len(),
        forall|i: int| 0 <= i < k1.len() ==> #[trigger] k1[i] == k2[i],
        keys_contain(k1, key),
    ensures
        keys_contain(k2, key),
        key_id(k2, key) == key_id(k1, key),
{
    let i1 = key_id(k1, key);
    assert(0 <= i1 < k1.len() && k1[i1] == key);
    assert(k2[i1] == key);
    lemma_key_id_unique(k2, key, i1);
    assert(forall|i: int, j: int|
        0 <= i < j < k1.len() ==> #[trigger] k1[i] != #[trigger] k1[j]) by {
        assert(forall|i: int, j: int| 0 <= i < j < k1.len() ==> k1[i] == k2[i] && k1[j] == k2[j]);
    }
    lemma_key_id_unique(k1, key, i1);
}

/// An element type whose constant lanes the native library stores
/// directly: an integer of 8, 16, 32 or 64 bits.
pub open spec fn simple_data_elem(t: BasicTypeEnum) -> bool {
    match t {
        BasicTypeEnum::IntType(it) => it.bits == 8 || it.bits == 16 || it.bits == 32 || it.bits
            == 64,
        _ => false,
    }
}

/// LAW: the constant shapes are mutually exclusive. No vector value is
/// both a data vector and a vector aggregate; an array constant (the
/// string constant's shape) is neither; and the undefined value, though a
/// constant, is none of the three.
pub proof fn lemma_constant_classes_exclusive(c: Context, v: VectorValue)
    ensures
        !(c.vec_is_data_vector(v) && c.vec_is_vector_node(v)),
        v.spec_is_array() ==> !c.vec_is_data_vector(v) && !c.vec_is_vector_node(v),
        v.data is Undef ==> v.spec_is_const() && !c.vec_is_data_vector(v) && !c.vec_is_vector_node(
            v,
        ) && !c.vec_is_const_string(v),
{
}

/// A universe. It wraps exactly one handle to the native context object,
/// knows whether it owns that handle (and therefore owes its disposal), and
/// keeps the ledger of everything its factory operations minted: the type
/// arena, the metadata-kind key table, the diagnostic registration, and the
/// next fresh entity id.
#[derive(Debug)]
pub struct Context {
    pub handle: Handle,
    pub owned: bool,
    pub next_id: u64,
    pub types: Vec<TypeRecord>,
    pub kind_keys: Vec<String>,
    pub diagnostic: Option<DiagnosticRegistration>,
}

impl Context {
    /// The key table, read as character sequences.
    pub open spec fn spec_kind_keys(&self) -> Seq<Seq<char>> {
        self.kind_keys@.map_values(|s: String| s@)
    }

    /// Whether this wrapper owes the disposal of the native context.
    pub open spec fn owns_native(&self) -> bool {
        self.owned
    }

    /// What this wrapper must release when it is torn down: its own handle
    /// if it owns the native context, nothing otherwise.
    pub open spec fn dispose_duty(&self) -> Option<Handle> {
        if self.owned {
            Some(self.handle)
        } else {
            None
        }
    }

    /// A type token is valid in this universe: minted here, in range of the
    /// arena, and of the kind its token claims.
    pub open spec fn token_ok(&self, t: BasicTypeEnum) -> bool {
        match t {
            BasicTypeEnum::IntType(it) => it.ctx == self.handle && 1 <= it.bits
                <= MAX_INT_BIT_WIDTH,
            BasicTypeEnum::FloatType(ft) => ft.ctx == self.handle,
            BasicTypeEnum::StructType(st) => st.ctx == self.handle && st.id < self.types@.len()
                && self.types@[st.id as int] is Struct,
            BasicTypeEnum::VectorType(vt) => vt.ctx == self.handle && vt.id < self.types@.len()
                && self.types@[vt.id as int] is Vector,
        }
    }

    /// Every component token a record mentions is itself valid, and counts
    /// stay within what the native interface can express.
    pub open spec fn record_ok(&self, r: TypeRecord) -> bool {
        match r {
            TypeRecord::Struct { field_types, .. } => {
                &&& field_types@.len() <= u32::MAX
                &&& forall|j: int|
                    0 <= j < field_types@.len() ==> self.token_ok(#[trigger] field_types@[j])
            },
            TypeRecord::Vector { elem, .. } => self.token_ok(elem),
            TypeRecord::Function { ret, params, .. } => {
                &&& params@.len() <= u32::MAX
                &&& (ret is Some ==> self.token_ok(ret->0))
                &&& forall|j: int|
                    0 <= j < params@.len() ==> self.token_ok(#[trigger] params@[j])
            },
        }
    }

    /// The ordered field types of a struct-type token; meaningful when the
    /// token is valid in this universe.
    pub open spec fn struct_fields(&self, st: StructType) -> Seq<BasicTypeEnum> {
        match self.types@[st.id as int] {
            TypeRecord::Struct { field_types, .. } => field_types@,
            _ => Seq::empty(),
        }
    }

    pub open spec fn struct_packed(&self, st: StructType) -> bool {
        match self.types@[st.id as int] {
            TypeRecord::Struct { packed, .. } => packed,
            _ => arbitrary(),
        }
    }

    pub open spec fn struct_name(&self, st: StructType) -> Option<Seq<char>> {
        match self.types@[st.id as int] {
            TypeRecord::Struct { name, .. } => match name {
                Some(n) => Some(n@),
                None => None,
            },
            _ => arbitrary(),
        }
    }

    pub open spec fn struct_opaque(&self, st: StructType) -> bool {
        match self.types@[st.id as int] {
            TypeRecord::Struct { opaque, .. } => opaque,
            _ => arbitrary(),
        }
    }

    /// The element type of a vector-type token.
    pub open spec fn vector_elem(&self, vt: VectorType) -> BasicTypeEnum {
        match self.types@[vt.id as int] {
            TypeRecord::Vector { elem, .. } => elem,
            _ => arbitrary(),
        }
    }

    /// The lane count of a vector-type token.
    pub open spec fn vector_size(&self, vt: VectorType) -> u32 {
        match self.types@[vt.id as int] {
            TypeRecord::Vector { size, .. } => size,
            _ => arbitrary(),
        }
    }

    pub open spec fn fn_ret(&self, ft: FunctionType) -> Option<BasicTypeEnum> {
        match self.types@[ft.id as int] {
            TypeRecord::Function { ret, .. } => ret,
            _ => arbitrary(),
        }
    }

    pub open spec fn fn_params(&self, ft: FunctionType) -> Seq<BasicTypeEnum> {
        match self.types@[ft.id as int] {
            TypeRecord::Function { params, .. } => params@,
            _ => Seq::empty(),
        }
    }

    pub open spec fn fn_is_var_args(&self, ft: FunctionType) -> bool {
        match self.types@[ft.id as int] {
            TypeRecord::Function { is_var_args, .. } => is_var_args,
            _ => arbitrary(),
        }
    }

    /// A function-type token is valid in this universe.
    pub open spec fn fn_token_ok(&self, ft: FunctionType) -> bool {
        ft.ctx == self.handle && ft.id < self.types@.len() && self.types@[ft.id as int]
            is Function
    }

    /// A vector value is well formed in this universe: its type token is
    /// valid; a lane-holding constant has exactly one lane per element the
    /// type counts, each lane reduced to the element width; and an array
    /// constant (the byte-string shape) has 8-bit integer elements.
    pub open spec fn vec_wf(&self, v: VectorValue) -> bool {
        &&& self.token_ok(BasicTypeEnum::VectorType(v.ty))
        &&& (v.spec_stores_lanes() ==> {
            &&& v.spec_lanes().len() == self.vector_size(v.ty)
            &&& (match self.vector_elem(v.ty) {
                BasicTypeEnum::IntType(it) => forall|i: int|
                    0 <= i < v.spec_lanes().len() ==> int_fits(it.bits, #[trigger] v.spec_lanes()[i]),
                _ => true,
            })
            &&& (v.spec_is_array() ==> self.vector_elem(v.ty) == BasicTypeEnum::IntType(
                IntType { ctx: self.handle, bits: 8 },
            ))
        })
    }

    /// A data vector: a lane-built constant vector whose element type the
    /// native library stores directly.
    pub open spec fn vec_is_data_vector(&self, v: VectorValue) -> bool {
        v.spec_stores_lanes() && !v.spec_is_array() && simple_data_elem(self.vector_elem(v.ty))
    }

    /// A vector aggregate: a lane-built constant vector of any other
    /// element type.
    pub open spec fn vec_is_vector_node(&self, v: VectorValue) -> bool {
        v.spec_stores_lanes() && !v.spec_is_array() && !simple_data_elem(self.vector_elem(v.ty))
    }

    /// A string constant: a lane-holding constant of 8-bit integer
    /// elements, whatever shape it was built in.
    pub open spec fn vec_is_const_string(&self, v: VectorValue) -> bool {
        v.spec_stores_lanes() && self.vector_elem(v.ty) == BasicTypeEnum::IntType(
            IntType { ctx: self.handle, bits: 8 },
        )
    }

    /// The universe's invariant: fresh ids never collide with minted ones,
    /// the key table is duplicate-free and indexable by `u32`, and every
    /// arena record only mentions valid tokens.
    pub open spec fn wf(&self) -> bool {
        &&& 2 <= self.next_id
        &&& distinct_keys(self.spec_kind_keys())
        &&& self.kind_keys@.len() <= u32::MAX
        &&& forall|i: int| 0 <= i < self.types@.len() ==> self.record_ok(#[trigger] self.types@[i])
    }

    /// The ledger only ever grows: identity and ownership are fixed, minted
    /// ids stay minted, arena records and key entries stay in place.
    pub open spec fn extends(&self, prev: Context) -> bool {
        &&& self.handle == prev.handle
        &&& self.owned == prev.owned
        &&& self.next_id >= prev.next_id
        &&& self.types@.len() >= prev.types@.len()
        &&& forall|i: int| 0 <= i < prev.types@.len() ==> self.types@[i] == #[trigger] prev.types@[i]
        &&& self.spec_kind_keys().len() >= prev.spec_kind_keys().len()
        &&& forall|i: int|
            0 <= i < prev.spec_kind_keys().len() ==> self.spec_kind_keys()[i]
                == #[trigger] prev.spec_kind_keys()[i]
    }

    /// A token valid in a universe stays valid in every extension of it.
    pub proof fn lemma_token_ok_monotone(c1: Context, c2: Context, t: BasicTypeEnum)
        requires
            c1.token_ok(t),
            c2.extends(c1),
        ensures
            c2.token_ok(t),
    {
    }

    fn with_handle(handle: Handle, owned: bool) -> (r: Context)
        ensures
            r.wf(),
            r.handle == handle,
            r.owned == owned,
            r.next_id == 2,
            r.types@.len() == 0,
            r.diagnostic is None,
            r.spec_kind_keys().len() == 3,
            r.spec_kind_keys()[0] == "dbg"@,
            r.spec_kind_keys()[1] == "tbaa"@,
            r.spec_kind_keys()[2] == "prof"@,
    {
        let mut kind_keys: Vec<String> = Vec::new();
        kind_keys.push("dbg".to_owned());
        kind_keys.push("tbaa".to_owned());
        kind_keys.push("prof".to_owned());
        let r = Context {
            handle,
            owned,
            next_id: 2,
            types: Vec::new(),
            kind_keys,
            diagnostic: None,
        };
        proof {
            reveal_strlit("dbg");
            reveal_strlit("tbaa");
            reveal_strlit("prof");
            assert(r.spec_kind_keys().len() == 3);
            assert(r.spec_kind_keys()[0] == "dbg"@);
            assert(r.spec_kind_keys()[1] == "tbaa"@);
            assert(r.spec_kind_keys()[2] == "prof"@);
            assert("dbg"@.len() == 3 && "tbaa"@.len() == 4 && "prof"@.len() == 4);
            assert("tbaa"@[0] == 't' && "prof"@[0] == 'p');
            assert(distinct_keys(r.spec_kind_keys()));
        }
        r
    }

    /// Creates a fresh universe. The caller owns it: dropping it is what
    /// disposes the native context, exactly once.
    ///
    /// Every universe numbers its own handles from the same start, so a
    /// handle is an identity within its universe only — exactly as far as
    /// the native library's pointer identities reach within one process.
    /// Tokens must not be carried from one universe into another; every
    /// validated read checks the universe handle, a best-effort guard
    /// with the same limit.
    pub fn create() -> (r: Context)
        ensures
            r.wf(),
            r.owns_native(),
            r.dispose_duty() == Some(r.handle),
            r.next_id == 2,
            r.types@.len() == 0,
            r.diagnostic is None,
            r.spec_kind_keys().len() == 3,
            r.spec_kind_keys()[0] == "dbg"@,
            r.spec_kind_keys()[1] == "tbaa"@,
            r.spec_kind_keys()[2] == "prof"@,
    {
        Context::with_handle(Handle::from_raw(1), true)
    }

    /// Wraps a native context that something else owns — the global context,
    /// or a context reached through a borrowed entity. The wrapper built here
    /// never owes a disposal, so it can never double-free the context it
    /// aliases; wrapping the null handle is a caller contract violation and
    /// is excluded up front. The ledger starts from the well-known key table
    /// only: what other parties minted in that context is not visible here.
    pub fn wrap_existing(raw: u64) -> (r: Context)
        requires
            raw != 0,
        ensures
            r.wf(),
            !r.owns_native(),
            r.dispose_duty() is None,
            r.handle.spec_raw() == raw,
            r.next_id == 2,
            r.types@.len() == 0,
            r.spec_kind_keys().len() == 3,
            r.spec_kind_keys()[0] == "dbg"@,
            r.spec_kind_keys()[1] == "tbaa"@,
            r.spec_kind_keys()[2] == "prof"@,
    {
        Context::with_handle(Handle::from_raw(raw), false)
    }

    /// Tears the wrapper down and reports what must be released: the wrapped
    /// handle when this universe owns the native context, nothing when it
    /// does not. Consuming `self` makes a second report for the same wrapper
    /// impossible, so the native disposal this mandates happens at most once
    /// per wrapper — and the invariant that at most one wrapper owns a given
    /// handle makes it exactly once per owned context.
    pub fn dispose(self) -> (r: Option<Handle>)
        ensures
            r == self.dispose_duty(),
    {
        if self.owned {
            Some(self.handle)
        } else {
            None
        }
    }

    /// A borrowed, non-owning view of this universe, bounded by the borrow.
    pub fn get_ref<'ctx>(&'ctx self) -> (r: ContextRef<'ctx>)
        ensures
            r.handle == self.handle,
            r.dispose_duty() is None,
    {
        ContextRef { handle: self.handle, _marker: PhantomData }
    }

    /// The empty type of this universe.
    pub fn void_type(&self) -> (r: VoidType)
        ensures
            r.ctx == self.handle,
    {
        VoidType { ctx: self.handle }
    }

    /// The 1-bit integer type of this universe.
    pub fn bool_type(&self) -> (r: IntType)
        ensures
            r == (IntType { ctx: self.handle, bits: 1 }),
    {
        IntType { ctx: self.handle, bits: 1 }
    }

    pub fn i8_type(&self) -> (r: IntType)
        ensures
            r == (IntType { ctx: self.handle, bits: 8 }),
    {
        IntType { ctx: self.handle, bits: 8 }
    }

    pub fn i16_type(&self) -> (r: IntType)
        ensures
            r == (IntType { ctx: self.handle, bits: 16 }),
    {
        IntType { ctx: self.handle, bits: 16 }
    }

    pub fn i32_type(&self) -> (r: IntType)
        ensures
            r == (IntType { ctx: self.handle, bits: 32 }),
    {
        IntType { ctx: self.handle, bits: 32 }
    }

    pub fn i64_type(&self) -> (r: IntType)
        ensures
            r == (IntType { ctx: self.handle, bits: 64 }),
    {
        IntType { ctx: self.handle, bits: 64 }
    }

    pub fn i128_type(&self) -> (r: IntType)
        ensures
            r == (IntType { ctx: self.handle, bits: 128 }),
    {
        self.custom_width_int_type(128)
    }

    /// An integer type of any width the native library accepts. Widths
    /// outside `1..=MAX_INT_BIT_WIDTH` are a caller contract violation.
    pub fn custom_width_int_type(&self, bits: u32) -> (r: IntType)
        requires
            1 <= bits <= MAX_INT_BIT_WIDTH,
        ensures
            r == (IntType { ctx: self.handle, bits }),
    {
        IntType { ctx: self.handle, bits }
    }

    /// The metadata type of this universe.
    pub fn metadata_type(&self) -> (r: MetadataType)
        ensures
            r.ctx == self.handle,
    {
        MetadataType { ctx: self.handle }
    }

    /// The integer type as wide as a pointer on the given target, in the
    /// given address space (or the target's default space).
    pub fn ptr_sized_int_type(&self, target_data: &TargetData, address_space: Option<AddressSpace>)
        -> (r: IntType)
        requires
            target_data.wf(),
        ensures
            r.ctx == self.handle,
            r.bits == target_data.spec_ptr_width(address_space),
            1 <= r.bits <= MAX_INT_BIT_WIDTH,
    {
        let bits: u32 = target_data.ptr_width(address_space);
        IntType { ctx: self.handle, bits }
    }

    pub fn f16_type(&self) -> (r: FloatType)
        ensures
            r == (FloatType { ctx: self.handle, kind: FloatKind::Half }),
    {
        FloatType { ctx: self.handle, kind: FloatKind::Half }
    }

    pub fn f32_type(&self) -> (r: FloatType)
        ensures
            r == (FloatType { ctx: self.handle, kind: FloatKind::Single }),
    {
        FloatType { ctx: self.handle, kind: FloatKind::Single }
    }

    pub fn f64_type(&self) -> (r: FloatType)
        ensures
            r == (FloatType { ctx: self.handle, kind: FloatKind::Double }),
    {
        FloatType { ctx: self.handle, kind: FloatKind::Double }
    }

    pub fn x86_f80_type(&self) -> (r: FloatType)
        ensures
            r == (FloatType { ctx: self.handle, kind: FloatKind::X86F80 }),
    {
        FloatType { ctx: self.handle, kind: FloatKind::X86F80 }
    }

    pub fn f128_type(&self) -> (r: FloatType)
        ensures
            r == (FloatType { ctx: self.handle, kind: FloatKind::F128 }),
    {
        FloatType { ctx: self.handle, kind: FloatKind::F128 }
    }

    pub fn ppc_f128_type(&self) -> (r: FloatType)
        ensures
            r == (FloatType { ctx: self.handle, kind: FloatKind::PpcF128 }),
    {
        FloatType { ctx: self.handle, kind: FloatKind::PpcF128 }
    }

    /// The numeric id of a metadata kind. A key already in the table keeps
    /// the id it was first assigned; a never-before-seen key is appended and
    /// receives the next unused id. In a fresh universe the well-known keys
    /// sit at the front of the table, so "dbg", "tbaa" and "prof" read ids
    /// 0, 1 and 2.
    ///
    /// This ledger seeds only those three keys, so its first custom id is
    /// 3; the native table seeds more well-known kinds and numbers its
    /// custom keys from a higher first id. The stated properties — the
    /// fixed first three ids, a fresh unused id per new key, and the same
    /// id on every repetition — hold of both numberings.
    pub fn get_kind_id(&mut self, key: &str) -> (id: u32)
        requires
            old(self).wf(),
            old(self).kind_keys@.len() < u32::MAX,
        ensures
            final(self).wf(),
            final(self).extends(*old(self)),
            final(self).types@ == old(self).types@,
            final(self).diagnostic == old(self).diagnostic,
            final(self).next_id == old(self).next_id,
            (if keys_contain(old(self).spec_kind_keys(), key@) {
                final(self).spec_kind_keys() == old(self).spec_kind_keys()
            } else {
                final(self).spec_kind_keys() =~= old(self).spec_kind_keys().push(key@) && id
                    == old(self).spec_kind_keys().len()
            }),
            keys_contain(final(self).spec_kind_keys(), key@),
            id == key_id(final(self).spec_kind_keys(), key@),
    {
        let k: String = key.to_owned();
        let n = self.kind_keys.len();
        let mut i: usize = 0;
        while i < n
            invariant
                i <= n,
                *self == *old(self),
                n == self.kind_keys@.len(),
                self.wf(),
                n < u32::MAX,
                k@ == key@,
                forall|j: int| 0 <= j < i ==> self.spec_kind_keys()[j] != key@,
            decreases n - i,
        {
            if self.kind_keys[i] == k {
                proof {
                    lemma_key_id_unique(self.spec_kind_keys(), key@, i as int);
                }
                return i as u32;
            }
            i += 1;
        }
        self.kind_keys.push(k);
        proof {
            let prev = old(self).spec_kind_keys();
            assert(self.spec_kind_keys() =~= prev.push(key@));
            assert(!keys_contain(prev, key@));
            assert(distinct_keys(self.spec_kind_keys())) by {
                assert(forall|j: int| 0 <= j < prev.len() ==> #[trigger] prev[j] != key@);
            }
            lemma_key_id_unique(self.spec_kind_keys(), key@, n as int);
        }
        n as u32
    }

    /// Records the diagnostic callback for this universe. The handler and
    /// its user data are opaque here; the runtime layer passes them to the
    /// native registration call.
    pub fn set_diagnostic_handler(&mut self, handler: u64, user_data: u64)
        ensures
            *final(self) == (Context {
                diagnostic: Some(DiagnosticRegistration { handler, user_data }),
                ..*old(self)
            }),
    {
        self.diagnostic = Some(DiagnosticRegistration { handler, user_data });
    }
}

/// A record whose component tokens are valid in a universe keeps them valid
/// in every extension of that universe.
pub proof fn lemma_record_ok_monotone(c1: Context, c2: Context, r: TypeRecord)
    requires
        c1.record_ok(r),
        c2.extends(c1),
    ensures
        c2.record_ok(r),
{
    match r {
        TypeRecord::Struct { field_types, .. } => {
            assert forall|j: int|
                0 <= j < field_types@.len() implies c2.token_ok(#[trigger] field_types@[j]) by {
                Context::lemma_token_ok_monotone(c1, c2, field_types@[j]);
            }
        },
        TypeRecord::Vector { elem, .. } => {
            Context::lemma_token_ok_monotone(c1, c2, elem);
        },
        TypeRecord::Function { ret, params, .. } => {
            if ret is Some {
                Context::lemma_token_ok_monotone(c1, c2, ret->0);
            }
            assert forall|j: int|
                0 <= j < params@.len() implies c2.token_ok(#[trigger] params@[j]) by {
                Context::lemma_token_ok_monotone(c1, c2, params@[j]);
            }
        },
    }
}

impl Context {
    /// Appends one record to the type arena. The arena only grows, so every
    /// token minted earlier stays valid.
    pub(crate) fn push_type_record(&mut self, rec: TypeRecord) -> (id: usize)
        requires
            old(self).wf(),
            old(self).record_ok(rec),
        ensures
            final(self).wf(),
            final(self).extends(*old(self)),
            final(self).types@ == old(self).types@.push(rec),
            id == old(self).types@.len(),
            final(self).next_id == old(self).next_id,
            final(self).kind_keys@ == old(self).kind_keys@,
            final(self).diagnostic == old(self).diagnostic,
            final(self).handle == old(self).handle,
    {
        let id = self.types.len();
        self.types.push(rec);
        proof {
            assert(self.extends(*old(self)));
            assert forall|i: int|
                0 <= i < self.types@.len() implies self.record_ok(#[trigger] self.types@[i]) by {
                if i < old(self).types@.len() {
                    lemma_record_ok_monotone(*old(self), *self, old(self).types@[i]);
                } else {
                    lemma_record_ok_monotone(*old(self), *self, rec);
                }
            }
        }
        id
    }

    /// Mints a fresh entity handle, distinct from every handle this
    /// universe handed out before.
    pub(crate) fn mint_handle(&mut self) -> (h: Handle)
        requires
            old(self).wf(),
            old(self).next_id < u64::MAX,
        ensures
            final(self).wf(),
            final(self).extends(*old(self)),
            *final(self) == (Context { next_id: (old(self).next_id + 1) as u64, ..*old(self) }),
            h.spec_raw() == old(self).next_id,
    {
        let h = Handle::from_raw(self.next_id);
        self.next_id = self.next_id + 1;
        h
    }

    /// A struct type over the given ordered field types. Reading the field
    /// types back from the minted token yields exactly the handed sequence,
    /// in order.
    pub fn struct_type(&mut self, field_types: &Vec<BasicTypeEnum>, packed: bool) -> (r:
        StructType)
        requires
            old(self).wf(),
            field_types@.len() <= u32::MAX,
            forall|j: int|
                0 <= j < field_types@.len() ==> old(self).token_ok(#[trigger] field_types@[j]),
        ensures
            final(self).wf(),
            final(self).extends(*old(self)),
            final(self).next_id == old(self).next_id,
            final(self).kind_keys@ == old(self).kind_keys@,
            r.ctx == old(self).handle,
            r.id == old(self).types@.len(),
            final(self).token_ok(BasicTypeEnum::StructType(r)),
            final(self).struct_fields(r) == field_types@,
            final(self).struct_packed(r) == packed,
            final(self).struct_name(r) is None,
            !final(self).struct_opaque(r),
    {
        let n = field_types.len();
        let mut fields: Vec<BasicTypeEnum> = Vec::new();
        let mut i: usize = 0;
        while i < n
            invariant
                i <= n,
                n == field_types@.len(),
                fields@.len() == i,
                forall|j: int| 0 <= j < i ==> fields@[j] == field_types@[j],
            decreases n - i,
        {
            fields.push(field_types[i]);
            i += 1;
        }
        proof {
            assert(fields@ =~= field_types@);
        }
        let rec = TypeRecord::Struct { name: None, field_types: fields, packed, opaque: false };
        let id = self.push_type_record(rec);
        StructType { ctx: self.handle, id }
    }

    /// An opaque struct type with a name and no body yet. Named struct
    /// creation is never deduplicated: every call mints a fresh record,
    /// whatever the name.
    pub fn opaque_struct_type(&mut self, name: &str) -> (r: StructType)
        requires
            old(self).wf(),
        ensures
            final(self).wf(),
            final(self).extends(*old(self)),
            final(self).next_id == old(self).next_id,
            final(self).kind_keys@ == old(self).kind_keys@,
            r.ctx == old(self).handle,
            r.id == old(self).types@.len(),
            final(self).token_ok(BasicTypeEnum::StructType(r)),
            final(self).struct_fields(r).len() == 0,
            final(self).struct_name(r) == Some(name@),
            final(self).struct_opaque(r),
            !final(self).struct_packed(r),
    {
        let rec = TypeRecord::Struct {
            name: Some(name.to_owned()),
            field_types: Vec::new(),
            packed: false,
            opaque: true,
        };
        let id = self.push_type_record(rec);
        StructType { ctx: self.handle, id }
    }

    /// A constant struct over the given ordered field values. The type of
    /// the result lists exactly the types of the handed values, in order,
    /// and the result carries the handed values themselves.
    pub fn const_struct(&mut self, values: Vec<BasicValueEnum>, packed: bool) -> (r: StructValue)
        requires
            old(self).wf(),
            values@.len() <= u32::MAX,
            forall|j: int|
                0 <= j < values@.len() ==> old(self).token_ok(
                    (#[trigger] values@[j]).spec_ty(),
                ),
        ensures
            final(self).wf(),
            final(self).extends(*old(self)),
            final(self).next_id == old(self).next_id,
            final(self).kind_keys@ == old(self).kind_keys@,
            r.fields@ == values@,
            r.ty.ctx == old(self).handle,
            final(self).token_ok(BasicTypeEnum::StructType(r.ty)),
            final(self).struct_fields(r.ty).len() == values@.len(),
            forall|j: int|
                0 <= j < values@.len() ==> final(self).struct_fields(r.ty)[j] == (
                #[trigger] values@[j]).spec_ty(),
            final(self).struct_packed(r.ty) == packed,
    {
        let n = values.len();
        let mut tys: Vec<BasicTypeEnum> = Vec::new();
        let mut i: usize = 0;
        while i < n
            invariant
                i <= n,
                n == values@.len(),
                tys@.len() == i,
                forall|j: int| 0 <= j < i ==> tys@[j] == values@[j].spec_ty(),
                forall|j: int|
                    0 <= j < values@.len() ==> old(self).token_ok(
                        (#[trigger] values@[j]).spec_ty(),
                    ),
                *self == *old(self),
            decreases n - i,
        {
            let t = values[i].get_type();
            tys.push(t);
            i += 1;
        }
        let rec = TypeRecord::Struct { name: None, field_types: tys, packed, opaque: false };
        let id = self.push_type_record(rec);
        StructValue { ty: StructType { ctx: self.handle, id }, fields: values }
    }

    /// A string constant from the given bytes: an array constant of 8-bit
    /// integers holding one lane per byte, with one extra zero lane
    /// appended when `null_terminated` asks for it. Being an array, the
    /// result is neither a data vector nor a vector aggregate.
    pub fn const_string(&mut self, string: &[u8], null_terminated: bool) -> (r: VectorValue)
        requires
            old(self).wf(),
            string@.len() + 1 <= u32::MAX,
        ensures
            final(self).wf(),
            final(self).extends(*old(self)),
            final(self).next_id == old(self).next_id,
            final(self).kind_keys@ == old(self).kind_keys@,
            r.ty.ctx == old(self).handle,
            final(self).token_ok(BasicTypeEnum::VectorType(r.ty)),
            final(self).vector_elem(r.ty) == BasicTypeEnum::IntType(
                IntType { ctx: old(self).handle, bits: 8 },
            ),
            final(self).vec_wf(r),
            r.spec_stores_lanes(),
            r.spec_is_array(),
            final(self).vec_is_const_string(r),
            r.spec_lanes().len() == string@.len() + (if null_terminated {
                1int
            } else {
                0int
            }),
            forall|i: int| 0 <= i < string@.len() ==> r.spec_lanes()[i] == string@[i] as u64,
            null_terminated ==> r.spec_lanes()[string@.len() as int] == 0,
    {
        let n = string.len();
        let mut lanes: Vec<u64> = Vec::new();
        let mut i: usize = 0;
        while i < n
            invariant
                i <= n,
                n == string@.len(),
                lanes@.len() == i,
                forall|j: int| 0 <= j < i ==> lanes@[j] == string@[j] as u64,
            decreases n - i,
        {
            lanes.push(string[i] as u64);
            i += 1;
        }
        if null_terminated {
            lanes.push(0u64);
        }
        let size: u32 = lanes.len() as u32;
        let elem = BasicTypeEnum::IntType(IntType { ctx: self.handle, bits: 8 });
        let rec = TypeRecord::Vector { elem, size };
        let id = self.push_type_record(rec);
        let ty = VectorType { ctx: self.handle, id };
        let r = VectorValue { ty, data: VectorData::ConstData { lanes, array: true } };
        proof {
            vstd::arithmetic::power2::lemma2_to64();
            assert(forall|k: int|
                0 <= k < r.spec_lanes().len() ==> int_fits(8, #[trigger] r.spec_lanes()[k]));
            assert(self.vec_wf(r));
        }
        r
    }

    /// A metadata tuple ("node") over the given values.
    pub fn metadata_node(&self, values: Vec<BasicValueEnum>) -> (r: MetadataValue)
        ensures
            r == (MetadataValue {
                ctx: self.handle,
                data: MetadataData::Node { elems: values },
            }),
    {
        MetadataValue { ctx: self.handle, data: MetadataData::Node { elems: values } }
    }

    /// A metadata string.
    pub fn metadata_string(&self, string: &str) -> (r: MetadataValue)
        ensures
            r.ctx == self.handle,
            r.data matches MetadataData::Str { text } && text@ == string@,
    {
        MetadataValue { ctx: self.handle, data: MetadataData::Str { text: string.to_owned() } }
    }

    /// An inline-assembly callable over the given function type, assembly
    /// text, constraint string and flags. A missing dialect reads as the
    /// default (AT&T) dialect.
    pub fn create_inline_asm(
        &self,
        ty: FunctionType,
        assembly: String,
        constraints: String,
        sideeffects: bool,
        alignstack: bool,
        dialect: Option<InlineAsmDialect>,
        can_throw: bool,
    ) -> (r: PointerValue)
        ensures
            r.ctx == self.handle,
            r.inline_asm == (InlineAsm {
                fn_ty: ty,
                assembly,
                constraints,
                has_side_effects: sideeffects,
                is_align_stack: alignstack,
                dialect: (match dialect {
                    Some(d) => d,
                    None => InlineAsmDialect::ATT,
                }),
                can_throw,
            }),
    {
        let d = match dialect {
            Some(d) => d,
            None => InlineAsmDialect::ATT,
        };
        PointerValue {
            ctx: self.handle,
            inline_asm: InlineAsm {
                fn_ty: ty,
                assembly,
                constraints,
                has_side_effects: sideeffects,
                is_align_stack: alignstack,
                dialect: d,
                can_throw,
            },
        }
    }

    /// An enum attribute: a numeric kind id with a numeric value.
    pub fn create_enum_attribute(&self, kind_id: u32, val: u64) -> (r: Attribute)
        ensures
            r == (Attribute {
                ctx: self.handle,
                data: AttributeData::Enum { kind_id, value: val },
            }),
    {
        Attribute { ctx: self.handle, data: AttributeData::Enum { kind_id, value: val } }
    }

    /// A string attribute: a key with a value.
    pub fn create_string_attribute(&self, key: &str, val: &str) -> (r: Attribute)
        ensures
            r.ctx == self.handle,
            r.data matches AttributeData::Str { key: k, value: v } && k@ == key@ && v@ == val@,
    {
        Attribute {
            ctx: self.handle,
            data: AttributeData::Str { key: key.to_owned(), value: val.to_owned() },
        }
    }

    /// A type attribute: a numeric kind id with a type attached.
    pub fn create_type_attribute(&self, kind_id: u32, type_ref: AnyTypeEnum) -> (r: Attribute)
        ensures
            r == (Attribute {
                ctx: self.handle,
                data: AttributeData::Type { kind_id, ty: type_ref },
            }),
    {
        Attribute { ctx: self.handle, data: AttributeData::Type { kind_id, ty: type_ref } }
    }
}

impl Context {
    /// A function is well formed in this universe: its blocks carry
    /// pairwise-distinct handles, all minted below the universe's next
    /// fresh id.
    pub open spec fn func_wf(&self, f: FunctionValue) -> bool {
        &&& f.blocks_distinct()
        &&& f.handles_below(self.next_id)
    }

    /// A builder for this universe.
    pub fn create_builder(&mut self) -> (r: Builder)
        requires
            old(self).wf(),
            old(self).next_id < u64::MAX,
        ensures
            final(self).wf(),
            final(self).extends(*old(self)),
            final(self).types@ == old(self).types@,
            final(self).kind_keys@ == old(self).kind_keys@,
            final(self).next_id == old(self).next_id + 1,
            r.ctx == old(self).handle,
            r.handle.spec_raw() == old(self).next_id,
    {
        let h = self.mint_handle();
        Builder { handle: h, ctx: self.handle }
    }

    /// A fresh, empty module with the given name, tied to this universe.
    pub fn create_module(&mut self, name: &str) -> (r: Module)
        requires
            old(self).wf(),
            old(self).next_id < u64::MAX,
        ensures
            final(self).wf(),
            final(self).extends(*old(self)),
            final(self).types@ == old(self).types@,
            final(self).kind_keys@ == old(self).kind_keys@,
            final(self).next_id == old(self).next_id + 1,
            r.ctx == old(self).handle,
            r.name@ == name@,
            r.handle.spec_raw() == old(self).next_id,
    {
        let h = self.mint_handle();
        Module { handle: h, ctx: self.handle, name: name.to_owned() }
    }

    /// Parses a module from a byte buffer. The buffer is consumed by this
    /// call whatever the outcome — its storage must not be released again
    /// afterwards, which moving it in here makes impossible. A buffer whose
    /// bytes open with the recognized container signature yields a usable
    /// module tied to this universe; any other buffer yields a non-empty
    /// error message and no module.
    pub fn create_module_from_ir(&mut self, memory_buffer: MemoryBuffer) -> (r: Result<
        Module,
        String,
    >)
        requires
            old(self).wf(),
            old(self).next_id < u64::MAX,
        ensures
            final(self).wf(),
            final(self).extends(*old(self)),
            final(self).types@ == old(self).types@,
            final(self).kind_keys@ == old(self).kind_keys@,
            r is Ok <==> well_formed_ir(memory_buffer.bytes@),
            r is Ok ==> final(self).next_id == old(self).next_id + 1,
            r matches Ok(m) ==> m.ctx == old(self).handle && m.handle.spec_raw() == old(
                self,
            ).next_id,
            r matches Err(e) ==> e@.len() > 0 && *final(self) == *old(self),
    {
        let ok = memory_buffer.get_size() >= 4 && {
            let b0 = memory_buffer.bytes[0];
            let b1 = memory_buffer.bytes[1];
            let b2 = memory_buffer.bytes[2];
            let b3 = memory_buffer.bytes[3];
            b0 == 0x42u8 && b1 == 0x43u8 && b2 == 0xc0u8 && b3 == 0xdeu8
        };
        if ok {
            let h = self.mint_handle();
            Ok(Module { handle: h, ctx: self.handle, name: String::new() })
        } else {
            let message = "Invalid IR payload: no recognizable container signature".to_owned();
            proof {
                reveal_strlit("Invalid IR payload: no recognizable container signature");
            }
            Err(message)
        }
    }

    /// Appends a named block at the end of the given function's block
    /// order.
    pub fn append_basic_block(&mut self, function: &mut FunctionValue, name: &str) -> (r:
        BasicBlock)
        requires
            old(self).wf(),
            old(self).next_id < u64::MAX,
            old(self).func_wf(*old(function)),
        ensures
            final(self).wf(),
            final(self).extends(*old(self)),
            final(self).types@ == old(self).types@,
            final(self).kind_keys@ == old(self).kind_keys@,
            final(self).next_id == old(self).next_id + 1,
            final(self).func_wf(*final(function)),
            final(function).handle == old(function).handle,
            final(function).name == old(function).name,
            final(function).fn_ty == old(function).fn_ty,
            final(function).blocks@ == old(function).blocks@.push(r),
            r.name@ == name@,
            r.handle.spec_raw() == old(self).next_id,
    {
        let h = self.mint_handle();
        let bb = BasicBlock { handle: h, name: name.to_owned() };
        let r = bb.duplicate();
        function.blocks.push(bb);
        r
    }

    /// Prepends a named block immediately before the given block in its
    /// function's block order. A block that is not in the function is a
    /// caller contract violation.
    pub fn prepend_basic_block(
        &mut self,
        function: &mut FunctionValue,
        basic_block: &BasicBlock,
        name: &str,
    ) -> (r: BasicBlock)
        requires
            old(self).wf(),
            old(self).next_id < u64::MAX,
            old(self).func_wf(*old(function)),
            old(function).spec_contains_handle(basic_block.handle),
        ensures
            final(self).wf(),
            final(self).extends(*old(self)),
            final(self).types@ == old(self).types@,
            final(self).kind_keys@ == old(self).kind_keys@,
            final(self).next_id == old(self).next_id + 1,
            final(self).func_wf(*final(function)),
            final(function).handle == old(function).handle,
            final(function).name == old(function).name,
            final(function).fn_ty == old(function).fn_ty,
            final(function).blocks@ == old(function).blocks@.insert(
                old(function).block_index(basic_block.handle),
                r,
            ),
            r.name@ == name@,
            r.handle.spec_raw() == old(self).next_id,
    {
        let idx = function.index_of_handle(basic_block.handle);
        let h = self.mint_handle();
        let bb = BasicBlock { handle: h, name: name.to_owned() };
        let r = bb.duplicate();
        function.blocks.insert(idx, bb);
        r
    }

    /// Places a named block immediately after the given block: when that
    /// block has a successor, the new block lands immediately before the
    /// successor, keeping the rest of the order; when it is the last block,
    /// the new block is appended at the end. A block that is in no function
    /// (so has neither a parent order nor a successor) is a caller contract
    /// violation, excluded by requiring the block to be in the function.
    pub fn insert_basic_block_after(
        &mut self,
        function: &mut FunctionValue,
        basic_block: &BasicBlock,
        name: &str,
    ) -> (r: BasicBlock)
        requires
            old(self).wf(),
            old(self).next_id < u64::MAX,
            old(self).func_wf(*old(function)),
            old(function).spec_contains_handle(basic_block.handle),
        ensures
            final(self).wf(),
            final(self).extends(*old(self)),
            final(self).types@ == old(self).types@,
            final(self).kind_keys@ == old(self).kind_keys@,
            final(self).next_id == old(self).next_id + 1,
            final(self).func_wf(*final(function)),
            final(function).handle == old(function).handle,
            final(function).name == old(function).name,
            final(function).fn_ty == old(function).fn_ty,
            final(function).blocks@ == old(function).blocks@.insert(
                old(function).block_index(basic_block.handle) + 1,
                r,
            ),
            r.name@ == name@,
            r.handle.spec_raw() == old(self).next_id,
    {
        let idx = function.index_of_handle(basic_block.handle);
        let n = function.blocks.len();
        if idx < n - 1 {
            let next = function.blocks[idx + 1].duplicate();
            proof {
                old(function).lemma_block_index_unique(next.handle, idx + 1);
            }
            self.prepend_basic_block(function, &next, name)
        } else {
            let r = self.append_basic_block(function, name);
            proof {
                assert(old(function).blocks@.insert(idx + 1, r) =~= old(function).blocks@.push(
                    r,
                ));
            }
            r
        }
    }
}

/// A non-owning view of a universe, bounded by a caller-supplied borrow. It
/// is built only from a live `Context`, so it can never outlive the universe
/// it aliases, and it carries no disposal duty, so it can never double-free
/// it.
#[derive(Clone, Copy, Debug, PartialEq, Eq)]
pub struct ContextRef<'ctx> {
    pub handle: Handle,
    pub _marker: PhantomData<&'ctx ()>,
}

impl<'ctx> ContextRef<'ctx> {
    /// A view never owns the native context.
    pub open spec fn owns_native(&self) -> bool {
        false
    }

    /// A view never owes a disposal.
    pub open spec fn dispose_duty(&self) -> Option<Handle> {
        None
    }

    pub fn handle(&self) -> (r: Handle)
        ensures
            r == self.handle,
    {
        self.handle
    }

    /// A non-owning universe wrapper for the viewed context — built the
    /// same way as any universe, with disposal disabled. This is how a view
    /// exposes the universe operations without claiming ownership; its
    /// ledger starts fresh, as `wrap_existing` documents.
    pub fn to_non_owning(&self) -> (r: Context)
        ensures
            r.wf(),
            !r.owns_native(),
            r.dispose_duty() is None,
            r.handle.spec_raw() == self.handle.spec_raw(),
    {
        Context::wrap_existing(self.handle.raw())
    }
}

/// LAW: an assigned metadata-kind id persists. In any extension of a
/// universe (and every operation of a universe only ever extends it), a
/// key already in the kind table keeps exactly the id it was first
/// assigned.
pub proof fn lemma_kind_id_persists(c1: Context, c2: Context, key: Seq<char>)
    requires
        c2.wf(),
        c2.extends(c1),
        keys_contain(c1.spec_kind_keys(), key),
    ensures
        keys_contain(c2.spec_kind_keys(), key),
        key_id(c2.spec_kind_keys(), key) == key_id(c1.spec_kind_keys(), key),
{
    lemma_kind_id_stable(c1.spec_kind_keys(), c2.spec_kind_keys(), key);
}

/// LAW: exactly one disposal per created universe. An owning universe owes
/// the disposal of exactly its own handle; a universe wrapped around an
/// existing context, and every borrowed view of any universe, owes none.
/// Since `Context::dispose` consumes its wrapper, the owed disposal can also
/// be claimed at most once — together: one creation, one disposal, and views
/// never add another.
pub proof fn lemma_single_disposal(ctx: Context, view: ContextRef)
    requires
        view.handle == ctx.handle,
    ensures
        ctx.owns_native() ==> ctx.dispose_duty() == Some(ctx.handle),
        !ctx.owns_native() ==> ctx.dispose_duty() is None,
        view.dispose_duty() is None,
{
}

} // verus!
