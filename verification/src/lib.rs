//! A safety-oriented core for driving a native compiler-infrastructure
//! library that owns an intermediate representation of programs.
//!
//! The heart of the crate is the ownership and lifetime discipline around a
//! single owning container, the [`context::Context`] ("universe"): it is the
//! sole factory for derived entities (types, values, blocks, modules), every
//! derived entity is validated against it on each dereference, and the
//! underlying native resource is released exactly once, by the owner alone.
//! Non-owning views ([`context::ContextRef`]) can never trigger a release.
//!
//! Entities are modelled as plain tokens (an index plus the owning
//! universe's handle); the thin layer that exchanges these tokens with the
//! native library's raw pointers lives outside this crate.

use vstd::prelude::*;

pub mod attributes;
pub mod basic_block;
pub mod builder;
pub mod context;
pub mod global;
pub mod module;
pub mod support;
pub mod targets;
pub mod types;
pub mod values;
pub mod vec_value;

verus! {

/// An address-space index, as the native library numbers them.
#[derive(Clone, Copy, Debug, PartialEq, Eq, Structural)]
pub struct AddressSpace(pub u32);

/// The assembly dialect accepted by inline-assembly values.
#[derive(Clone, Copy, Debug, PartialEq, Eq, Structural)]
pub enum InlineAsmDialect {
    ATT,
    Intel,
}

} // verus!
