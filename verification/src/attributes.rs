//! Attributes minted by a universe: an enum attribute (a numeric kind and a
//! numeric value), a string attribute (a key/value pair), or a type
//! attribute (a numeric kind and a type token).

use vstd::prelude::*;
use crate::support::Handle;
use crate::types::AnyTypeEnum;

verus! {

/// What an attribute holds.
#[derive(Debug, PartialEq)]
pub enum AttributeData {
    Enum { kind_id: u32, value: u64 },
    Str { key: String, value: String },
    Type { kind_id: u32, ty: AnyTypeEnum },
}

/// An attribute of a universe.
#[derive(Debug, PartialEq)]
pub struct Attribute {
    pub ctx: Handle,
    pub data: AttributeData,
}

impl Attribute {
    pub fn is_enum(&self) -> (r: bool)
        ensures
            r == (self.data is Enum),
    {
        match &self.data {
            AttributeData::Enum { .. } => true,
            _ => false,
        }
    }

    pub fn is_string(&self) -> (r: bool)
        ensures
            r == (self.data is Str),
    {
        match &self.data {
            AttributeData::Str { .. } => true,
            _ => false,
        }
    }

    pub fn is_type(&self) -> (r: bool)
        ensures
            r == (self.data is Type),
    {
        match &self.data {
            AttributeData::Type { .. } => true,
            _ => false,
        }
    }

    /// The type a type attribute carries. Asking any other attribute kind
    /// is a caller contract violation.
    pub fn get_type_value(&self) -> (r: AnyTypeEnum)
        requires
            self.data is Type,
        ensures
            self.data matches AttributeData::Type { ty, .. } && r == ty,
    {
        match &self.data {
            AttributeData::Type { ty, .. } => *ty,
            _ => vstd::pervasive::unreached(),
        }
    }
}

} // verus!
