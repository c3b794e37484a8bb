//! Coded indices: a row index with the table packed into its low bits.

use vstd::prelude::*;

verus! {

/// A reference to a row of `TypeDef`, `TypeRef` or `TypeSpec`; the low two
/// bits of the coded value select the table.
#[derive(Debug, Clone, Copy, PartialEq, Eq, Structural)]
pub enum TypeDefOrRef {
    TypeDef(u32),
    TypeRef(u32),
    TypeSpec(u32),
}

impl TypeDefOrRef {
    /// The reference that coded value `v` stands for.
    pub open spec fn decode_spec(v: u32) -> Option<TypeDefOrRef> {
        let index = v / 4;
        if v % 4 == 0 {
            Some(TypeDefOrRef::TypeDef(index))
        } else if v % 4 == 1 {
            Some(TypeDefOrRef::TypeRef(index))
        } else if v % 4 == 2 {
            Some(TypeDefOrRef::TypeSpec(index))
        } else {
            None
        }
    }

    /// Splits a coded value into table and row; `None` for the unused tag 3.
    pub fn decode(v: u32) -> (r: Option<TypeDefOrRef>)
        ensures
            r == TypeDefOrRef::decode_spec(v),
    {
        let index = v / 4;
        match v % 4 {
            0 => Some(TypeDefOrRef::TypeDef(index)),
            1 => Some(TypeDefOrRef::TypeRef(index)),
            2 => Some(TypeDefOrRef::TypeSpec(index)),
            _ => None,
        }
    }
}

/// The parent of a `MemberRef` row; the low three bits of the coded value
/// select the table.
#[derive(Debug, Clone, Copy, PartialEq, Eq, Structural)]
pub enum MemberRefParent {
    TypeDef(u32),
    TypeRef(u32),
    ModuleRef(u32),
    MethodDef(u32),
    TypeSpec(u32),
}

impl MemberRefParent {
    /// The parent that coded value `v` stands for.
    pub open spec fn decode_spec(v: u32) -> Option<MemberRefParent> {
        let index = v / 8;
        if v % 8 == 0 {
            Some(MemberRefParent::TypeDef(index))
        } else if v % 8 == 1 {
            Some(MemberRefParent::TypeRef(index))
        } else if v % 8 == 2 {
            Some(MemberRefParent::ModuleRef(index))
        } else if v % 8 == 3 {
            Some(MemberRefParent::MethodDef(index))
        } else if v % 8 == 4 {
            Some(MemberRefParent::TypeSpec(index))
        } else {
            None
        }
    }

    /// Splits a coded value into table and row; `None` for tags 5 to 7.
    pub fn decode(v: u32) -> (r: Option<MemberRefParent>)
        ensures
            r == MemberRefParent::decode_spec(v),
    {
        let index = v / 8;
        match v % 8 {
            0 => Some(MemberRefParent::TypeDef(index)),
            1 => Some(MemberRefParent::TypeRef(index)),
            2 => Some(MemberRefParent::ModuleRef(index)),
            3 => Some(MemberRefParent::MethodDef(index)),
            4 => Some(MemberRefParent::TypeSpec(index)),
            _ => None,
        }
    }
}

} // verus!
