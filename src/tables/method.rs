//! Method definitions and their flags.

use vstd::prelude::*;

use crate::bytes::{le16, le32, fits, ByteReader};
use crate::error::Error;
use crate::strings::{heap_string, StringHeap};
use crate::tables::{read_string, TableRow};
use crate::tables::field::MemberAccess;

verus! {

/// A method defined in this module.
#[derive(Debug)]
pub struct Method {
    /// Where the body lies, or 0 for none.
    pub rva: u32,
    pub impl_flags: MethodImplAttributes,
    pub flags: MethodAttributes,
    pub name: String,
    pub signature_blob_index: u16,
    pub param_list: u16,
}

impl Method {
    /// The size of one row in bytes.
    pub const ROW_SIZE: usize = 14;

    /// Whether `row` is the row encoded at `p`, its strings looked up in a
    /// string heap holding `strings`.
    pub open spec fn row_at(d: Seq<u8>, p: int, strings: Seq<u8>, row: Method) -> bool {
        &&& fits(d, p, 14)
        &&& row.rva as int == le32(d, p)
        &&& row.impl_flags.0 as int == le16(d, p + 4)
        &&& row.flags.0 as int == le16(d, p + 6)
        &&& heap_string(strings, le16(d, p + 8)) == Some(row.name@)
        &&& row.signature_blob_index as int == le16(d, p + 10)
        &&& row.param_list as int == le16(d, p + 12)
    }

    /// Whether a whole row is encoded at `p` and its strings resolve.
    pub open spec fn readable(d: Seq<u8>, p: int, strings: Seq<u8>) -> bool {
        fits(d, p, 14)
        && heap_string(strings, le16(d, p + 8)) is Some
    }

    /// Reads one row at the reader's position.
    pub fn read(r: &mut ByteReader, strings: &StringHeap) -> (row: Result<Method, Error>)
        ensures
            final(r).data@ == old(r).data@,
            row is Ok <==> Method::readable(old(r).data@, old(r).pos as int, strings.bytes()),
            row matches Ok(row) ==> Method::row_at(old(r).data@, old(r).pos as int, strings.bytes(), row)
                && final(r).pos == old(r).pos + 14,
            row matches Err(e) ==> e == Error::Malformed,
    {
        if !(r.pos <= r.data.len() && r.data.len() - r.pos >= 14) {
            return Err(Error::Malformed);
        }
        let rva = r.u32().unwrap();
        let impl_flags = MethodImplAttributes(r.u16().unwrap());
        let flags = MethodAttributes(r.u16().unwrap());
        let name = read_string(r, strings);
        let signature_blob_index = r.u16().unwrap();
        let param_list = r.u16().unwrap();
        let name = match name {
            Ok(v) => v,
            Err(e) => return Err(e),
        };
        Ok(Method { rva, impl_flags, flags, name, signature_blob_index, param_list })
    }
}

/// The implementation flags of a `MethodDef` row.
#[derive(Debug, Clone, Copy, PartialEq, Eq, Structural)]
pub struct MethodImplAttributes(pub u16);

impl MethodImplAttributes {
    /// Whether the body is given elsewhere.
    pub fn is_forward_ref(&self) -> (r: bool)
        ensures
            r == ((self.0 / 0x10) % 2 == 1),
    {
        (self.0 / 0x10) % 2 == 1
    }

    /// Whether the signature is kept as declared.
    pub fn preserve_sig(&self) -> (r: bool)
        ensures
            r == ((self.0 / 0x80) % 2 == 1),
    {
        (self.0 / 0x80) % 2 == 1
    }

    /// Whether the runtime implements the method.
    pub fn is_internal_call(&self) -> (r: bool)
        ensures
            r == ((self.0 / 0x1000) % 2 == 1),
    {
        (self.0 / 0x1000) % 2 == 1
    }

    /// Whether the method runs under a lock.
    pub fn is_synchronized(&self) -> (r: bool)
        ensures
            r == ((self.0 / 0x20) % 2 == 1),
    {
        (self.0 / 0x20) % 2 == 1
    }

    /// Whether the method may not be inlined.
    pub fn no_inlining(&self) -> (r: bool)
        ensures
            r == ((self.0 / 0x8) % 2 == 1),
    {
        (self.0 / 0x8) % 2 == 1
    }

    /// Whether the method may not be optimized.
    pub fn no_optimization(&self) -> (r: bool)
        ensures
            r == ((self.0 / 0x40) % 2 == 1),
    {
        (self.0 / 0x40) % 2 == 1
    }

    /// The `CodeType` held under mask `0x3`.
    pub fn code_type(&self) -> (r: CodeType)
        ensures
            r.value() == self.0 % 4,
    {
        CodeType::from_value((self.0 % 4) as u32).unwrap()
    }

    /// The `Unmanaged` held under mask `0x4`.
    pub fn unmanaged(&self) -> (r: Unmanaged)
        ensures
            r.value() == (self.0 / 0x4) % 2,
    {
        Unmanaged::from_value(((self.0 / 0x4) % 2) as u32).unwrap()
    }
}

/// What the body of a method is written in.
#[derive(Debug, Clone, Copy, PartialEq, Eq, Structural)]
pub enum CodeType {
    IL,
    Native,
    OptIL,
    Runtime,
}

impl CodeType {
    /// The number that stands for each variant.
    pub open spec fn value(self) -> u32 {
        match self {
            CodeType::IL => 0x0,
            CodeType::Native => 0x1,
            CodeType::OptIL => 0x2,
            CodeType::Runtime => 0x3,
        }
    }

    /// The variant that `v` stands for, if any.
    pub open spec fn from_value_spec(v: u32) -> Option<CodeType> {
        if v == 0x0 {
            Some(CodeType::IL)
        } else if v == 0x1 {
            Some(CodeType::Native)
        } else if v == 0x2 {
            Some(CodeType::OptIL)
        } else if v == 0x3 {
            Some(CodeType::Runtime)
        } else {
            None
        }
    }

    /// The variant that `v` stands for, if any.
    pub fn from_value(v: u32) -> (r: Option<CodeType>)
        ensures
            r == CodeType::from_value_spec(v),
            r matches Some(k) ==> k.value() == v,
    {
        if v == 0x0 {
            Some(CodeType::IL)
        } else if v == 0x1 {
            Some(CodeType::Native)
        } else if v == 0x2 {
            Some(CodeType::OptIL)
        } else if v == 0x3 {
            Some(CodeType::Runtime)
        } else {
            None
        }
    }
}

/// Whether a method is managed.
#[derive(Debug, Clone, Copy, PartialEq, Eq, Structural)]
pub enum Unmanaged {
    Managed,
    Unmanaged,
}

impl Unmanaged {
    /// The number that stands for each variant.
    pub open spec fn value(self) -> u32 {
        match self {
            Unmanaged::Managed => 0x0,
            Unmanaged::Unmanaged => 0x1,
        }
    }

    /// The variant that `v` stands for, if any.
    pub open spec fn from_value_spec(v: u32) -> Option<Unmanaged> {
        if v == 0x0 {
            Some(Unmanaged::Managed)
        } else if v == 0x1 {
            Some(Unmanaged::Unmanaged)
        } else {
            None
        }
    }

    /// The variant that `v` stands for, if any.
    pub fn from_value(v: u32) -> (r: Option<Unmanaged>)
        ensures
            r == Unmanaged::from_value_spec(v),
            r matches Some(k) ==> k.value() == v,
    {
        if v == 0x0 {
            Some(Unmanaged::Managed)
        } else if v == 0x1 {
            Some(Unmanaged::Unmanaged)
        } else {
            None
        }
    }
}

/// The flags of a `MethodDef` row.
#[derive(Debug, Clone, Copy, PartialEq, Eq, Structural)]
pub struct MethodAttributes(pub u16);

impl MethodAttributes {
    /// Whether the method takes no `this`.
    pub fn is_static(&self) -> (r: bool)
        ensures
            r == ((self.0 / 0x10) % 2 == 1),
    {
        (self.0 / 0x10) % 2 == 1
    }

    /// Whether the method may not be overridden.
    pub fn is_final(&self) -> (r: bool)
        ensures
            r == ((self.0 / 0x20) % 2 == 1),
    {
        (self.0 / 0x20) % 2 == 1
    }

    /// Whether the method is virtual.
    pub fn is_virtual(&self) -> (r: bool)
        ensures
            r == ((self.0 / 0x40) % 2 == 1),
    {
        (self.0 / 0x40) % 2 == 1
    }

    /// Whether the method hides by name and signature.
    pub fn hide_by_sig(&self) -> (r: bool)
        ensures
            r == ((self.0 / 0x80) % 2 == 1),
    {
        (self.0 / 0x80) % 2 == 1
    }

    /// Whether overriding needs access to the method.
    pub fn is_strict(&self) -> (r: bool)
        ensures
            r == ((self.0 / 0x200) % 2 == 1),
    {
        (self.0 / 0x200) % 2 == 1
    }

    /// Whether the method has no body.
    pub fn is_abstract(&self) -> (r: bool)
        ensures
            r == ((self.0 / 0x400) % 2 == 1),
    {
        (self.0 / 0x400) % 2 == 1
    }

    /// Whether the name is special.
    pub fn is_special_name(&self) -> (r: bool)
        ensures
            r == ((self.0 / 0x800) % 2 == 1),
    {
        (self.0 / 0x800) % 2 == 1
    }

    /// Whether the method is implemented in native code.
    pub fn is_pinvoke_impl(&self) -> (r: bool)
        ensures
            r == ((self.0 / 0x2000) % 2 == 1),
    {
        (self.0 / 0x2000) % 2 == 1
    }

    /// Whether the method is exported to native code.
    pub fn is_unmanaged_export(&self) -> (r: bool)
        ensures
            r == ((self.0 / 0x8) % 2 == 1),
    {
        (self.0 / 0x8) % 2 == 1
    }

    /// Whether the runtime treats the name specially.
    pub fn is_runtime_special_name(&self) -> (r: bool)
        ensures
            r == ((self.0 / 0x1000) % 2 == 1),
    {
        (self.0 / 0x1000) % 2 == 1
    }

    /// Whether the method has security attached.
    pub fn has_security(&self) -> (r: bool)
        ensures
            r == ((self.0 / 0x4000) % 2 == 1),
    {
        (self.0 / 0x4000) % 2 == 1
    }

    /// Whether the method has a default.
    pub fn has_default(&self) -> (r: bool)
        ensures
            r == ((self.0 / 0x8000) % 2 == 1),
    {
        (self.0 / 0x8000) % 2 == 1
    }

    /// The `MemberAccess` held under mask `0x7`.
    pub fn access(&self) -> (r: Option<MemberAccess>)
        ensures
            r == MemberAccess::from_value_spec((self.0 % 8) as u32),
    {
        MemberAccess::from_value((self.0 % 8) as u32)
    }

    /// The `VtableLayout` held under mask `0x100`.
    pub fn vtable_layout(&self) -> (r: VtableLayout)
        ensures
            r.value() == (self.0 / 0x100) % 2,
    {
        VtableLayout::from_value(((self.0 / 0x100) % 2) as u32).unwrap()
    }
}

/// Whether a virtual method takes a new slot.
#[derive(Debug, Clone, Copy, PartialEq, Eq, Structural)]
pub enum VtableLayout {
    ReuseSlot,
    NewSlot,
}

impl VtableLayout {
    /// The number that stands for each variant.
    pub open spec fn value(self) -> u32 {
        match self {
            VtableLayout::ReuseSlot => 0x0,
            VtableLayout::NewSlot => 0x1,
        }
    }

    /// The variant that `v` stands for, if any.
    pub open spec fn from_value_spec(v: u32) -> Option<VtableLayout> {
        if v == 0x0 {
            Some(VtableLayout::ReuseSlot)
        } else if v == 0x1 {
            Some(VtableLayout::NewSlot)
        } else {
            None
        }
    }

    /// The variant that `v` stands for, if any.
    pub fn from_value(v: u32) -> (r: Option<VtableLayout>)
        ensures
            r == VtableLayout::from_value_spec(v),
            r matches Some(k) ==> k.value() == v,
    {
        if v == 0x0 {
            Some(VtableLayout::ReuseSlot)
        } else if v == 0x1 {
            Some(VtableLayout::NewSlot)
        } else {
            None
        }
    }
}

impl TableRow for Method {
    open spec fn size_spec() -> int {
        Method::ROW_SIZE as int
    }

    open spec fn row_at_spec(d: Seq<u8>, p: int, strings: Seq<u8>, row: Method) -> bool {
        Method::row_at(d, p, strings, row)
    }

    open spec fn readable_spec(d: Seq<u8>, p: int, strings: Seq<u8>) -> bool {
        Method::readable(d, p, strings)
    }

    fn row_size() -> (r: usize) {
        Method::ROW_SIZE
    }

    fn read_row(r: &mut ByteReader, strings: &StringHeap) -> (row: Result<Method, Error>) {
        Method::read(r, strings)
    }
}

} // verus!
