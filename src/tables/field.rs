//! Fields, their flags and their initial data.

use vstd::prelude::*;

use crate::bytes::{le16, le32, fits, ByteReader};
use crate::error::Error;
use crate::strings::{heap_string, StringHeap};
use crate::tables::{read_string, TableRow};

verus! {

/// A field of a type.
#[derive(Debug)]
pub struct Field {
    pub flags: FieldAttributes,
    pub name: String,
    pub signature_blob_index: u16,
}

impl Field {
    /// The size of one row in bytes.
    pub const ROW_SIZE: usize = 6;

    /// Whether `row` is the row encoded at `p`, its strings looked up in a
    /// string heap holding `strings`.
    pub open spec fn row_at(d: Seq<u8>, p: int, strings: Seq<u8>, row: Field) -> bool {
        &&& fits(d, p, 6)
        &&& row.flags.0 as int == le16(d, p)
        &&& heap_string(strings, le16(d, p + 2)) == Some(row.name@)
        &&& row.signature_blob_index as int == le16(d, p + 4)
    }

    /// Whether a whole row is encoded at `p` and its strings resolve.
    pub open spec fn readable(d: Seq<u8>, p: int, strings: Seq<u8>) -> bool {
        fits(d, p, 6)
        && heap_string(strings, le16(d, p + 2)) is Some
    }

    /// Reads one row at the reader's position.
    pub fn read(r: &mut ByteReader, strings: &StringHeap) -> (row: Result<Field, Error>)
        ensures
            final(r).data@ == old(r).data@,
            row is Ok <==> Field::readable(old(r).data@, old(r).pos as int, strings.bytes()),
            row matches Ok(row) ==> Field::row_at(old(r).data@, old(r).pos as int, strings.bytes(), row)
                && final(r).pos == old(r).pos + 6,
            row matches Err(e) ==> e == Error::Malformed,
    {
        if !(r.pos <= r.data.len() && r.data.len() - r.pos >= 6) {
            return Err(Error::Malformed);
        }
        let flags = FieldAttributes(r.u16().unwrap());
        let name = read_string(r, strings);
        let signature_blob_index = r.u16().unwrap();
        let name = match name {
            Ok(v) => v,
            Err(e) => return Err(e),
        };
        Ok(Field { flags, name, signature_blob_index })
    }
}

/// The flags of a `Field` row.
#[derive(Debug, Clone, Copy, PartialEq, Eq, Structural)]
pub struct FieldAttributes(pub u16);

impl FieldAttributes {
    /// Whether the field belongs to the type rather than an instance.
    pub fn is_static(&self) -> (r: bool)
        ensures
            r == ((self.0 / 0x10) % 2 == 1),
    {
        (self.0 / 0x10) % 2 == 1
    }

    /// Whether the field is set only by a constructor.
    pub fn is_init_only(&self) -> (r: bool)
        ensures
            r == ((self.0 / 0x20) % 2 == 1),
    {
        (self.0 / 0x20) % 2 == 1
    }

    /// Whether the field is a compile-time constant.
    pub fn is_literal(&self) -> (r: bool)
        ensures
            r == ((self.0 / 0x40) % 2 == 1),
    {
        (self.0 / 0x40) % 2 == 1
    }

    /// Whether the field is left out of serialization.
    pub fn is_not_serialized(&self) -> (r: bool)
        ensures
            r == ((self.0 / 0x80) % 2 == 1),
    {
        (self.0 / 0x80) % 2 == 1
    }

    /// Whether the name is special.
    pub fn is_special_name(&self) -> (r: bool)
        ensures
            r == ((self.0 / 0x200) % 2 == 1),
    {
        (self.0 / 0x200) % 2 == 1
    }

    /// Whether the field is implemented in native code.
    pub fn is_pinvoke_impl(&self) -> (r: bool)
        ensures
            r == ((self.0 / 0x2000) % 2 == 1),
    {
        (self.0 / 0x2000) % 2 == 1
    }

    /// Whether the runtime treats the name specially.
    pub fn is_runtime_special_name(&self) -> (r: bool)
        ensures
            r == ((self.0 / 0x400) % 2 == 1),
    {
        (self.0 / 0x400) % 2 == 1
    }

    /// Whether the field has marshalling information.
    pub fn has_field_marshal(&self) -> (r: bool)
        ensures
            r == ((self.0 / 0x1000) % 2 == 1),
    {
        (self.0 / 0x1000) % 2 == 1
    }

    /// Whether the field has a default value.
    pub fn has_default(&self) -> (r: bool)
        ensures
            r == ((self.0 / 0x8000) % 2 == 1),
    {
        (self.0 / 0x8000) % 2 == 1
    }

    /// Whether the field has initial data in the image.
    pub fn has_field_rva(&self) -> (r: bool)
        ensures
            r == ((self.0 / 0x100) % 2 == 1),
    {
        (self.0 / 0x100) % 2 == 1
    }

    /// The `MemberAccess` held under mask `0x7`.
    pub fn access(&self) -> (r: Option<MemberAccess>)
        ensures
            r == MemberAccess::from_value_spec((self.0 % 8) as u32),
    {
        MemberAccess::from_value((self.0 % 8) as u32)
    }
}

/// Who may use a field or method.
#[derive(Debug, Clone, Copy, PartialEq, Eq, Structural)]
pub enum MemberAccess {
    CompilerControlled,
    Private,
    FamilyAndAssembly,
    /// Also known as "internal".
    Assembly,
    /// Also known as "protected".
    Family,
    FamilyOrAssembly,
    Public,
}

impl MemberAccess {
    /// The number that stands for each variant.
    pub open spec fn value(self) -> u32 {
        match self {
            MemberAccess::CompilerControlled => 0x0,
            MemberAccess::Private => 0x1,
            MemberAccess::FamilyAndAssembly => 0x2,
            MemberAccess::Assembly => 0x3,
            MemberAccess::Family => 0x4,
            MemberAccess::FamilyOrAssembly => 0x5,
            MemberAccess::Public => 0x6,
        }
    }

    /// The variant that `v` stands for, if any.
    pub open spec fn from_value_spec(v: u32) -> Option<MemberAccess> {
        if v == 0x0 {
            Some(MemberAccess::CompilerControlled)
        } else if v == 0x1 {
            Some(MemberAccess::Private)
        } else if v == 0x2 {
            Some(MemberAccess::FamilyAndAssembly)
        } else if v == 0x3 {
            Some(MemberAccess::Assembly)
        } else if v == 0x4 {
            Some(MemberAccess::Family)
        } else if v == 0x5 {
            Some(MemberAccess::FamilyOrAssembly)
        } else if v == 0x6 {
            Some(MemberAccess::Public)
        } else {
            None
        }
    }

    /// The variant that `v` stands for, if any.
    pub fn from_value(v: u32) -> (r: Option<MemberAccess>)
        ensures
            r == MemberAccess::from_value_spec(v),
            r matches Some(k) ==> k.value() == v,
    {
        if v == 0x0 {
            Some(MemberAccess::CompilerControlled)
        } else if v == 0x1 {
            Some(MemberAccess::Private)
        } else if v == 0x2 {
            Some(MemberAccess::FamilyAndAssembly)
        } else if v == 0x3 {
            Some(MemberAccess::Assembly)
        } else if v == 0x4 {
            Some(MemberAccess::Family)
        } else if v == 0x5 {
            Some(MemberAccess::FamilyOrAssembly)
        } else if v == 0x6 {
            Some(MemberAccess::Public)
        } else {
            None
        }
    }
}

/// Where the initial data of a field lies.
#[derive(Debug, Clone, Copy, PartialEq, Eq, Structural)]
pub struct FieldRva {
    pub rva: u32,
    pub field_index: u16,
}

impl FieldRva {
    /// The size of one row in bytes.
    pub const ROW_SIZE: usize = 6;

    /// Whether `row` is the row encoded at `p`.
    pub open spec fn row_at(d: Seq<u8>, p: int, row: FieldRva) -> bool {
        &&& fits(d, p, 6)
        &&& row.rva as int == le32(d, p)
        &&& row.field_index as int == le16(d, p + 4)
    }

    /// Whether a whole row is encoded at `p`.
    pub open spec fn readable(d: Seq<u8>, p: int) -> bool {
        fits(d, p, 6)
    }

    /// Reads one row at the reader's position.
    pub fn read(r: &mut ByteReader) -> (row: Result<FieldRva, Error>)
        ensures
            final(r).data@ == old(r).data@,
            row is Ok <==> FieldRva::readable(old(r).data@, old(r).pos as int),
            row matches Ok(row) ==> FieldRva::row_at(old(r).data@, old(r).pos as int, row)
                && final(r).pos == old(r).pos + 6,
            row matches Err(e) ==> e == Error::Malformed,
    {
        if !(r.pos <= r.data.len() && r.data.len() - r.pos >= 6) {
            return Err(Error::Malformed);
        }
        let rva = r.u32().unwrap();
        let field_index = r.u16().unwrap();
        Ok(FieldRva { rva, field_index })
    }
}

impl TableRow for Field {
    open spec fn size_spec() -> int {
        Field::ROW_SIZE as int
    }

    open spec fn row_at_spec(d: Seq<u8>, p: int, strings: Seq<u8>, row: Field) -> bool {
        Field::row_at(d, p, strings, row)
    }

    open spec fn readable_spec(d: Seq<u8>, p: int, strings: Seq<u8>) -> bool {
        Field::readable(d, p, strings)
    }

    fn row_size() -> (r: usize) {
        Field::ROW_SIZE
    }

    fn read_row(r: &mut ByteReader, strings: &StringHeap) -> (row: Result<Field, Error>) {
        Field::read(r, strings)
    }
}

impl TableRow for FieldRva {
    open spec fn size_spec() -> int {
        FieldRva::ROW_SIZE as int
    }

    open spec fn row_at_spec(d: Seq<u8>, p: int, strings: Seq<u8>, row: FieldRva) -> bool {
        FieldRva::row_at(d, p, row)
    }

    open spec fn readable_spec(d: Seq<u8>, p: int, strings: Seq<u8>) -> bool {
        FieldRva::readable(d, p)
    }

    fn row_size() -> (r: usize) {
        FieldRva::ROW_SIZE
    }

    fn read_row(r: &mut ByteReader, strings: &StringHeap) -> (row: Result<FieldRva, Error>) {
        FieldRva::read(r)
    }
}

} // verus!
