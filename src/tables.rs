//! The rows of the metadata tables, as the table stream stores them with
//! two-byte heap and row indices.

use vstd::prelude::*;

use crate::bytes::{le16, le32, fits, ByteReader};
use crate::error::Error;
use crate::meta::{GuidIndex, StringIndex};
use crate::strings::{heap_string, StringHeap};

pub mod assembly;
pub mod attribute;
pub mod field;
pub mod member;
pub mod method;
pub mod param;

verus! {

/// A row shape of some metadata table: its size, what a row encoded at a
/// position is, and how to read one.
pub trait TableRow: Sized {
    spec fn size_spec() -> int;

    /// Whether `row` is the row encoded at `p` of `d`, with strings from a
    /// string heap holding `strings`.
    spec fn row_at_spec(d: Seq<u8>, p: int, strings: Seq<u8>, row: Self) -> bool;

    /// Whether a row can be read at `p`.
    spec fn readable_spec(d: Seq<u8>, p: int, strings: Seq<u8>) -> bool;

    fn row_size() -> (r: usize)
        ensures
            r == Self::size_spec(),
            r > 0,
    ;

    fn read_row(r: &mut ByteReader, strings: &StringHeap) -> (row: Result<Self, Error>)
        ensures
            final(r).data@ == old(r).data@,
            row is Ok <==> Self::readable_spec(old(r).data@, old(r).pos as int, strings.bytes()),
            row matches Ok(x) ==> Self::row_at_spec(old(r).data@, old(r).pos as int, strings.bytes(), x)
                && final(r).pos == old(r).pos + Self::size_spec(),
            row matches Err(e) ==> e == Error::Malformed,
    ;
}

/// Reads `n` rows one after another from the reader's position.
pub fn read_rows<R: TableRow>(r: &mut ByteReader, strings: &StringHeap, n: u32) -> (rows: Result<Vec<R>, Error>)
    ensures
        final(r).data@ == old(r).data@,
        rows is Ok <==> forall|i: int| 0 <= i < n ==> #[trigger] R::readable_spec(old(r).data@, old(r).pos + i * R::size_spec(), strings.bytes()),
        rows matches Ok(v) ==> {
            &&& v@.len() == n
            &&& forall|i: int| 0 <= i < n ==> R::row_at_spec(old(r).data@, old(r).pos + i * R::size_spec(), strings.bytes(), #[trigger] v@[i])
            &&& final(r).pos == old(r).pos + n * R::size_spec()
        },
        rows matches Err(e) ==> e == Error::Malformed,
{
    let size = R::row_size();
    let ghost p0 = r.pos as int;
    let ghost d = r.data@;
    let mut v: Vec<R> = Vec::new();
    let mut i: u32 = 0;
    while i < n
        invariant
            r.data@ == d,
            d == old(r).data@,
            p0 == old(r).pos,
            size == R::size_spec(),
            size > 0,
            i <= n,
            r.pos == p0 + i * size,
            v@.len() == i,
            forall|j: int| 0 <= j < i ==> #[trigger] R::readable_spec(d, p0 + j * size, strings.bytes()),
            forall|j: int| 0 <= j < i ==> R::row_at_spec(d, p0 + j * size, strings.bytes(), #[trigger] v@[j]),
        decreases n - i,
    {
        match R::read_row(r, strings) {
            Ok(row) => {
                v.push(row);
                assert(r.pos == p0 + (i + 1) * size) by (nonlinear_arith)
                    requires
                        r.pos == p0 + i * size + size,
                ;
                i = i + 1;
            },
            Err(e) => {
                assert(!R::readable_spec(d, p0 + i * size, strings.bytes()));
                return Err(e);
            },
        }
    }
    Ok(v)
}

/// Reads a string-heap index and looks the string up.
pub fn read_string(r: &mut ByteReader, strings: &StringHeap) -> (s: Result<String, Error>)
    requires
        fits(old(r).data@, old(r).pos as int, 2),
    ensures
        final(r).data@ == old(r).data@,
        final(r).pos == old(r).pos + 2,
        s is Ok <==> heap_string(strings.bytes(), le16(old(r).data@, old(r).pos as int)) is Some,
        s matches Ok(s) ==> heap_string(strings.bytes(), le16(old(r).data@, old(r).pos as int)) == Some(s@),
        s matches Err(e) ==> e == Error::Malformed,
{
    let i = r.u16().unwrap();
    strings.try_get(StringIndex(i))
}

/// The module itself: its name and version GUIDs.
#[derive(Debug)]
pub struct Module {
    pub generation: u16,
    pub name: String,
    /// The GUID that tells this build of the module apart.
    pub mvid: GuidIndex,
    pub enc_id: GuidIndex,
    pub enc_base_id: GuidIndex,
}

impl Module {
    /// The size of one row in bytes.
    pub const ROW_SIZE: usize = 10;

    /// Whether `row` is the row encoded at `p`, its strings looked up in a
    /// string heap holding `strings`.
    pub open spec fn row_at(d: Seq<u8>, p: int, strings: Seq<u8>, row: Module) -> bool {
        &&& fits(d, p, 10)
        &&& row.generation as int == le16(d, p)
        &&& heap_string(strings, le16(d, p + 2)) == Some(row.name@)
        &&& row.mvid.0 as int == le16(d, p + 4)
        &&& row.enc_id.0 as int == le16(d, p + 6)
        &&& row.enc_base_id.0 as int == le16(d, p + 8)
    }

    /// Whether a whole row is encoded at `p` and its strings resolve.
    pub open spec fn readable(d: Seq<u8>, p: int, strings: Seq<u8>) -> bool {
        fits(d, p, 10)
        && heap_string(strings, le16(d, p + 2)) is Some
    }

    /// Reads one row at the reader's position.
    pub fn read(r: &mut ByteReader, strings: &StringHeap) -> (row: Result<Module, Error>)
        ensures
            final(r).data@ == old(r).data@,
            row is Ok <==> Module::readable(old(r).data@, old(r).pos as int, strings.bytes()),
            row matches Ok(row) ==> Module::row_at(old(r).data@, old(r).pos as int, strings.bytes(), row)
                && final(r).pos == old(r).pos + 10,
            row matches Err(e) ==> e == Error::Malformed,
    {
        if !(r.pos <= r.data.len() && r.data.len() - r.pos >= 10) {
            return Err(Error::Malformed);
        }
        let generation = r.u16().unwrap();
        let name = read_string(r, strings);
        let mvid = GuidIndex(r.u16().unwrap());
        let enc_id = GuidIndex(r.u16().unwrap());
        let enc_base_id = GuidIndex(r.u16().unwrap());
        let name = match name {
            Ok(v) => v,
            Err(e) => return Err(e),
        };
        Ok(Module { generation, name, mvid, enc_id, enc_base_id })
    }
}

/// A reference to a type defined elsewhere.
#[derive(Debug)]
pub struct TypeRef {
    pub resolution_scope: u16,
    pub name: String,
    pub namespace: String,
}

impl TypeRef {
    /// The size of one row in bytes.
    pub const ROW_SIZE: usize = 6;

    /// Whether `row` is the row encoded at `p`, its strings looked up in a
    /// string heap holding `strings`.
    pub open spec fn row_at(d: Seq<u8>, p: int, strings: Seq<u8>, row: TypeRef) -> bool {
        &&& fits(d, p, 6)
        &&& row.resolution_scope as int == le16(d, p)
        &&& heap_string(strings, le16(d, p + 2)) == Some(row.name@)
        &&& heap_string(strings, le16(d, p + 4)) == Some(row.namespace@)
    }

    /// Whether a whole row is encoded at `p` and its strings resolve.
    pub open spec fn readable(d: Seq<u8>, p: int, strings: Seq<u8>) -> bool {
        fits(d, p, 6)
        && heap_string(strings, le16(d, p + 2)) is Some
        && heap_string(strings, le16(d, p + 4)) is Some
    }

    /// Reads one row at the reader's position.
    pub fn read(r: &mut ByteReader, strings: &StringHeap) -> (row: Result<TypeRef, Error>)
        ensures
            final(r).data@ == old(r).data@,
            row is Ok <==> TypeRef::readable(old(r).data@, old(r).pos as int, strings.bytes()),
            row matches Ok(row) ==> TypeRef::row_at(old(r).data@, old(r).pos as int, strings.bytes(), row)
                && final(r).pos == old(r).pos + 6,
            row matches Err(e) ==> e == Error::Malformed,
    {
        if !(r.pos <= r.data.len() && r.data.len() - r.pos >= 6) {
            return Err(Error::Malformed);
        }
        let resolution_scope = r.u16().unwrap();
        let name = read_string(r, strings);
        let namespace = read_string(r, strings);
        let name = match name {
            Ok(v) => v,
            Err(e) => return Err(e),
        };
        let namespace = match namespace {
            Ok(v) => v,
            Err(e) => return Err(e),
        };
        Ok(TypeRef { resolution_scope, name, namespace })
    }
}

/// A type defined in this module.
#[derive(Debug)]
pub struct TypeDef {
    pub flags: TypeAttributes,
    pub name: String,
    pub namespace: String,
    pub extends: u16,
    /// The first field of the type, a 1-based row of `Field`.
    pub field_list: u16,
    /// The first method of the type, a 1-based row of `MethodDef`.
    pub method_list: u16,
}

impl TypeDef {
    /// The size of one row in bytes.
    pub const ROW_SIZE: usize = 14;

    /// Whether `row` is the row encoded at `p`, its strings looked up in a
    /// string heap holding `strings`.
    pub open spec fn row_at(d: Seq<u8>, p: int, strings: Seq<u8>, row: TypeDef) -> bool {
        &&& fits(d, p, 14)
        &&& row.flags.0 as int == le32(d, p)
        &&& heap_string(strings, le16(d, p + 4)) == Some(row.name@)
        &&& heap_string(strings, le16(d, p + 6)) == Some(row.namespace@)
        &&& row.extends as int == le16(d, p + 8)
        &&& row.field_list as int == le16(d, p + 10)
        &&& row.method_list as int == le16(d, p + 12)
    }

    /// Whether a whole row is encoded at `p` and its strings resolve.
    pub open spec fn readable(d: Seq<u8>, p: int, strings: Seq<u8>) -> bool {
        fits(d, p, 14)
        && heap_string(strings, le16(d, p + 4)) is Some
        && heap_string(strings, le16(d, p + 6)) is Some
    }

    /// Reads one row at the reader's position.
    pub fn read(r: &mut ByteReader, strings: &StringHeap) -> (row: Result<TypeDef, Error>)
        ensures
            final(r).data@ == old(r).data@,
            row is Ok <==> TypeDef::readable(old(r).data@, old(r).pos as int, strings.bytes()),
            row matches Ok(row) ==> TypeDef::row_at(old(r).data@, old(r).pos as int, strings.bytes(), row)
                && final(r).pos == old(r).pos + 14,
            row matches Err(e) ==> e == Error::Malformed,
    {
        if !(r.pos <= r.data.len() && r.data.len() - r.pos >= 14) {
            return Err(Error::Malformed);
        }
        let flags = TypeAttributes(r.u32().unwrap());
        let name = read_string(r, strings);
        let namespace = read_string(r, strings);
        let extends = r.u16().unwrap();
        let field_list = r.u16().unwrap();
        let method_list = r.u16().unwrap();
        let name = match name {
            Ok(v) => v,
            Err(e) => return Err(e),
        };
        let namespace = match namespace {
            Ok(v) => v,
            Err(e) => return Err(e),
        };
        Ok(TypeDef { flags, name, namespace, extends, field_list, method_list })
    }
}

/// The flags of a `TypeDef` row.
#[derive(Debug, Clone, Copy, PartialEq, Eq, Structural)]
pub struct TypeAttributes(pub u32);

impl TypeAttributes {
    /// Whether the type is abstract.
    pub fn is_abstract(&self) -> (r: bool)
        ensures
            r == ((self.0 / 0x80) % 2 == 1),
    {
        (self.0 / 0x80) % 2 == 1
    }

    /// Whether the type cannot be derived from.
    pub fn is_sealed(&self) -> (r: bool)
        ensures
            r == ((self.0 / 0x100) % 2 == 1),
    {
        (self.0 / 0x100) % 2 == 1
    }

    /// Whether the name is special.
    pub fn is_special_name(&self) -> (r: bool)
        ensures
            r == ((self.0 / 0x400) % 2 == 1),
    {
        (self.0 / 0x400) % 2 == 1
    }

    /// Whether the type is imported.
    pub fn is_import(&self) -> (r: bool)
        ensures
            r == ((self.0 / 0x1000) % 2 == 1),
    {
        (self.0 / 0x1000) % 2 == 1
    }

    /// Whether the type is serializable.
    pub fn is_serializable(&self) -> (r: bool)
        ensures
            r == ((self.0 / 0x2000) % 2 == 1),
    {
        (self.0 / 0x2000) % 2 == 1
    }

    /// Whether the runtime treats the name specially.
    pub fn is_rt_special_name(&self) -> (r: bool)
        ensures
            r == ((self.0 / 0x800) % 2 == 1),
    {
        (self.0 / 0x800) % 2 == 1
    }

    /// Whether the type has security attached.
    pub fn has_security(&self) -> (r: bool)
        ensures
            r == ((self.0 / 0x40000) % 2 == 1),
    {
        (self.0 / 0x40000) % 2 == 1
    }

    /// Whether the type is forwarded elsewhere.
    pub fn is_type_forwarder(&self) -> (r: bool)
        ensures
            r == ((self.0 / 0x200000) % 2 == 1),
    {
        (self.0 / 0x200000) % 2 == 1
    }

    /// The `Visibility` held under mask `0x7`.
    pub fn visibility(&self) -> (r: Visibility)
        ensures
            r.value() == self.0 % 8,
    {
        Visibility::from_value((self.0 % 8) as u32).unwrap()
    }

    /// The `Layout` held under mask `0x18`.
    pub fn layout(&self) -> (r: Option<Layout>)
        ensures
            r == Layout::from_value_spec(((self.0 / 0x8) % 4) as u32),
    {
        Layout::from_value(((self.0 / 0x8) % 4) as u32)
    }

    /// The `ClassSemantics` held under mask `0x20`.
    pub fn class_semantics(&self) -> (r: ClassSemantics)
        ensures
            r.value() == (self.0 / 0x20) % 2,
    {
        ClassSemantics::from_value(((self.0 / 0x20) % 2) as u32).unwrap()
    }

    /// The `NativeStringFormat` held under mask `0x30000`.
    pub fn native_string_format(&self) -> (r: NativeStringFormat)
        ensures
            r.value() == (self.0 / 0x10000) % 4,
    {
        NativeStringFormat::from_value(((self.0 / 0x10000) % 4) as u32).unwrap()
    }
}

/// Who may see a type.
#[derive(Debug, Clone, Copy, PartialEq, Eq, Structural)]
pub enum Visibility {
    NotPublic,
    Public,
    NestedPublic,
    NestedPrivate,
    NestedFamily,
    NestedAssembly,
    NestedFamilyAndAssembly,
    NestedFamilyOrAssembly,
}

impl Visibility {
    /// The number that stands for each variant.
    pub open spec fn value(self) -> u32 {
        match self {
            Visibility::NotPublic => 0x0,
            Visibility::Public => 0x1,
            Visibility::NestedPublic => 0x2,
            Visibility::NestedPrivate => 0x3,
            Visibility::NestedFamily => 0x4,
            Visibility::NestedAssembly => 0x5,
            Visibility::NestedFamilyAndAssembly => 0x6,
            Visibility::NestedFamilyOrAssembly => 0x7,
        }
    }

    /// The variant that `v` stands for, if any.
    pub open spec fn from_value_spec(v: u32) -> Option<Visibility> {
        if v == 0x0 {
            Some(Visibility::NotPublic)
        } else if v == 0x1 {
            Some(Visibility::Public)
        } else if v == 0x2 {
            Some(Visibility::NestedPublic)
        } else if v == 0x3 {
            Some(Visibility::NestedPrivate)
        } else if v == 0x4 {
            Some(Visibility::NestedFamily)
        } else if v == 0x5 {
            Some(Visibility::NestedAssembly)
        } else if v == 0x6 {
            Some(Visibility::NestedFamilyAndAssembly)
        } else if v == 0x7 {
            Some(Visibility::NestedFamilyOrAssembly)
        } else {
            None
        }
    }

    /// The variant that `v` stands for, if any.
    pub fn from_value(v: u32) -> (r: Option<Visibility>)
        ensures
            r == Visibility::from_value_spec(v),
            r matches Some(k) ==> k.value() == v,
    {
        if v == 0x0 {
            Some(Visibility::NotPublic)
        } else if v == 0x1 {
            Some(Visibility::Public)
        } else if v == 0x2 {
            Some(Visibility::NestedPublic)
        } else if v == 0x3 {
            Some(Visibility::NestedPrivate)
        } else if v == 0x4 {
            Some(Visibility::NestedFamily)
        } else if v == 0x5 {
            Some(Visibility::NestedAssembly)
        } else if v == 0x6 {
            Some(Visibility::NestedFamilyAndAssembly)
        } else if v == 0x7 {
            Some(Visibility::NestedFamilyOrAssembly)
        } else {
            None
        }
    }
}

/// How the fields of a type are laid out.
#[derive(Debug, Clone, Copy, PartialEq, Eq, Structural)]
pub enum Layout {
    Auto,
    Sequential,
    Explicit,
}

impl Layout {
    /// The number that stands for each variant.
    pub open spec fn value(self) -> u32 {
        match self {
            Layout::Auto => 0x0,
            Layout::Sequential => 0x1,
            Layout::Explicit => 0x2,
        }
    }

    /// The variant that `v` stands for, if any.
    pub open spec fn from_value_spec(v: u32) -> Option<Layout> {
        if v == 0x0 {
            Some(Layout::Auto)
        } else if v == 0x1 {
            Some(Layout::Sequential)
        } else if v == 0x2 {
            Some(Layout::Explicit)
        } else {
            None
        }
    }

    /// The variant that `v` stands for, if any.
    pub fn from_value(v: u32) -> (r: Option<Layout>)
        ensures
            r == Layout::from_value_spec(v),
            r matches Some(k) ==> k.value() == v,
    {
        if v == 0x0 {
            Some(Layout::Auto)
        } else if v == 0x1 {
            Some(Layout::Sequential)
        } else if v == 0x2 {
            Some(Layout::Explicit)
        } else {
            None
        }
    }
}

/// How strings are marshalled.
#[derive(Debug, Clone, Copy, PartialEq, Eq, Structural)]
pub enum NativeStringFormat {
    Ansi,
    Unicode,
    Auto,
    Custom,
}

impl NativeStringFormat {
    /// The number that stands for each variant.
    pub open spec fn value(self) -> u32 {
        match self {
            NativeStringFormat::Ansi => 0x0,
            NativeStringFormat::Unicode => 0x1,
            NativeStringFormat::Auto => 0x2,
            NativeStringFormat::Custom => 0x3,
        }
    }

    /// The variant that `v` stands for, if any.
    pub open spec fn from_value_spec(v: u32) -> Option<NativeStringFormat> {
        if v == 0x0 {
            Some(NativeStringFormat::Ansi)
        } else if v == 0x1 {
            Some(NativeStringFormat::Unicode)
        } else if v == 0x2 {
            Some(NativeStringFormat::Auto)
        } else if v == 0x3 {
            Some(NativeStringFormat::Custom)
        } else {
            None
        }
    }

    /// The variant that `v` stands for, if any.
    pub fn from_value(v: u32) -> (r: Option<NativeStringFormat>)
        ensures
            r == NativeStringFormat::from_value_spec(v),
            r matches Some(k) ==> k.value() == v,
    {
        if v == 0x0 {
            Some(NativeStringFormat::Ansi)
        } else if v == 0x1 {
            Some(NativeStringFormat::Unicode)
        } else if v == 0x2 {
            Some(NativeStringFormat::Auto)
        } else if v == 0x3 {
            Some(NativeStringFormat::Custom)
        } else {
            None
        }
    }
}

/// Whether a type is a class or an interface.
#[derive(Debug, Clone, Copy, PartialEq, Eq, Structural)]
pub enum ClassSemantics {
    Class,
    Interface,
}

impl ClassSemantics {
    /// The number that stands for each variant.
    pub open spec fn value(self) -> u32 {
        match self {
            ClassSemantics::Class => 0x0,
            ClassSemantics::Interface => 0x1,
        }
    }

    /// The variant that `v` stands for, if any.
    pub open spec fn from_value_spec(v: u32) -> Option<ClassSemantics> {
        if v == 0x0 {
            Some(ClassSemantics::Class)
        } else if v == 0x1 {
            Some(ClassSemantics::Interface)
        } else {
            None
        }
    }

    /// The variant that `v` stands for, if any.
    pub fn from_value(v: u32) -> (r: Option<ClassSemantics>)
        ensures
            r == ClassSemantics::from_value_spec(v),
            r matches Some(k) ==> k.value() == v,
    {
        if v == 0x0 {
            Some(ClassSemantics::Class)
        } else if v == 0x1 {
            Some(ClassSemantics::Interface)
        } else {
            None
        }
    }
}

/// A signature that no member owns (local variables, call sites).
#[derive(Debug, Clone, Copy, PartialEq, Eq, Structural)]
pub struct StandAloneSig {
    pub signature_blob_index: u16,
}

impl StandAloneSig {
    /// The size of one row in bytes.
    pub const ROW_SIZE: usize = 2;

    /// Whether `row` is the row encoded at `p`.
    pub open spec fn row_at(d: Seq<u8>, p: int, row: StandAloneSig) -> bool {
        &&& fits(d, p, 2)
        &&& row.signature_blob_index as int == le16(d, p)
    }

    /// Whether a whole row is encoded at `p`.
    pub open spec fn readable(d: Seq<u8>, p: int) -> bool {
        fits(d, p, 2)
    }

    /// Reads one row at the reader's position.
    pub fn read(r: &mut ByteReader) -> (row: Result<StandAloneSig, Error>)
        ensures
            final(r).data@ == old(r).data@,
            row is Ok <==> StandAloneSig::readable(old(r).data@, old(r).pos as int),
            row matches Ok(row) ==> StandAloneSig::row_at(old(r).data@, old(r).pos as int, row)
                && final(r).pos == old(r).pos + 2,
            row matches Err(e) ==> e == Error::Malformed,
    {
        if !(r.pos <= r.data.len() && r.data.len() - r.pos >= 2) {
            return Err(Error::Malformed);
        }
        let signature_blob_index = r.u16().unwrap();
        Ok(StandAloneSig { signature_blob_index })
    }
}

/// An interface that a type implements.
#[derive(Debug, Clone, Copy, PartialEq, Eq, Structural)]
pub struct InterfaceImpl {
    pub class: u16,
    pub interface: u16,
}

impl InterfaceImpl {
    /// The size of one row in bytes.
    pub const ROW_SIZE: usize = 4;

    /// Whether `row` is the row encoded at `p`.
    pub open spec fn row_at(d: Seq<u8>, p: int, row: InterfaceImpl) -> bool {
        &&& fits(d, p, 4)
        &&& row.class as int == le16(d, p)
        &&& row.interface as int == le16(d, p + 2)
    }

    /// Whether a whole row is encoded at `p`.
    pub open spec fn readable(d: Seq<u8>, p: int) -> bool {
        fits(d, p, 4)
    }

    /// Reads one row at the reader's position.
    pub fn read(r: &mut ByteReader) -> (row: Result<InterfaceImpl, Error>)
        ensures
            final(r).data@ == old(r).data@,
            row is Ok <==> InterfaceImpl::readable(old(r).data@, old(r).pos as int),
            row matches Ok(row) ==> InterfaceImpl::row_at(old(r).data@, old(r).pos as int, row)
                && final(r).pos == old(r).pos + 4,
            row matches Err(e) ==> e == Error::Malformed,
    {
        if !(r.pos <= r.data.len() && r.data.len() - r.pos >= 4) {
            return Err(Error::Malformed);
        }
        let class = r.u16().unwrap();
        let interface = r.u16().unwrap();
        Ok(InterfaceImpl { class, interface })
    }
}

/// A constant value of a field, parameter or property.
#[derive(Debug, Clone, Copy, PartialEq, Eq, Structural)]
pub struct Constant {
    pub kind: u8,
    pub parent: u16,
    pub value_blob_index: u16,
}

impl Constant {
    /// The size of one row in bytes.
    pub const ROW_SIZE: usize = 6;

    /// Whether `row` is the row encoded at `p`.
    pub open spec fn row_at(d: Seq<u8>, p: int, row: Constant) -> bool {
        &&& fits(d, p, 6)
        &&& row.kind == d[p + 0]
        &&& row.parent as int == le16(d, p + 2)
        &&& row.value_blob_index as int == le16(d, p + 4)
    }

    /// Whether a whole row is encoded at `p`.
    pub open spec fn readable(d: Seq<u8>, p: int) -> bool {
        fits(d, p, 6)
    }

    /// Reads one row at the reader's position.
    pub fn read(r: &mut ByteReader) -> (row: Result<Constant, Error>)
        ensures
            final(r).data@ == old(r).data@,
            row is Ok <==> Constant::readable(old(r).data@, old(r).pos as int),
            row matches Ok(row) ==> Constant::row_at(old(r).data@, old(r).pos as int, row)
                && final(r).pos == old(r).pos + 6,
            row matches Err(e) ==> e == Error::Malformed,
    {
        if !(r.pos <= r.data.len() && r.data.len() - r.pos >= 6) {
            return Err(Error::Malformed);
        }
        let kind = r.u8().unwrap();
        let _ = r.u8().unwrap();
        let parent = r.u16().unwrap();
        let value_blob_index = r.u16().unwrap();
        Ok(Constant { kind, parent, value_blob_index })
    }
}

/// Security declarations.
#[derive(Debug, Clone, Copy, PartialEq, Eq, Structural)]
pub struct DeclSecurity {
    pub action: u16,
    pub parent: u16,
    pub permission_set_blob_index: u16,
}

impl DeclSecurity {
    /// The size of one row in bytes.
    pub const ROW_SIZE: usize = 6;

    /// Whether `row` is the row encoded at `p`.
    pub open spec fn row_at(d: Seq<u8>, p: int, row: DeclSecurity) -> bool {
        &&& fits(d, p, 6)
        &&& row.action as int == le16(d, p)
        &&& row.parent as int == le16(d, p + 2)
        &&& row.permission_set_blob_index as int == le16(d, p + 4)
    }

    /// Whether a whole row is encoded at `p`.
    pub open spec fn readable(d: Seq<u8>, p: int) -> bool {
        fits(d, p, 6)
    }

    /// Reads one row at the reader's position.
    pub fn read(r: &mut ByteReader) -> (row: Result<DeclSecurity, Error>)
        ensures
            final(r).data@ == old(r).data@,
            row is Ok <==> DeclSecurity::readable(old(r).data@, old(r).pos as int),
            row matches Ok(row) ==> DeclSecurity::row_at(old(r).data@, old(r).pos as int, row)
                && final(r).pos == old(r).pos + 6,
            row matches Err(e) ==> e == Error::Malformed,
    {
        if !(r.pos <= r.data.len() && r.data.len() - r.pos >= 6) {
            return Err(Error::Malformed);
        }
        let action = r.u16().unwrap();
        let parent = r.u16().unwrap();
        let permission_set_blob_index = r.u16().unwrap();
        Ok(DeclSecurity { action, parent, permission_set_blob_index })
    }
}

/// The explicit packing and size of a type.
#[derive(Debug, Clone, Copy, PartialEq, Eq, Structural)]
pub struct ClassLayout {
    pub packing_size: u16,
    pub class_size: u32,
    pub parent: u16,
}

impl ClassLayout {
    /// The size of one row in bytes.
    pub const ROW_SIZE: usize = 8;

    /// Whether `row` is the row encoded at `p`.
    pub open spec fn row_at(d: Seq<u8>, p: int, row: ClassLayout) -> bool {
        &&& fits(d, p, 8)
        &&& row.packing_size as int == le16(d, p)
        &&& row.class_size as int == le32(d, p + 2)
        &&& row.parent as int == le16(d, p + 6)
    }

    /// Whether a whole row is encoded at `p`.
    pub open spec fn readable(d: Seq<u8>, p: int) -> bool {
        fits(d, p, 8)
    }

    /// Reads one row at the reader's position.
    pub fn read(r: &mut ByteReader) -> (row: Result<ClassLayout, Error>)
        ensures
            final(r).data@ == old(r).data@,
            row is Ok <==> ClassLayout::readable(old(r).data@, old(r).pos as int),
            row matches Ok(row) ==> ClassLayout::row_at(old(r).data@, old(r).pos as int, row)
                && final(r).pos == old(r).pos + 8,
            row matches Err(e) ==> e == Error::Malformed,
    {
        if !(r.pos <= r.data.len() && r.data.len() - r.pos >= 8) {
            return Err(Error::Malformed);
        }
        let packing_size = r.u16().unwrap();
        let class_size = r.u32().unwrap();
        let parent = r.u16().unwrap();
        Ok(ClassLayout { packing_size, class_size, parent })
    }
}

/// The explicit offset of a field.
#[derive(Debug, Clone, Copy, PartialEq, Eq, Structural)]
pub struct FieldLayout {
    pub offset: u32,
    pub field: u16,
}

impl FieldLayout {
    /// The size of one row in bytes.
    pub const ROW_SIZE: usize = 6;

    /// Whether `row` is the row encoded at `p`.
    pub open spec fn row_at(d: Seq<u8>, p: int, row: FieldLayout) -> bool {
        &&& fits(d, p, 6)
        &&& row.offset as int == le32(d, p)
        &&& row.field as int == le16(d, p + 4)
    }

    /// Whether a whole row is encoded at `p`.
    pub open spec fn readable(d: Seq<u8>, p: int) -> bool {
        fits(d, p, 6)
    }

    /// Reads one row at the reader's position.
    pub fn read(r: &mut ByteReader) -> (row: Result<FieldLayout, Error>)
        ensures
            final(r).data@ == old(r).data@,
            row is Ok <==> FieldLayout::readable(old(r).data@, old(r).pos as int),
            row matches Ok(row) ==> FieldLayout::row_at(old(r).data@, old(r).pos as int, row)
                && final(r).pos == old(r).pos + 6,
            row matches Err(e) ==> e == Error::Malformed,
    {
        if !(r.pos <= r.data.len() && r.data.len() - r.pos >= 6) {
            return Err(Error::Malformed);
        }
        let offset = r.u32().unwrap();
        let field = r.u16().unwrap();
        Ok(FieldLayout { offset, field })
    }
}

/// The first property of a type.
#[derive(Debug, Clone, Copy, PartialEq, Eq, Structural)]
pub struct PropertyMap {
    pub parent: u16,
    pub property_list: u16,
}

impl PropertyMap {
    /// The size of one row in bytes.
    pub const ROW_SIZE: usize = 4;

    /// Whether `row` is the row encoded at `p`.
    pub open spec fn row_at(d: Seq<u8>, p: int, row: PropertyMap) -> bool {
        &&& fits(d, p, 4)
        &&& row.parent as int == le16(d, p)
        &&& row.property_list as int == le16(d, p + 2)
    }

    /// Whether a whole row is encoded at `p`.
    pub open spec fn readable(d: Seq<u8>, p: int) -> bool {
        fits(d, p, 4)
    }

    /// Reads one row at the reader's position.
    pub fn read(r: &mut ByteReader) -> (row: Result<PropertyMap, Error>)
        ensures
            final(r).data@ == old(r).data@,
            row is Ok <==> PropertyMap::readable(old(r).data@, old(r).pos as int),
            row matches Ok(row) ==> PropertyMap::row_at(old(r).data@, old(r).pos as int, row)
                && final(r).pos == old(r).pos + 4,
            row matches Err(e) ==> e == Error::Malformed,
    {
        if !(r.pos <= r.data.len() && r.data.len() - r.pos >= 4) {
            return Err(Error::Malformed);
        }
        let parent = r.u16().unwrap();
        let property_list = r.u16().unwrap();
        Ok(PropertyMap { parent, property_list })
    }
}

/// A property.
#[derive(Debug)]
pub struct Property {
    pub flags: u16,
    pub name: String,
    pub type_blob_index: u16,
}

impl Property {
    /// The size of one row in bytes.
    pub const ROW_SIZE: usize = 6;

    /// Whether `row` is the row encoded at `p`, its strings looked up in a
    /// string heap holding `strings`.
    pub open spec fn row_at(d: Seq<u8>, p: int, strings: Seq<u8>, row: Property) -> bool {
        &&& fits(d, p, 6)
        &&& row.flags as int == le16(d, p)
        &&& heap_string(strings, le16(d, p + 2)) == Some(row.name@)
        &&& row.type_blob_index as int == le16(d, p + 4)
    }

    /// Whether a whole row is encoded at `p` and its strings resolve.
    pub open spec fn readable(d: Seq<u8>, p: int, strings: Seq<u8>) -> bool {
        fits(d, p, 6)
        && heap_string(strings, le16(d, p + 2)) is Some
    }

    /// Reads one row at the reader's position.
    pub fn read(r: &mut ByteReader, strings: &StringHeap) -> (row: Result<Property, Error>)
        ensures
            final(r).data@ == old(r).data@,
            row is Ok <==> Property::readable(old(r).data@, old(r).pos as int, strings.bytes()),
            row matches Ok(row) ==> Property::row_at(old(r).data@, old(r).pos as int, strings.bytes(), row)
                && final(r).pos == old(r).pos + 6,
            row matches Err(e) ==> e == Error::Malformed,
    {
        if !(r.pos <= r.data.len() && r.data.len() - r.pos >= 6) {
            return Err(Error::Malformed);
        }
        let flags = r.u16().unwrap();
        let name = read_string(r, strings);
        let type_blob_index = r.u16().unwrap();
        let name = match name {
            Ok(v) => v,
            Err(e) => return Err(e),
        };
        Ok(Property { flags, name, type_blob_index })
    }
}

/// The role of a method for a property or event.
#[derive(Debug, Clone, Copy, PartialEq, Eq, Structural)]
pub struct MethodSemantics {
    pub semantics: u16,
    pub method: u16,
    pub association: u16,
}

impl MethodSemantics {
    /// The size of one row in bytes.
    pub const ROW_SIZE: usize = 6;

    /// Whether `row` is the row encoded at `p`.
    pub open spec fn row_at(d: Seq<u8>, p: int, row: MethodSemantics) -> bool {
        &&& fits(d, p, 6)
        &&& row.semantics as int == le16(d, p)
        &&& row.method as int == le16(d, p + 2)
        &&& row.association as int == le16(d, p + 4)
    }

    /// Whether a whole row is encoded at `p`.
    pub open spec fn readable(d: Seq<u8>, p: int) -> bool {
        fits(d, p, 6)
    }

    /// Reads one row at the reader's position.
    pub fn read(r: &mut ByteReader) -> (row: Result<MethodSemantics, Error>)
        ensures
            final(r).data@ == old(r).data@,
            row is Ok <==> MethodSemantics::readable(old(r).data@, old(r).pos as int),
            row matches Ok(row) ==> MethodSemantics::row_at(old(r).data@, old(r).pos as int, row)
                && final(r).pos == old(r).pos + 6,
            row matches Err(e) ==> e == Error::Malformed,
    {
        if !(r.pos <= r.data.len() && r.data.len() - r.pos >= 6) {
            return Err(Error::Malformed);
        }
        let semantics = r.u16().unwrap();
        let method = r.u16().unwrap();
        let association = r.u16().unwrap();
        Ok(MethodSemantics { semantics, method, association })
    }
}

/// A method body that implements a declaration.
#[derive(Debug, Clone, Copy, PartialEq, Eq, Structural)]
pub struct MethodImpl {
    pub class: u16,
    pub method_body: u16,
    pub method_declaration: u16,
}

impl MethodImpl {
    /// The size of one row in bytes.
    pub const ROW_SIZE: usize = 6;

    /// Whether `row` is the row encoded at `p`.
    pub open spec fn row_at(d: Seq<u8>, p: int, row: MethodImpl) -> bool {
        &&& fits(d, p, 6)
        &&& row.class as int == le16(d, p)
        &&& row.method_body as int == le16(d, p + 2)
        &&& row.method_declaration as int == le16(d, p + 4)
    }

    /// Whether a whole row is encoded at `p`.
    pub open spec fn readable(d: Seq<u8>, p: int) -> bool {
        fits(d, p, 6)
    }

    /// Reads one row at the reader's position.
    pub fn read(r: &mut ByteReader) -> (row: Result<MethodImpl, Error>)
        ensures
            final(r).data@ == old(r).data@,
            row is Ok <==> MethodImpl::readable(old(r).data@, old(r).pos as int),
            row matches Ok(row) ==> MethodImpl::row_at(old(r).data@, old(r).pos as int, row)
                && final(r).pos == old(r).pos + 6,
            row matches Err(e) ==> e == Error::Malformed,
    {
        if !(r.pos <= r.data.len() && r.data.len() - r.pos >= 6) {
            return Err(Error::Malformed);
        }
        let class = r.u16().unwrap();
        let method_body = r.u16().unwrap();
        let method_declaration = r.u16().unwrap();
        Ok(MethodImpl { class, method_body, method_declaration })
    }
}

/// A type given by a signature.
#[derive(Debug, Clone, Copy, PartialEq, Eq, Structural)]
pub struct TypeSpec {
    pub signature_blob_index: u16,
}

impl TypeSpec {
    /// The size of one row in bytes.
    pub const ROW_SIZE: usize = 2;

    /// Whether `row` is the row encoded at `p`.
    pub open spec fn row_at(d: Seq<u8>, p: int, row: TypeSpec) -> bool {
        &&& fits(d, p, 2)
        &&& row.signature_blob_index as int == le16(d, p)
    }

    /// Whether a whole row is encoded at `p`.
    pub open spec fn readable(d: Seq<u8>, p: int) -> bool {
        fits(d, p, 2)
    }

    /// Reads one row at the reader's position.
    pub fn read(r: &mut ByteReader) -> (row: Result<TypeSpec, Error>)
        ensures
            final(r).data@ == old(r).data@,
            row is Ok <==> TypeSpec::readable(old(r).data@, old(r).pos as int),
            row matches Ok(row) ==> TypeSpec::row_at(old(r).data@, old(r).pos as int, row)
                && final(r).pos == old(r).pos + 2,
            row matches Err(e) ==> e == Error::Malformed,
    {
        if !(r.pos <= r.data.len() && r.data.len() - r.pos >= 2) {
            return Err(Error::Malformed);
        }
        let signature_blob_index = r.u16().unwrap();
        Ok(TypeSpec { signature_blob_index })
    }
}

/// A method forwarded to native code.
#[derive(Debug)]
pub struct ImplMap {
    pub mapping_flags: u16,
    pub member_forwarded: u16,
    pub import_name: String,
    pub import_scope: u16,
}

impl ImplMap {
    /// The size of one row in bytes.
    pub const ROW_SIZE: usize = 8;

    /// Whether `row` is the row encoded at `p`, its strings looked up in a
    /// string heap holding `strings`.
    pub open spec fn row_at(d: Seq<u8>, p: int, strings: Seq<u8>, row: ImplMap) -> bool {
        &&& fits(d, p, 8)
        &&& row.mapping_flags as int == le16(d, p)
        &&& row.member_forwarded as int == le16(d, p + 2)
        &&& heap_string(strings, le16(d, p + 4)) == Some(row.import_name@)
        &&& row.import_scope as int == le16(d, p + 6)
    }

    /// Whether a whole row is encoded at `p` and its strings resolve.
    pub open spec fn readable(d: Seq<u8>, p: int, strings: Seq<u8>) -> bool {
        fits(d, p, 8)
        && heap_string(strings, le16(d, p + 4)) is Some
    }

    /// Reads one row at the reader's position.
    pub fn read(r: &mut ByteReader, strings: &StringHeap) -> (row: Result<ImplMap, Error>)
        ensures
            final(r).data@ == old(r).data@,
            row is Ok <==> ImplMap::readable(old(r).data@, old(r).pos as int, strings.bytes()),
            row matches Ok(row) ==> ImplMap::row_at(old(r).data@, old(r).pos as int, strings.bytes(), row)
                && final(r).pos == old(r).pos + 8,
            row matches Err(e) ==> e == Error::Malformed,
    {
        if !(r.pos <= r.data.len() && r.data.len() - r.pos >= 8) {
            return Err(Error::Malformed);
        }
        let mapping_flags = r.u16().unwrap();
        let member_forwarded = r.u16().unwrap();
        let import_name = read_string(r, strings);
        let import_scope = r.u16().unwrap();
        let import_name = match import_name {
            Ok(v) => v,
            Err(e) => return Err(e),
        };
        Ok(ImplMap { mapping_flags, member_forwarded, import_name, import_scope })
    }
}

/// A type nested in another.
#[derive(Debug, Clone, Copy, PartialEq, Eq, Structural)]
pub struct NestedClass {
    pub nested_class: u16,
    pub enclosing_class: u16,
}

impl NestedClass {
    /// The size of one row in bytes.
    pub const ROW_SIZE: usize = 4;

    /// Whether `row` is the row encoded at `p`.
    pub open spec fn row_at(d: Seq<u8>, p: int, row: NestedClass) -> bool {
        &&& fits(d, p, 4)
        &&& row.nested_class as int == le16(d, p)
        &&& row.enclosing_class as int == le16(d, p + 2)
    }

    /// Whether a whole row is encoded at `p`.
    pub open spec fn readable(d: Seq<u8>, p: int) -> bool {
        fits(d, p, 4)
    }

    /// Reads one row at the reader's position.
    pub fn read(r: &mut ByteReader) -> (row: Result<NestedClass, Error>)
        ensures
            final(r).data@ == old(r).data@,
            row is Ok <==> NestedClass::readable(old(r).data@, old(r).pos as int),
            row matches Ok(row) ==> NestedClass::row_at(old(r).data@, old(r).pos as int, row)
                && final(r).pos == old(r).pos + 4,
            row matches Err(e) ==> e == Error::Malformed,
    {
        if !(r.pos <= r.data.len() && r.data.len() - r.pos >= 4) {
            return Err(Error::Malformed);
        }
        let nested_class = r.u16().unwrap();
        let enclosing_class = r.u16().unwrap();
        Ok(NestedClass { nested_class, enclosing_class })
    }
}

/// A generic parameter of a type or method.
#[derive(Debug)]
pub struct GenericParam {
    pub number: u16,
    pub flags: u16,
    pub owner: u16,
    pub name: String,
}

impl GenericParam {
    /// The size of one row in bytes.
    pub const ROW_SIZE: usize = 8;

    /// Whether `row` is the row encoded at `p`, its strings looked up in a
    /// string heap holding `strings`.
    pub open spec fn row_at(d: Seq<u8>, p: int, strings: Seq<u8>, row: GenericParam) -> bool {
        &&& fits(d, p, 8)
        &&& row.number as int == le16(d, p)
        &&& row.flags as int == le16(d, p + 2)
        &&& row.owner as int == le16(d, p + 4)
        &&& heap_string(strings, le16(d, p + 6)) == Some(row.name@)
    }

    /// Whether a whole row is encoded at `p` and its strings resolve.
    pub open spec fn readable(d: Seq<u8>, p: int, strings: Seq<u8>) -> bool {
        fits(d, p, 8)
        && heap_string(strings, le16(d, p + 6)) is Some
    }

    /// Reads one row at the reader's position.
    pub fn read(r: &mut ByteReader, strings: &StringHeap) -> (row: Result<GenericParam, Error>)
        ensures
            final(r).data@ == old(r).data@,
            row is Ok <==> GenericParam::readable(old(r).data@, old(r).pos as int, strings.bytes()),
            row matches Ok(row) ==> GenericParam::row_at(old(r).data@, old(r).pos as int, strings.bytes(), row)
                && final(r).pos == old(r).pos + 8,
            row matches Err(e) ==> e == Error::Malformed,
    {
        if !(r.pos <= r.data.len() && r.data.len() - r.pos >= 8) {
            return Err(Error::Malformed);
        }
        let number = r.u16().unwrap();
        let flags = r.u16().unwrap();
        let owner = r.u16().unwrap();
        let name = read_string(r, strings);
        let name = match name {
            Ok(v) => v,
            Err(e) => return Err(e),
        };
        Ok(GenericParam { number, flags, owner, name })
    }
}

/// An instantiation of a generic method.
#[derive(Debug, Clone, Copy, PartialEq, Eq, Structural)]
pub struct MethodSpec {
    pub method: u16,
    pub instantiation_blob_index: u16,
}

impl MethodSpec {
    /// The size of one row in bytes.
    pub const ROW_SIZE: usize = 4;

    /// Whether `row` is the row encoded at `p`.
    pub open spec fn row_at(d: Seq<u8>, p: int, row: MethodSpec) -> bool {
        &&& fits(d, p, 4)
        &&& row.method as int == le16(d, p)
        &&& row.instantiation_blob_index as int == le16(d, p + 2)
    }

    /// Whether a whole row is encoded at `p`.
    pub open spec fn readable(d: Seq<u8>, p: int) -> bool {
        fits(d, p, 4)
    }

    /// Reads one row at the reader's position.
    pub fn read(r: &mut ByteReader) -> (row: Result<MethodSpec, Error>)
        ensures
            final(r).data@ == old(r).data@,
            row is Ok <==> MethodSpec::readable(old(r).data@, old(r).pos as int),
            row matches Ok(row) ==> MethodSpec::row_at(old(r).data@, old(r).pos as int, row)
                && final(r).pos == old(r).pos + 4,
            row matches Err(e) ==> e == Error::Malformed,
    {
        if !(r.pos <= r.data.len() && r.data.len() - r.pos >= 4) {
            return Err(Error::Malformed);
        }
        let method = r.u16().unwrap();
        let instantiation_blob_index = r.u16().unwrap();
        Ok(MethodSpec { method, instantiation_blob_index })
    }
}

/// A constraint on a generic parameter.
#[derive(Debug, Clone, Copy, PartialEq, Eq, Structural)]
pub struct GenericParamConstraint {
    pub owner: u16,
    pub constraint: u16,
}

impl GenericParamConstraint {
    /// The size of one row in bytes.
    pub const ROW_SIZE: usize = 4;

    /// Whether `row` is the row encoded at `p`.
    pub open spec fn row_at(d: Seq<u8>, p: int, row: GenericParamConstraint) -> bool {
        &&& fits(d, p, 4)
        &&& row.owner as int == le16(d, p)
        &&& row.constraint as int == le16(d, p + 2)
    }

    /// Whether a whole row is encoded at `p`.
    pub open spec fn readable(d: Seq<u8>, p: int) -> bool {
        fits(d, p, 4)
    }

    /// Reads one row at the reader's position.
    pub fn read(r: &mut ByteReader) -> (row: Result<GenericParamConstraint, Error>)
        ensures
            final(r).data@ == old(r).data@,
            row is Ok <==> GenericParamConstraint::readable(old(r).data@, old(r).pos as int),
            row matches Ok(row) ==> GenericParamConstraint::row_at(old(r).data@, old(r).pos as int, row)
                && final(r).pos == old(r).pos + 4,
            row matches Err(e) ==> e == Error::Malformed,
    {
        if !(r.pos <= r.data.len() && r.data.len() - r.pos >= 4) {
            return Err(Error::Malformed);
        }
        let owner = r.u16().unwrap();
        let constraint = r.u16().unwrap();
        Ok(GenericParamConstraint { owner, constraint })
    }
}

impl TableRow for Module {
    open spec fn size_spec() -> int {
        Module::ROW_SIZE as int
    }

    open spec fn row_at_spec(d: Seq<u8>, p: int, strings: Seq<u8>, row: Module) -> bool {
        Module::row_at(d, p, strings, row)
    }

    open spec fn readable_spec(d: Seq<u8>, p: int, strings: Seq<u8>) -> bool {
        Module::readable(d, p, strings)
    }

    fn row_size() -> (r: usize) {
        Module::ROW_SIZE
    }

    fn read_row(r: &mut ByteReader, strings: &StringHeap) -> (row: Result<Module, Error>) {
        Module::read(r, strings)
    }
}

impl TableRow for TypeRef {
    open spec fn size_spec() -> int {
        TypeRef::ROW_SIZE as int
    }

    open spec fn row_at_spec(d: Seq<u8>, p: int, strings: Seq<u8>, row: TypeRef) -> bool {
        TypeRef::row_at(d, p, strings, row)
    }

    open spec fn readable_spec(d: Seq<u8>, p: int, strings: Seq<u8>) -> bool {
        TypeRef::readable(d, p, strings)
    }

    fn row_size() -> (r: usize) {
        TypeRef::ROW_SIZE
    }

    fn read_row(r: &mut ByteReader, strings: &StringHeap) -> (row: Result<TypeRef, Error>) {
        TypeRef::read(r, strings)
    }
}

impl TableRow for TypeDef {
    open spec fn size_spec() -> int {
        TypeDef::ROW_SIZE as int
    }

    open spec fn row_at_spec(d: Seq<u8>, p: int, strings: Seq<u8>, row: TypeDef) -> bool {
        TypeDef::row_at(d, p, strings, row)
    }

    open spec fn readable_spec(d: Seq<u8>, p: int, strings: Seq<u8>) -> bool {
        TypeDef::readable(d, p, strings)
    }

    fn row_size() -> (r: usize) {
        TypeDef::ROW_SIZE
    }

    fn read_row(r: &mut ByteReader, strings: &StringHeap) -> (row: Result<TypeDef, Error>) {
        TypeDef::read(r, strings)
    }
}

impl TableRow for StandAloneSig {
    open spec fn size_spec() -> int {
        StandAloneSig::ROW_SIZE as int
    }

    open spec fn row_at_spec(d: Seq<u8>, p: int, strings: Seq<u8>, row: StandAloneSig) -> bool {
        StandAloneSig::row_at(d, p, row)
    }

    open spec fn readable_spec(d: Seq<u8>, p: int, strings: Seq<u8>) -> bool {
        StandAloneSig::readable(d, p)
    }

    fn row_size() -> (r: usize) {
        StandAloneSig::ROW_SIZE
    }

    fn read_row(r: &mut ByteReader, strings: &StringHeap) -> (row: Result<StandAloneSig, Error>) {
        StandAloneSig::read(r)
    }
}

impl TableRow for InterfaceImpl {
    open spec fn size_spec() -> int {
        InterfaceImpl::ROW_SIZE as int
    }

    open spec fn row_at_spec(d: Seq<u8>, p: int, strings: Seq<u8>, row: InterfaceImpl) -> bool {
        InterfaceImpl::row_at(d, p, row)
    }

    open spec fn readable_spec(d: Seq<u8>, p: int, strings: Seq<u8>) -> bool {
        InterfaceImpl::readable(d, p)
    }

    fn row_size() -> (r: usize) {
        InterfaceImpl::ROW_SIZE
    }

    fn read_row(r: &mut ByteReader, strings: &StringHeap) -> (row: Result<InterfaceImpl, Error>) {
        InterfaceImpl::read(r)
    }
}

impl TableRow for Constant {
    open spec fn size_spec() -> int {
        Constant::ROW_SIZE as int
    }

    open spec fn row_at_spec(d: Seq<u8>, p: int, strings: Seq<u8>, row: Constant) -> bool {
        Constant::row_at(d, p, row)
    }

    open spec fn readable_spec(d: Seq<u8>, p: int, strings: Seq<u8>) -> bool {
        Constant::readable(d, p)
    }

    fn row_size() -> (r: usize) {
        Constant::ROW_SIZE
    }

    fn read_row(r: &mut ByteReader, strings: &StringHeap) -> (row: Result<Constant, Error>) {
        Constant::read(r)
    }
}

impl TableRow for DeclSecurity {
    open spec fn size_spec() -> int {
        DeclSecurity::ROW_SIZE as int
    }

    open spec fn row_at_spec(d: Seq<u8>, p: int, strings: Seq<u8>, row: DeclSecurity) -> bool {
        DeclSecurity::row_at(d, p, row)
    }

    open spec fn readable_spec(d: Seq<u8>, p: int, strings: Seq<u8>) -> bool {
        DeclSecurity::readable(d, p)
    }

    fn row_size() -> (r: usize) {
        DeclSecurity::ROW_SIZE
    }

    fn read_row(r: &mut ByteReader, strings: &StringHeap) -> (row: Result<DeclSecurity, Error>) {
        DeclSecurity::read(r)
    }
}

impl TableRow for ClassLayout {
    open spec fn size_spec() -> int {
        ClassLayout::ROW_SIZE as int
    }

    open spec fn row_at_spec(d: Seq<u8>, p: int, strings: Seq<u8>, row: ClassLayout) -> bool {
        ClassLayout::row_at(d, p, row)
    }

    open spec fn readable_spec(d: Seq<u8>, p: int, strings: Seq<u8>) -> bool {
        ClassLayout::readable(d, p)
    }

    fn row_size() -> (r: usize) {
        ClassLayout::ROW_SIZE
    }

    fn read_row(r: &mut ByteReader, strings: &StringHeap) -> (row: Result<ClassLayout, Error>) {
        ClassLayout::read(r)
    }
}

impl TableRow for FieldLayout {
    open spec fn size_spec() -> int {
        FieldLayout::ROW_SIZE as int
    }

    open spec fn row_at_spec(d: Seq<u8>, p: int, strings: Seq<u8>, row: FieldLayout) -> bool {
        FieldLayout::row_at(d, p, row)
    }

    open spec fn readable_spec(d: Seq<u8>, p: int, strings: Seq<u8>) -> bool {
        FieldLayout::readable(d, p)
    }

    fn row_size() -> (r: usize) {
        FieldLayout::ROW_SIZE
    }

    fn read_row(r: &mut ByteReader, strings: &StringHeap) -> (row: Result<FieldLayout, Error>) {
        FieldLayout::read(r)
    }
}

impl TableRow for PropertyMap {
    open spec fn size_spec() -> int {
        PropertyMap::ROW_SIZE as int
    }

    open spec fn row_at_spec(d: Seq<u8>, p: int, strings: Seq<u8>, row: PropertyMap) -> bool {
        PropertyMap::row_at(d, p, row)
    }

    open spec fn readable_spec(d: Seq<u8>, p: int, strings: Seq<u8>) -> bool {
        PropertyMap::readable(d, p)
    }

    fn row_size() -> (r: usize) {
        PropertyMap::ROW_SIZE
    }

    fn read_row(r: &mut ByteReader, strings: &StringHeap) -> (row: Result<PropertyMap, Error>) {
        PropertyMap::read(r)
    }
}

impl TableRow for Property {
    open spec fn size_spec() -> int {
        Property::ROW_SIZE as int
    }

    open spec fn row_at_spec(d: Seq<u8>, p: int, strings: Seq<u8>, row: Property) -> bool {
        Property::row_at(d, p, strings, row)
    }

    open spec fn readable_spec(d: Seq<u8>, p: int, strings: Seq<u8>) -> bool {
        Property::readable(d, p, strings)
    }

    fn row_size() -> (r: usize) {
        Property::ROW_SIZE
    }

    fn read_row(r: &mut ByteReader, strings: &StringHeap) -> (row: Result<Property, Error>) {
        Property::read(r, strings)
    }
}

impl TableRow for MethodSemantics {
    open spec fn size_spec() -> int {
        MethodSemantics::ROW_SIZE as int
    }

    open spec fn row_at_spec(d: Seq<u8>, p: int, strings: Seq<u8>, row: MethodSemantics) -> bool {
        MethodSemantics::row_at(d, p, row)
    }

    open spec fn readable_spec(d: Seq<u8>, p: int, strings: Seq<u8>) -> bool {
        MethodSemantics::readable(d, p)
    }

    fn row_size() -> (r: usize) {
        MethodSemantics::ROW_SIZE
    }

    fn read_row(r: &mut ByteReader, strings: &StringHeap) -> (row: Result<MethodSemantics, Error>) {
        MethodSemantics::read(r)
    }
}

impl TableRow for MethodImpl {
    open spec fn size_spec() -> int {
        MethodImpl::ROW_SIZE as int
    }

    open spec fn row_at_spec(d: Seq<u8>, p: int, strings: Seq<u8>, row: MethodImpl) -> bool {
        MethodImpl::row_at(d, p, row)
    }

    open spec fn readable_spec(d: Seq<u8>, p: int, strings: Seq<u8>) -> bool {
        MethodImpl::readable(d, p)
    }

    fn row_size() -> (r: usize) {
        MethodImpl::ROW_SIZE
    }

    fn read_row(r: &mut ByteReader, strings: &StringHeap) -> (row: Result<MethodImpl, Error>) {
        MethodImpl::read(r)
    }
}

impl TableRow for TypeSpec {
    open spec fn size_spec() -> int {
        TypeSpec::ROW_SIZE as int
    }

    open spec fn row_at_spec(d: Seq<u8>, p: int, strings: Seq<u8>, row: TypeSpec) -> bool {
        TypeSpec::row_at(d, p, row)
    }

    open spec fn readable_spec(d: Seq<u8>, p: int, strings: Seq<u8>) -> bool {
        TypeSpec::readable(d, p)
    }

    fn row_size() -> (r: usize) {
        TypeSpec::ROW_SIZE
    }

    fn read_row(r: &mut ByteReader, strings: &StringHeap) -> (row: Result<TypeSpec, Error>) {
        TypeSpec::read(r)
    }
}

impl TableRow for ImplMap {
    open spec fn size_spec() -> int {
        ImplMap::ROW_SIZE as int
    }

    open spec fn row_at_spec(d: Seq<u8>, p: int, strings: Seq<u8>, row: ImplMap) -> bool {
        ImplMap::row_at(d, p, strings, row)
    }

    open spec fn readable_spec(d: Seq<u8>, p: int, strings: Seq<u8>) -> bool {
        ImplMap::readable(d, p, strings)
    }

    fn row_size() -> (r: usize) {
        ImplMap::ROW_SIZE
    }

    fn read_row(r: &mut ByteReader, strings: &StringHeap) -> (row: Result<ImplMap, Error>) {
        ImplMap::read(r, strings)
    }
}

impl TableRow for NestedClass {
    open spec fn size_spec() -> int {
        NestedClass::ROW_SIZE as int
    }

    open spec fn row_at_spec(d: Seq<u8>, p: int, strings: Seq<u8>, row: NestedClass) -> bool {
        NestedClass::row_at(d, p, row)
    }

    open spec fn readable_spec(d: Seq<u8>, p: int, strings: Seq<u8>) -> bool {
        NestedClass::readable(d, p)
    }

    fn row_size() -> (r: usize) {
        NestedClass::ROW_SIZE
    }

    fn read_row(r: &mut ByteReader, strings: &StringHeap) -> (row: Result<NestedClass, Error>) {
        NestedClass::read(r)
    }
}

impl TableRow for GenericParam {
    open spec fn size_spec() -> int {
        GenericParam::ROW_SIZE as int
    }

    open spec fn row_at_spec(d: Seq<u8>, p: int, strings: Seq<u8>, row: GenericParam) -> bool {
        GenericParam::row_at(d, p, strings, row)
    }

    open spec fn readable_spec(d: Seq<u8>, p: int, strings: Seq<u8>) -> bool {
        GenericParam::readable(d, p, strings)
    }

    fn row_size() -> (r: usize) {
        GenericParam::ROW_SIZE
    }

    fn read_row(r: &mut ByteReader, strings: &StringHeap) -> (row: Result<GenericParam, Error>) {
        GenericParam::read(r, strings)
    }
}

impl TableRow for MethodSpec {
    open spec fn size_spec() -> int {
        MethodSpec::ROW_SIZE as int
    }

    open spec fn row_at_spec(d: Seq<u8>, p: int, strings: Seq<u8>, row: MethodSpec) -> bool {
        MethodSpec::row_at(d, p, row)
    }

    open spec fn readable_spec(d: Seq<u8>, p: int, strings: Seq<u8>) -> bool {
        MethodSpec::readable(d, p)
    }

    fn row_size() -> (r: usize) {
        MethodSpec::ROW_SIZE
    }

    fn read_row(r: &mut ByteReader, strings: &StringHeap) -> (row: Result<MethodSpec, Error>) {
        MethodSpec::read(r)
    }
}

impl TableRow for GenericParamConstraint {
    open spec fn size_spec() -> int {
        GenericParamConstraint::ROW_SIZE as int
    }

    open spec fn row_at_spec(d: Seq<u8>, p: int, strings: Seq<u8>, row: GenericParamConstraint) -> bool {
        GenericParamConstraint::row_at(d, p, row)
    }

    open spec fn readable_spec(d: Seq<u8>, p: int, strings: Seq<u8>) -> bool {
        GenericParamConstraint::readable(d, p)
    }

    fn row_size() -> (r: usize) {
        GenericParamConstraint::ROW_SIZE
    }

    fn read_row(r: &mut ByteReader, strings: &StringHeap) -> (row: Result<GenericParamConstraint, Error>) {
        GenericParamConstraint::read(r)
    }
}

} // verus!
