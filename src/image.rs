//! A loaded image: the CLI header, the heaps, the metadata tables, and the
//! header and instructions of every method body.

use object::{Object, ObjectSection};
use vstd::prelude::*;

use crate::bytes::{copy_range, fits, le16, le32, le64, ByteReader};
use crate::coded::{MemberRefParent, TypeDefOrRef};
use crate::error::Error;
use crate::header::CliHeader;
use crate::meta::{
    bit_set, bits_below, first_named, first_stream, header_counts, header_readable, root_readable, stream_bytes,
    stream_count, stream_error, stream_header_at, stream_pos, token_index, token_tag, Guid, LogicalMetadataTables,
    PhysicalMetadata, Token,
};
use crate::opcodes::{decode_body, stream_end, stream_ok, stream_prefix, RawOpcode};
use crate::signature::{parse_signature, SignatureModel, StandaloneMethodSignature};
use crate::strings::{blob_range, read_guids, BlobHeap, StringHeap, UserStringHeap};
use crate::tables::assembly::{Assembly, AssemblyRef};
use crate::tables::attribute::CustomAttribute;
use crate::tables::field::{Field, FieldRva};
use crate::tables::member::MemberRef;
use crate::tables::method::Method;
use crate::tables::param::Param;
use crate::tables::{
    read_rows, ClassLayout, Constant, DeclSecurity, FieldLayout, GenericParam, GenericParamConstraint,
    ImplMap, InterfaceImpl, MethodImpl, MethodSemantics, MethodSpec, Module, NestedClass, Property,
    PropertyMap, StandAloneSig, TableRow, TypeDef, TypeRef, TypeSpec,
};

verus! {

/// What the PE container says of the CLI image in `data`: the RVA where the
/// code section starts, the RVA of the CLI header, and the bytes of `.text`.
pub uninterp spec fn pe_cli_layout(data: Seq<u8>) -> Option<(u32, u32, Seq<u8>)>;

/// Where a PE container keeps its CLI image.
pub struct PeLayout {
    /// The RVA at which the code section starts.
    pub code_base: u32,
    /// The RVA of the CLI header, from the COM descriptor directory.
    pub cli_rva: u32,
    /// The contents of the `.text` section.
    pub text: Vec<u8>,
}

/// Relies on the `object` crate: `PeFile32::parse` on the file bytes, the
/// COM descriptor entry of `data_directories()` (absent when its address is
/// 0), `base_of_code` of the optional header, and the data of the section
/// named `.text`. `None` where any of them is missing.
#[verifier::external_body]
fn locate_cli(data: &[u8]) -> (r: Option<PeLayout>)
    ensures
        r is None <==> pe_cli_layout(data@) is None,
        r matches Some(l) ==> pe_cli_layout(data@) == Some((l.code_base, l.cli_rva, l.text@)),
        r matches Some(l) ==> l.cli_rva != 0,
{
    let pe = object::read::pe::PeFile32::parse(data).ok()?;
    let dir = pe.data_directories().get(object::pe::IMAGE_DIRECTORY_ENTRY_COM_DESCRIPTOR)?;
    let code_base = pe.nt_headers().optional_header.base_of_code.get(object::LittleEndian);
    let text = pe.section_by_name(".text")?.data().ok()?.to_vec();
    Some(PeLayout { code_base, cli_rva: dir.virtual_address.get(object::LittleEndian), text })
}

/// A namespace and a type name.
#[derive(Debug, PartialEq)]
pub struct TypeName {
    pub namespace: String,
    pub name: String,
}

/// The header of a method body.
#[derive(Debug, Clone, Copy, PartialEq, Eq, Structural)]
pub struct MethodHeader {
    pub max_stack: u16,
    pub code_size: u32,
    pub local_var_sig_token: Option<Token>,
}

/// The header of the method body at `s` and where its code starts: a tiny
/// header (low bits `10`) holds the code size in its upper six bits; a fat
/// one (low bits `11`) holds its own length in dwords in the top four bits of
/// its first word, then the stack depth, the code size and the locals token.
pub open spec fn method_header_at(d: Seq<u8>, s: int) -> Option<(MethodHeader, int)> {
    if !fits(d, s, 1) {
        None
    } else if d[s] % 4 == 2 {
        Some((MethodHeader { max_stack: 8, code_size: (d[s] / 4) as u32, local_var_sig_token: None }, s + 1))
    } else if d[s] % 4 == 3 && fits(d, s, 12) {
        Some(
            (
                MethodHeader {
                    max_stack: le16(d, s + 2) as u16,
                    code_size: le32(d, s + 4) as u32,
                    local_var_sig_token: Some(Token(le32(d, s + 8) as u32)),
                },
                s + 4 * (le16(d, s) / 0x1000),
            ),
        )
    } else {
        None
    }
}

/// A method body: its header and its instructions with their offsets.
#[derive(Debug)]
pub struct MethodBody {
    pub header: MethodHeader,
    pub opcodes: Vec<(u32, RawOpcode)>,
}

/// Whether `b` is the body of a non-abstract method at `rva`, read from a
/// code section that starts at `code_base` and holds `text`.
pub open spec fn body_at(text: Seq<u8>, code_base: u32, rva: u32, b: MethodBody) -> bool {
    &&& code_base <= rva
    &&& method_header_at(text, rva - code_base) matches Some((h, cs))
    &&& h == b.header
    &&& fits(text, cs, h.code_size as int)
    &&& stream_prefix(text.subrange(cs, cs + h.code_size), b.opcodes@)
    &&& stream_end(b.opcodes@) == h.code_size
}

/// Whether the body of a non-abstract method at `rva` can be read: its
/// header parses, its code lies within the section, and the code decodes
/// into instructions that end exactly at its end.
pub open spec fn body_readable(text: Seq<u8>, code_base: u32, rva: u32) -> bool {
    &&& code_base <= rva
    &&& method_header_at(text, rva - code_base) matches Some((h, cs))
    &&& fits(text, cs, h.code_size as int)
    &&& stream_ok(text.subrange(cs, cs + h.code_size), 0)
}

impl MethodBody {
    /// Reads the body of `method` from the code section `text`, which starts
    /// at RVA `code_base`. An abstract method has an empty body.
    pub fn read(text: &[u8], code_base: u32, method: &Method) -> (r: Result<MethodBody, Error>)
        requires
            text@.len() <= u32::MAX,
        ensures
            method.flags.0 / 0x400 % 2 == 1 ==> (r matches Ok(b) && b.opcodes@.len() == 0
                && b.header == MethodHeader { max_stack: 0, code_size: 0, local_var_sig_token: None }),
            method.flags.0 / 0x400 % 2 != 1 ==> (r matches Ok(b) ==> body_at(text@, code_base, method.rva, b)),
            method.flags.0 / 0x400 % 2 != 1 ==> (r is Ok <==> body_readable(text@, code_base, method.rva)),
            r matches Err(e) ==> e == Error::Malformed,
    {
        if method.flags.is_abstract() {
            return Ok(MethodBody {
                header: MethodHeader { max_stack: 0, code_size: 0, local_var_sig_token: None },
                opcodes: Vec::new(),
            });
        }
        if method.rva < code_base {
            return Err(Error::Malformed);
        }
        let s = (method.rva - code_base) as usize;
        if s >= text.len() {
            return Err(Error::Malformed);
        }
        let b = text[s];
        let (header, cs) = if b % 4 == 2 {
            (MethodHeader { max_stack: 8, code_size: (b / 4) as u32, local_var_sig_token: None }, s + 1)
        } else if b % 4 == 3 && text.len() - s >= 12 {
            let mut rd = ByteReader::new(text, s);
            let w = rd.u16().unwrap();
            let max_stack = rd.u16().unwrap();
            let code_size = rd.u32().unwrap();
            let token = rd.u32().unwrap();
            let skip = 4 * (w / 0x1000) as usize;
            if text.len() - s < skip {
                return Err(Error::Malformed);
            }
            (MethodHeader { max_stack, code_size, local_var_sig_token: Some(Token(token)) }, s + skip)
        } else {
            return Err(Error::Malformed);
        };
        let size = header.code_size as usize;
        if !(cs <= text.len() && text.len() - cs >= size) {
            return Err(Error::Malformed);
        }
        let code = vstd::slice::slice_subrange(text, cs, cs + size);
        match decode_body(code) {
            Ok(opcodes) => Ok(MethodBody { header, opcodes }),
            Err(e) => Err(e),
        }
    }
}

/// A `MethodDef` row with its body, or why the body could not be read.
#[derive(Debug)]
pub struct MethodEntry {
    pub method: Method,
    pub body: Result<MethodBody, Error>,
}

/// The number of rows of table `t` that a header with bitmap `v` and row
/// counts `c` (one per set bit, in ascending order) lists.
pub open spec fn table_count(v: u64, c: Seq<u32>, t: int) -> int {
    if bit_set(v, t) {
        c[bits_below(v, t)] as int
    } else {
        0
    }
}

/// How many bytes the rows of the tables before `t` take.
pub open spec fn table_offset(v: u64, c: Seq<u32>, t: int) -> int
    decreases t,
{
    if t <= 0 {
        0
    } else {
        table_offset(v, c, t - 1) + table_count(v, c, t - 1) * row_size(t - 1)
    }
}

/// Where the rows of table `t` start in the table stream.
pub open spec fn table_start(v: u64, c: Seq<u32>, t: int) -> int {
    24 + 4 * c.len() + table_offset(v, c, t)
}

/// The error for the lowest table from `t` on that has rows but is not
/// read, if there is one.
pub open spec fn table_check(v: u64, c: Seq<u32>, t: int) -> Option<Error>
    decreases 64 - t,
{
    if t < 0 || t >= 64 {
        None
    } else if table_count(v, c, t) > 0 && !is_read_table(t) {
        Some(table_error(t))
    } else {
        table_check(v, c, t + 1)
    }
}

/// The number of rows of table `t`.
fn table_rows(h: &LogicalMetadataTables, t: u32) -> (n: u32)
    requires
        h.rows_per_table@.len() == bits_below(h.valid, 64),
        t < 64,
    ensures
        n == table_count(h.valid, h.rows_per_table@, t as int),
{
    let mut rank: usize = 0;
    let mut i: u32 = 0;
    while i < t
        invariant
            i <= t < 64,
            rank == bits_below(h.valid, i as int),
            rank <= i,
        decreases t - i,
    {
        if (h.valid >> i as u64) & 1u64 == 1u64 {
            rank = rank + 1;
        }
        i = i + 1;
    }
    if (h.valid >> t as u64) & 1u64 == 1u64 {
        proof {
            lemma_bits_below_mono(h.valid, t as int + 1, 64);
        }
        h.rows_per_table[rank]
    } else {
        0
    }
}

/// At most `t` of the bits below `t` are set.
proof fn lemma_bits_below_bound(v: u64, t: int)
    requires
        0 <= t,
    ensures
        0 <= bits_below(v, t) <= t,
    decreases t,
{
    if t > 0 {
        lemma_bits_below_bound(v, t - 1);
    }
}

/// Counting set bits below a larger bound counts at least as many.
proof fn lemma_bits_below_mono(v: u64, a: int, b: int)
    requires
        0 <= a <= b,
    ensures
        bits_below(v, a) <= bits_below(v, b),
    decreases b - a,
{
    if a < b {
        lemma_bits_below_mono(v, a, b - 1);
    }
}

/// The error for a present table that is not read: `UnsupportedTable` for a
/// known one, `UnknownTable` otherwise.
pub open spec fn table_error(t: int) -> Error {
    if is_unsupported_table(t) {
        Error::UnsupportedTable(t as u8)
    } else {
        Error::UnknownTable(t as u8)
    }
}

/// Checks that every table that has rows is one that is read; otherwise
/// fails with the error of the lowest one that is not.
pub fn check_tables(h: &LogicalMetadataTables) -> (r: Result<(), Error>)
    requires
        h.rows_per_table@.len() == bits_below(h.valid, 64),
    ensures
        r == match table_check(h.valid, h.rows_per_table@, 0) {
            Some(e) => Err::<(), Error>(e),
            None => Ok::<(), Error>(()),
        },
{
    let mut t: u32 = 0;
    while t < 64
        invariant
            t <= 64,
            h.rows_per_table@.len() == bits_below(h.valid, 64),
            table_check(h.valid, h.rows_per_table@, 0) == table_check(h.valid, h.rows_per_table@, t as int),
        decreases 64 - t,
    {
        if !table_is_read(t) && table_rows(h, t) > 0 {
            let e = if table_is_unsupported(t) {
                Error::UnsupportedTable(t as u8)
            } else {
                Error::UnknownTable(t as u8)
            };
            return Err(e);
        }
        t = t + 1;
    }
    Ok(())
}

/// The size of a row of table `t`; 0 for the tables that are not read.
pub open spec fn row_size(t: int) -> int {
    if t == 0x00 {
        10
    } else if t == 0x01 {
        6
    } else if t == 0x02 {
        14
    } else if t == 0x04 {
        6
    } else if t == 0x06 {
        14
    } else if t == 0x08 {
        6
    } else if t == 0x09 {
        4
    } else if t == 0x0A {
        6
    } else if t == 0x0B {
        6
    } else if t == 0x0C {
        6
    } else if t == 0x0E {
        6
    } else if t == 0x0F {
        8
    } else if t == 0x10 {
        6
    } else if t == 0x11 {
        2
    } else if t == 0x15 {
        4
    } else if t == 0x17 {
        6
    } else if t == 0x18 {
        6
    } else if t == 0x19 {
        6
    } else if t == 0x1B {
        2
    } else if t == 0x1C {
        8
    } else if t == 0x1D {
        6
    } else if t == 0x20 {
        22
    } else if t == 0x23 {
        20
    } else if t == 0x29 {
        4
    } else if t == 0x2A {
        8
    } else if t == 0x2B {
        4
    } else if t == 0x2C {
        4
    } else {
        0
    }
}

/// Whether table `t` is one that this reader decodes.
pub open spec fn is_read_table(t: int) -> bool {
    row_size(t) > 0
}

/// Whether table `t` is known to the format but left undecoded here.
pub open spec fn is_unsupported_table(t: int) -> bool {
    t == 0x0D || t == 0x12 || t == 0x14 || t == 0x1A || t == 0x21 || t == 0x22 || t == 0x24 || t == 0x25 || t == 0x26 || t == 0x27 || t == 0x28
}

/// Whether this reader decodes table `t`.
fn table_is_read(t: u32) -> (r: bool)
    ensures
        r == is_read_table(t as int),
{
    t == 0x00 || t == 0x01 || t == 0x02 || t == 0x04 || t == 0x06 || t == 0x08 || t == 0x09 || t == 0x0A || t == 0x0B || t == 0x0C || t == 0x0E || t == 0x0F || t == 0x10 || t == 0x11 || t == 0x15 || t == 0x17 || t == 0x18 || t == 0x19 || t == 0x1B || t == 0x1C || t == 0x1D || t == 0x20 || t == 0x23 || t == 0x29 || t == 0x2A || t == 0x2B || t == 0x2C
}

/// Whether table `t` is known but left undecoded.
fn table_is_unsupported(t: u32) -> (r: bool)
    ensures
        r == is_unsupported_table(t as int),
{
    t == 0x0D || t == 0x12 || t == 0x14 || t == 0x1A || t == 0x21 || t == 0x22 || t == 0x24 || t == 0x25 || t == 0x26 || t == 0x27 || t == 0x28
}

/// The rows of every table that is read, in stream order.
pub struct Tables {
    pub modules: Vec<Module>,
    pub type_refs: Vec<TypeRef>,
    pub type_defs: Vec<TypeDef>,
    pub fields: Vec<Field>,
    pub methods: Vec<Method>,
    pub params: Vec<Param>,
    pub interface_impls: Vec<InterfaceImpl>,
    pub member_refs: Vec<MemberRef>,
    pub constants: Vec<Constant>,
    pub custom_attributes: Vec<CustomAttribute>,
    pub decl_security: Vec<DeclSecurity>,
    pub class_layouts: Vec<ClassLayout>,
    pub field_layouts: Vec<FieldLayout>,
    pub stand_alone_sigs: Vec<StandAloneSig>,
    pub property_maps: Vec<PropertyMap>,
    pub properties: Vec<Property>,
    pub method_semantics: Vec<MethodSemantics>,
    pub method_impls: Vec<MethodImpl>,
    pub type_specs: Vec<TypeSpec>,
    pub impl_maps: Vec<ImplMap>,
    pub field_rvas: Vec<FieldRva>,
    pub assemblies: Vec<Assembly>,
    pub assembly_refs: Vec<AssemblyRef>,
    pub nested_classes: Vec<NestedClass>,
    pub generic_params: Vec<GenericParam>,
    pub method_specs: Vec<MethodSpec>,
    pub generic_param_constraints: Vec<GenericParamConstraint>,
}

/// Whether `t` holds the rows of a table stream `d` whose header is `h`,
/// strings taken from a heap holding `strings`.
#[verifier::opaque]
pub open spec fn tables_at(d: Seq<u8>, v: u64, c: Seq<u32>, strings: Seq<u8>, t: Tables) -> bool {
    &&& table_rows_at::<Module>(d, v, c, strings, 0x00, t.modules@)
    &&& table_rows_at::<TypeRef>(d, v, c, strings, 0x01, t.type_refs@)
    &&& table_rows_at::<TypeDef>(d, v, c, strings, 0x02, t.type_defs@)
    &&& table_rows_at::<Field>(d, v, c, strings, 0x04, t.fields@)
    &&& table_rows_at::<Method>(d, v, c, strings, 0x06, t.methods@)
    &&& table_rows_at::<Param>(d, v, c, strings, 0x08, t.params@)
    &&& table_rows_at::<InterfaceImpl>(d, v, c, strings, 0x09, t.interface_impls@)
    &&& table_rows_at::<MemberRef>(d, v, c, strings, 0x0A, t.member_refs@)
    &&& table_rows_at::<Constant>(d, v, c, strings, 0x0B, t.constants@)
    &&& table_rows_at::<CustomAttribute>(d, v, c, strings, 0x0C, t.custom_attributes@)
    &&& table_rows_at::<DeclSecurity>(d, v, c, strings, 0x0E, t.decl_security@)
    &&& table_rows_at::<ClassLayout>(d, v, c, strings, 0x0F, t.class_layouts@)
    &&& table_rows_at::<FieldLayout>(d, v, c, strings, 0x10, t.field_layouts@)
    &&& table_rows_at::<StandAloneSig>(d, v, c, strings, 0x11, t.stand_alone_sigs@)
    &&& table_rows_at::<PropertyMap>(d, v, c, strings, 0x15, t.property_maps@)
    &&& table_rows_at::<Property>(d, v, c, strings, 0x17, t.properties@)
    &&& table_rows_at::<MethodSemantics>(d, v, c, strings, 0x18, t.method_semantics@)
    &&& table_rows_at::<MethodImpl>(d, v, c, strings, 0x19, t.method_impls@)
    &&& table_rows_at::<TypeSpec>(d, v, c, strings, 0x1B, t.type_specs@)
    &&& table_rows_at::<ImplMap>(d, v, c, strings, 0x1C, t.impl_maps@)
    &&& table_rows_at::<FieldRva>(d, v, c, strings, 0x1D, t.field_rvas@)
    &&& table_rows_at::<Assembly>(d, v, c, strings, 0x20, t.assemblies@)
    &&& table_rows_at::<AssemblyRef>(d, v, c, strings, 0x23, t.assembly_refs@)
    &&& table_rows_at::<NestedClass>(d, v, c, strings, 0x29, t.nested_classes@)
    &&& table_rows_at::<GenericParam>(d, v, c, strings, 0x2A, t.generic_params@)
    &&& table_rows_at::<MethodSpec>(d, v, c, strings, 0x2B, t.method_specs@)
    &&& table_rows_at::<GenericParamConstraint>(d, v, c, strings, 0x2C, t.generic_param_constraints@)
}

/// Whether every row of table `t` can be read at its place in the table
/// stream `d`.
#[verifier::opaque]
pub open spec fn table_readable<R: TableRow>(d: Seq<u8>, v: u64, c: Seq<u32>, strings: Seq<u8>, t: int) -> bool {
    forall|i: int| 0 <= i < table_count(v, c, t) ==> #[trigger] R::readable_spec(d, table_start(v, c, t) + i * R::size_spec(), strings)
}

/// Whether `rows` are the rows of table `t` of the table stream `d`.
#[verifier::opaque]
pub open spec fn table_rows_at<R: TableRow>(d: Seq<u8>, v: u64, c: Seq<u32>, strings: Seq<u8>, t: int, rows: Seq<R>) -> bool {
    &&& rows.len() == table_count(v, c, t)
    &&& forall|i: int| 0 <= i < rows.len() ==> R::row_at_spec(d, table_start(v, c, t) + i * R::size_spec(), strings, #[trigger] rows[i])
}

/// Whether every row that a header with bitmap `v` and row counts `c` lists
/// can be read from the table stream `d`, strings from a heap holding
/// `strings`.
pub open spec fn rows_ok(d: Seq<u8>, v: u64, c: Seq<u32>, strings: Seq<u8>) -> bool {
    &&& 24 + 4 * c.len() <= d.len()
    &&& table_readable::<Module>(d, v, c, strings, 0x00)
    &&& table_readable::<TypeRef>(d, v, c, strings, 0x01)
    &&& table_readable::<TypeDef>(d, v, c, strings, 0x02)
    &&& table_readable::<Field>(d, v, c, strings, 0x04)
    &&& table_readable::<Method>(d, v, c, strings, 0x06)
    &&& table_readable::<Param>(d, v, c, strings, 0x08)
    &&& table_readable::<InterfaceImpl>(d, v, c, strings, 0x09)
    &&& table_readable::<MemberRef>(d, v, c, strings, 0x0A)
    &&& table_readable::<Constant>(d, v, c, strings, 0x0B)
    &&& table_readable::<CustomAttribute>(d, v, c, strings, 0x0C)
    &&& table_readable::<DeclSecurity>(d, v, c, strings, 0x0E)
    &&& table_readable::<ClassLayout>(d, v, c, strings, 0x0F)
    &&& table_readable::<FieldLayout>(d, v, c, strings, 0x10)
    &&& table_readable::<StandAloneSig>(d, v, c, strings, 0x11)
    &&& table_readable::<PropertyMap>(d, v, c, strings, 0x15)
    &&& table_readable::<Property>(d, v, c, strings, 0x17)
    &&& table_readable::<MethodSemantics>(d, v, c, strings, 0x18)
    &&& table_readable::<MethodImpl>(d, v, c, strings, 0x19)
    &&& table_readable::<TypeSpec>(d, v, c, strings, 0x1B)
    &&& table_readable::<ImplMap>(d, v, c, strings, 0x1C)
    &&& table_readable::<FieldRva>(d, v, c, strings, 0x1D)
    &&& table_readable::<Assembly>(d, v, c, strings, 0x20)
    &&& table_readable::<AssemblyRef>(d, v, c, strings, 0x23)
    &&& table_readable::<NestedClass>(d, v, c, strings, 0x29)
    &&& table_readable::<GenericParam>(d, v, c, strings, 0x2A)
    &&& table_readable::<MethodSpec>(d, v, c, strings, 0x2B)
    &&& table_readable::<GenericParamConstraint>(d, v, c, strings, 0x2C)
}

/// Reads the rows of table `t`, which start at the reader's position.
fn read_table<R: TableRow>(rd: &mut ByteReader, strings: &StringHeap, h: &LogicalMetadataTables, t: u32) -> (r: Result<Vec<R>, Error>)
    requires
        h.rows_per_table@.len() == bits_below(h.valid, 64),
        t < 64,
        old(rd).pos == table_start(h.valid, h.rows_per_table@, t as int),
    ensures
        final(rd).data@ == old(rd).data@,
        r is Ok <==> table_readable::<R>(old(rd).data@, h.valid, h.rows_per_table@, strings.bytes(), t as int),
        r matches Ok(v) ==> table_rows_at::<R>(old(rd).data@, h.valid, h.rows_per_table@, strings.bytes(), t as int, v@)
            && final(rd).pos == table_start(h.valid, h.rows_per_table@, t as int)
                + table_count(h.valid, h.rows_per_table@, t as int) * R::size_spec(),
        r matches Err(e) ==> e == Error::Malformed,
{
    let n = table_rows(h, t);
    let r = read_rows(rd, strings, n);
    proof {
        reveal(table_readable);
        reveal(table_rows_at);
    }
    r
}

/// Reads the rows of every table that the header lists, from the table
/// stream `d`. Fails on a table that is not decoded here, on wide heap
/// indices, and on rows that are cut short or name missing strings.
pub fn read_tables(d: &[u8], h: &LogicalMetadataTables, strings: &StringHeap) -> (r: Result<Tables, Error>)
    requires
        h.rows_per_table@.len() == bits_below(h.valid, 64),
        d@.len() <= u32::MAX,
    ensures
        h.heap_sizes != 0 ==> r == Err::<Tables, Error>(Error::WideIndexUnsupported),
        h.heap_sizes == 0 ==> match table_check(h.valid, h.rows_per_table@, 0) {
            Some(e) => r == Err::<Tables, Error>(e),
            None => (r is Ok <==> rows_ok(d@, h.valid, h.rows_per_table@, strings.bytes()))
                && (r matches Err(e) ==> e == Error::Malformed),
        },
        r matches Ok(t) ==> tables_at(d@, h.valid, h.rows_per_table@, strings.bytes(), t),
{
    if h.heap_sizes != 0 {
        return Err(Error::WideIndexUnsupported);
    }
    match check_tables(h) {
        Ok(()) => {},
        Err(e) => return Err(e),
    }
    proof {
        lemma_bits_below_bound(h.valid, 64);
    }
    let start = 24 + 4 * h.rows_per_table.len();
    if start > d.len() {
        return Err(Error::Malformed);
    }
    let mut rd = ByteReader::new(d, start);
    proof {
        reveal_with_fuel(table_offset, 8);
    }
    assert(rd.pos == table_start(h.valid, h.rows_per_table@, 0x00));
    let modules: Vec<Module> = match read_table(&mut rd, strings, h, 0x00) {
        Ok(v) => v,
        Err(e) => return Err(e),
    };
    assert(rd.pos == table_start(h.valid, h.rows_per_table@, 0x01));
    let type_refs: Vec<TypeRef> = match read_table(&mut rd, strings, h, 0x01) {
        Ok(v) => v,
        Err(e) => return Err(e),
    };
    assert(rd.pos == table_start(h.valid, h.rows_per_table@, 0x02));
    let type_defs: Vec<TypeDef> = match read_table(&mut rd, strings, h, 0x02) {
        Ok(v) => v,
        Err(e) => return Err(e),
    };
    assert(rd.pos == table_start(h.valid, h.rows_per_table@, 0x04));
    let fields: Vec<Field> = match read_table(&mut rd, strings, h, 0x04) {
        Ok(v) => v,
        Err(e) => return Err(e),
    };
    assert(rd.pos == table_start(h.valid, h.rows_per_table@, 0x06));
    let methods: Vec<Method> = match read_table(&mut rd, strings, h, 0x06) {
        Ok(v) => v,
        Err(e) => return Err(e),
    };
    assert(rd.pos == table_start(h.valid, h.rows_per_table@, 0x08));
    let params: Vec<Param> = match read_table(&mut rd, strings, h, 0x08) {
        Ok(v) => v,
        Err(e) => return Err(e),
    };
    assert(rd.pos == table_start(h.valid, h.rows_per_table@, 0x09));
    let interface_impls: Vec<InterfaceImpl> = match read_table(&mut rd, strings, h, 0x09) {
        Ok(v) => v,
        Err(e) => return Err(e),
    };
    assert(rd.pos == table_start(h.valid, h.rows_per_table@, 0x0A));
    let member_refs: Vec<MemberRef> = match read_table(&mut rd, strings, h, 0x0A) {
        Ok(v) => v,
        Err(e) => return Err(e),
    };
    assert(rd.pos == table_start(h.valid, h.rows_per_table@, 0x0B));
    let constants: Vec<Constant> = match read_table(&mut rd, strings, h, 0x0B) {
        Ok(v) => v,
        Err(e) => return Err(e),
    };
    assert(rd.pos == table_start(h.valid, h.rows_per_table@, 0x0C));
    let custom_attributes: Vec<CustomAttribute> = match read_table(&mut rd, strings, h, 0x0C) {
        Ok(v) => v,
        Err(e) => return Err(e),
    };
    assert(rd.pos == table_start(h.valid, h.rows_per_table@, 0x0E));
    let decl_security: Vec<DeclSecurity> = match read_table(&mut rd, strings, h, 0x0E) {
        Ok(v) => v,
        Err(e) => return Err(e),
    };
    assert(rd.pos == table_start(h.valid, h.rows_per_table@, 0x0F));
    let class_layouts: Vec<ClassLayout> = match read_table(&mut rd, strings, h, 0x0F) {
        Ok(v) => v,
        Err(e) => return Err(e),
    };
    assert(rd.pos == table_start(h.valid, h.rows_per_table@, 0x10));
    let field_layouts: Vec<FieldLayout> = match read_table(&mut rd, strings, h, 0x10) {
        Ok(v) => v,
        Err(e) => return Err(e),
    };
    assert(rd.pos == table_start(h.valid, h.rows_per_table@, 0x11));
    let stand_alone_sigs: Vec<StandAloneSig> = match read_table(&mut rd, strings, h, 0x11) {
        Ok(v) => v,
        Err(e) => return Err(e),
    };
    assert(rd.pos == table_start(h.valid, h.rows_per_table@, 0x15));
    let property_maps: Vec<PropertyMap> = match read_table(&mut rd, strings, h, 0x15) {
        Ok(v) => v,
        Err(e) => return Err(e),
    };
    assert(rd.pos == table_start(h.valid, h.rows_per_table@, 0x17));
    let properties: Vec<Property> = match read_table(&mut rd, strings, h, 0x17) {
        Ok(v) => v,
        Err(e) => return Err(e),
    };
    assert(rd.pos == table_start(h.valid, h.rows_per_table@, 0x18));
    let method_semantics: Vec<MethodSemantics> = match read_table(&mut rd, strings, h, 0x18) {
        Ok(v) => v,
        Err(e) => return Err(e),
    };
    assert(rd.pos == table_start(h.valid, h.rows_per_table@, 0x19));
    let method_impls: Vec<MethodImpl> = match read_table(&mut rd, strings, h, 0x19) {
        Ok(v) => v,
        Err(e) => return Err(e),
    };
    assert(rd.pos == table_start(h.valid, h.rows_per_table@, 0x1B));
    let type_specs: Vec<TypeSpec> = match read_table(&mut rd, strings, h, 0x1B) {
        Ok(v) => v,
        Err(e) => return Err(e),
    };
    assert(rd.pos == table_start(h.valid, h.rows_per_table@, 0x1C));
    let impl_maps: Vec<ImplMap> = match read_table(&mut rd, strings, h, 0x1C) {
        Ok(v) => v,
        Err(e) => return Err(e),
    };
    assert(rd.pos == table_start(h.valid, h.rows_per_table@, 0x1D));
    let field_rvas: Vec<FieldRva> = match read_table(&mut rd, strings, h, 0x1D) {
        Ok(v) => v,
        Err(e) => return Err(e),
    };
    assert(rd.pos == table_start(h.valid, h.rows_per_table@, 0x20));
    let assemblies: Vec<Assembly> = match read_table(&mut rd, strings, h, 0x20) {
        Ok(v) => v,
        Err(e) => return Err(e),
    };
    assert(rd.pos == table_start(h.valid, h.rows_per_table@, 0x23));
    let assembly_refs: Vec<AssemblyRef> = match read_table(&mut rd, strings, h, 0x23) {
        Ok(v) => v,
        Err(e) => return Err(e),
    };
    assert(rd.pos == table_start(h.valid, h.rows_per_table@, 0x29));
    let nested_classes: Vec<NestedClass> = match read_table(&mut rd, strings, h, 0x29) {
        Ok(v) => v,
        Err(e) => return Err(e),
    };
    assert(rd.pos == table_start(h.valid, h.rows_per_table@, 0x2A));
    let generic_params: Vec<GenericParam> = match read_table(&mut rd, strings, h, 0x2A) {
        Ok(v) => v,
        Err(e) => return Err(e),
    };
    assert(rd.pos == table_start(h.valid, h.rows_per_table@, 0x2B));
    let method_specs: Vec<MethodSpec> = match read_table(&mut rd, strings, h, 0x2B) {
        Ok(v) => v,
        Err(e) => return Err(e),
    };
    assert(rd.pos == table_start(h.valid, h.rows_per_table@, 0x2C));
    let generic_param_constraints: Vec<GenericParamConstraint> = match read_table(&mut rd, strings, h, 0x2C) {
        Ok(v) => v,
        Err(e) => return Err(e),
    };
    proof {
        reveal(tables_at);
    }
    Ok(Tables { modules, type_refs, type_defs, fields, methods, params, interface_impls, member_refs, constants, custom_attributes, decl_security, class_layouts, field_layouts, stand_alone_sigs, property_maps, properties, method_semantics, method_impls, type_specs, impl_maps, field_rvas, assemblies, assembly_refs, nested_classes, generic_params, method_specs, generic_param_constraints })
}


/// Whether the tables of `img` are those of `t`, each method row beside its
/// body.
#[verifier::opaque]
pub open spec fn holds_tables(img: &CilImage, t: &Tables) -> bool {
    &&& img.modules == t.modules
    &&& img.type_refs == t.type_refs
    &&& img.type_defs == t.type_defs
    &&& img.fields == t.fields
    &&& img.params == t.params
    &&& img.interface_impls == t.interface_impls
    &&& img.member_refs == t.member_refs
    &&& img.constants == t.constants
    &&& img.custom_attributes == t.custom_attributes
    &&& img.decl_security == t.decl_security
    &&& img.class_layouts == t.class_layouts
    &&& img.field_layouts == t.field_layouts
    &&& img.stand_alone_sigs == t.stand_alone_sigs
    &&& img.property_maps == t.property_maps
    &&& img.properties == t.properties
    &&& img.method_semantics == t.method_semantics
    &&& img.method_impls == t.method_impls
    &&& img.type_specs == t.type_specs
    &&& img.impl_maps == t.impl_maps
    &&& img.field_rvas == t.field_rvas
    &&& img.assemblies == t.assemblies
    &&& img.assembly_refs == t.assembly_refs
    &&& img.nested_classes == t.nested_classes
    &&& img.generic_params == t.generic_params
    &&& img.method_specs == t.method_specs
    &&& img.generic_param_constraints == t.generic_param_constraints
    &&& img.method_defs@.len() == t.methods@.len()
    &&& forall|i: int| 0 <= i < t.methods@.len() ==> (#[trigger] img.method_defs@[i]).method == t.methods@[i]
}


/// A loaded CLI image. Row `i` of a table (1-based in tokens) is element
/// `i - 1` of its vector.
pub struct CilImage {
    /// The RVA at which the code section starts.
    pub code_base: u32,
    pub header: CliHeader,
    pub guids: Vec<Guid>,
    pub strings: StringHeap,
    pub user_strings: UserStringHeap,
    pub blobs: BlobHeap,
    pub modules: Vec<Module>,
    pub type_refs: Vec<TypeRef>,
    pub type_defs: Vec<TypeDef>,
    pub fields: Vec<Field>,
    pub params: Vec<Param>,
    pub interface_impls: Vec<InterfaceImpl>,
    pub member_refs: Vec<MemberRef>,
    pub constants: Vec<Constant>,
    pub custom_attributes: Vec<CustomAttribute>,
    pub decl_security: Vec<DeclSecurity>,
    pub class_layouts: Vec<ClassLayout>,
    pub field_layouts: Vec<FieldLayout>,
    pub stand_alone_sigs: Vec<StandAloneSig>,
    pub property_maps: Vec<PropertyMap>,
    pub properties: Vec<Property>,
    pub method_semantics: Vec<MethodSemantics>,
    pub method_impls: Vec<MethodImpl>,
    pub type_specs: Vec<TypeSpec>,
    pub impl_maps: Vec<ImplMap>,
    pub field_rvas: Vec<FieldRva>,
    pub assemblies: Vec<Assembly>,
    pub assembly_refs: Vec<AssemblyRef>,
    pub nested_classes: Vec<NestedClass>,
    pub generic_params: Vec<GenericParam>,
    pub method_specs: Vec<MethodSpec>,
    pub generic_param_constraints: Vec<GenericParamConstraint>,
    /// The `MethodDef` rows, each with its body.
    pub method_defs: Vec<MethodEntry>,
}

/// The bytes of the first stream called `name` in the directory `root`
/// that was read from the metadata root at `root_off`.
fn stream_data(text: &[u8], root_off: usize, root: &PhysicalMetadata, name: &str) -> (r: Result<Vec<u8>, Error>)
    requires
        root_off <= u32::MAX,
        root.streams@.len() == stream_count(text@, root_off as int),
        forall|j: int| 0 <= j < root.streams@.len() ==> stream_header_at(text@,
            stream_pos(text@, root_off as int, first_stream(text@, root_off as int), j as nat), #[trigger] root.streams@[j]),
    ensures
        match stream_bytes(text@, root_off as int, name@) {
            Some(b) => r matches Ok(v) && v@ == b,
            None => r == Err::<Vec<u8>, Error>(stream_error(text@, root_off as int, name@)),
        },
        r matches Ok(v) ==> v@.len() <= u32::MAX,
{
    let target = String::from_str(name);
    let mut i: usize = 0;
    while i < root.streams.len()
        invariant
            target@ == name@,
            root_off <= u32::MAX,
            i <= root.streams@.len(),
            root.streams@.len() == stream_count(text@, root_off as int),
            forall|j: int| 0 <= j < root.streams@.len() ==> stream_header_at(text@,
                stream_pos(text@, root_off as int, first_stream(text@, root_off as int), j as nat), #[trigger] root.streams@[j]),
            first_named(text@, root_off as int, name@, 0) == first_named(text@, root_off as int, name@, i as nat),
        decreases root.streams@.len() - i,
    {
        let h = &root.streams[i];
        if h.name == target {
            assert(stream_header_at(text@, stream_pos(text@, root_off as int, first_stream(text@, root_off as int), i as nat), root.streams@[i as int]));
            let start = root_off as u64 + h.offset as u64;
            let size = h.size as u64;
            if !(start <= text.len() as u64 && text.len() as u64 - start >= size) {
                return Err(Error::Malformed);
            }
            return Ok(copy_range(text, start as usize, (start + size) as usize));
        }
        assert(stream_header_at(text@, stream_pos(text@, root_off as int, first_stream(text@, root_off as int), i as nat), root.streams@[i as int]));
        i = i + 1;
    }
    Err(Error::MissingStream)
}

/// Why the table stream `ts` cannot be loaded with strings from a heap
/// holding `strings`, if it cannot.
pub open spec fn tables_error(ts: Seq<u8>, strings: Seq<u8>) -> Option<Error> {
    let v = le64(ts, 8) as u64;
    let c = header_counts(ts);
    if !header_readable(ts) {
        Some(Error::Malformed)
    } else if ts[6] != 0 {
        Some(Error::WideIndexUnsupported)
    } else {
        match table_check(v, c, 0) {
            Some(e) => Some(e),
            None => if rows_ok(ts, v, c, strings) {
                None
            } else {
                Some(Error::Malformed)
            },
        }
    }
}

/// The metadata root of a code section that starts at RVA `code_base` and
/// whose CLI header is at RVA `cli_rva`.
pub open spec fn root_of(code_base: u32, cli_rva: u32, text: Seq<u8>) -> int {
    le32(text, cli_rva - code_base + 8) - code_base
}

/// Why an image cannot be loaded from its code section, if it cannot: the
/// CLI header, the metadata root, the streams `#Strings`, `#GUID`, `#US`,
/// `#Blob` and `#~` in that order, then the tables.
pub open spec fn load_error(code_base: u32, cli_rva: u32, text: Seq<u8>) -> Option<Error> {
    let root = root_of(code_base, cli_rva, text);
    if cli_rva < code_base || !fits(text, cli_rva - code_base, 72) {
        Some(Error::Malformed)
    } else if le32(text, cli_rva - code_base + 8) < code_base || !root_readable(text, root) {
        Some(Error::Malformed)
    } else if stream_bytes(text, root, "#Strings"@) is None {
        Some(stream_error(text, root, "#Strings"@))
    } else if stream_bytes(text, root, "#GUID"@) is None {
        Some(stream_error(text, root, "#GUID"@))
    } else if stream_bytes(text, root, "#US"@) is None {
        Some(stream_error(text, root, "#US"@))
    } else if stream_bytes(text, root, "#Blob"@) is None {
        Some(stream_error(text, root, "#Blob"@))
    } else {
        match (stream_bytes(text, root, "#~"@), stream_bytes(text, root, "#Strings"@)) {
            (Some(ts), Some(strings)) => tables_error(ts, strings),
            _ => Some(stream_error(text, root, "#~"@)),
        }
    }
}

impl CilImage {
    /// Loads an image from the bytes of a PE file: `NotACliImage` where the
    /// container has no CLI header, else as `from_layout` on what it holds.
    pub fn read(data: &[u8]) -> (r: Result<CilImage, Error>)
        ensures
            pe_cli_layout(data@) is None ==> r == Err::<CilImage, Error>(Error::NotACliImage),
            pe_cli_layout(data@) matches Some((base, cli, text)) ==> if text.len() > u32::MAX {
                r == Err::<CilImage, Error>(Error::Malformed)
            } else {
                &&& r is Ok <==> load_error(base, cli, text) is None
                &&& r matches Err(e) ==> load_error(base, cli, text) == Some(e)
            },
            r matches Ok(img) ==> pe_cli_layout(data@) matches Some((base, cli, text))
                && img.code_base == base && CliHeader::at(text, cli - base, img.header),
    {
        match locate_cli(data) {
            Some(l) => {
                if l.text.len() > u32::MAX as usize {
                    return Err(Error::Malformed);
                }
                CilImage::from_layout(l.code_base, l.cli_rva, l.text)
            },
            None => Err(Error::NotACliImage),
        }
    }

    /// Loads an image from its code section: `text` holds the section that
    /// starts at RVA `code_base`, and the CLI header is at RVA `cli_rva`.
    /// Method bodies that cannot be read are kept as errors beside their rows.
    #[verifier::rlimit(60)]
    pub fn from_layout(code_base: u32, cli_rva: u32, text: Vec<u8>) -> (r: Result<CilImage, Error>)
        requires
            text@.len() <= u32::MAX,
        ensures
            r is Ok <==> load_error(code_base, cli_rva, text@) is None,
            r matches Err(e) ==> load_error(code_base, cli_rva, text@) == Some(e),
            r matches Ok(img) ==> {
                let root = root_of(code_base, cli_rva, text@);
                &&& img.code_base == code_base
                &&& CliHeader::at(text@, cli_rva - code_base, img.header)
                &&& stream_bytes(text@, root, "#Strings"@) == Some(img.strings.bytes())
                &&& stream_bytes(text@, root, "#US"@) == Some(img.user_strings.bytes())
                &&& stream_bytes(text@, root, "#Blob"@) == Some(img.blobs.bytes())
                &&& stream_bytes(text@, root, "#GUID"@) matches Some(g) && img.guids@.len() == g.len() / 16
                    && forall|i: int| 0 <= i < img.guids@.len() ==> crate::meta::guid_at(g, 16 * i, #[trigger] img.guids@[i])
                &&& stream_bytes(text@, root, "#~"@) matches Some(ts) && exists|t: Tables|
                    tables_at(ts, le64(ts, 8) as u64, header_counts(ts), img.strings.bytes(), t) && holds_tables(&img, &t)
                &&& forall|i: int| 0 <= i < img.method_defs@.len() ==> match (#[trigger] img.method_defs@[i]).body {
                    Ok(b) => img.method_defs@[i].method.flags.0 / 0x400 % 2 == 1 || body_at(text@, code_base, img.method_defs@[i].method.rva, b),
                    Err(e) => e == Error::Malformed,
                }
            },
    {
        if cli_rva < code_base {
            return Err(Error::Malformed);
        }
        let t = text.as_slice();
        let header = match CliHeader::read(t, (cli_rva - code_base) as usize) {
            Ok(h) => h,
            Err(e) => return Err(e),
        };
        if header.physical_metadata.rva < code_base {
            return Err(Error::Malformed);
        }
        let root_off = (header.physical_metadata.rva - code_base) as usize;
        let root = match PhysicalMetadata::read(t, root_off) {
            Ok(m) => m,
            Err(e) => return Err(e),
        };
        let strings = match stream_data(t, root_off, &root, "#Strings") {
            Ok(v) => StringHeap::new(v),
            Err(e) => return Err(e),
        };
        let guid_bytes = match stream_data(t, root_off, &root, "#GUID") {
            Ok(v) => v,
            Err(e) => return Err(e),
        };
        let guids = read_guids(guid_bytes.as_slice());
        let user_strings = match stream_data(t, root_off, &root, "#US") {
            Ok(v) => UserStringHeap::new(v),
            Err(e) => return Err(e),
        };
        let blobs = match stream_data(t, root_off, &root, "#Blob") {
            Ok(v) => BlobHeap::new(v),
            Err(e) => return Err(e),
        };
        let ts = match stream_data(t, root_off, &root, "#~") {
            Ok(v) => v,
            Err(e) => return Err(e),
        };
        let th = match LogicalMetadataTables::read(ts.as_slice()) {
            Ok(h) => h,
            Err(e) => return Err(e),
        };
        let mut tables = match read_tables(ts.as_slice(), &th, &strings) {
            Ok(tables) => tables,
            Err(e) => return Err(e),
        };
        let ghost loaded = tables;
        let mut methods: Vec<Method> = Vec::new();
        std::mem::swap(&mut methods, &mut tables.methods);
        let ghost all_methods = methods@;
        let mut method_defs: Vec<MethodEntry> = Vec::new();
        while methods.len() > 0
            invariant
                t@.len() <= u32::MAX,
                all_methods == loaded.methods@,
                method_defs@.len() + methods@.len() == all_methods.len(),
                methods@ == all_methods.subrange(method_defs@.len() as int, all_methods.len() as int),
                forall|i: int| 0 <= i < method_defs@.len() ==> (#[trigger] method_defs@[i]).method == all_methods[i],
                forall|i: int| 0 <= i < method_defs@.len() ==> match (#[trigger] method_defs@[i]).body {
                    Ok(b) => method_defs@[i].method.flags.0 / 0x400 % 2 == 1 || body_at(t@, code_base, method_defs@[i].method.rva, b),
                    Err(e) => e == Error::Malformed,
                },
            decreases methods@.len(),
        {
            let ghost done = method_defs@.len() as int;
            let method = methods.remove(0);
            let body = MethodBody::read(t, code_base, &method);
            method_defs.push(MethodEntry { method, body });
            assert(methods@ =~= all_methods.subrange(done + 1, all_methods.len() as int));
        }
        let img = CilImage {
            code_base,
            header,
            guids,
            strings,
            user_strings,
            blobs,
            modules: tables.modules,
            type_refs: tables.type_refs,
            type_defs: tables.type_defs,
            fields: tables.fields,
            params: tables.params,
            interface_impls: tables.interface_impls,
            member_refs: tables.member_refs,
            constants: tables.constants,
            custom_attributes: tables.custom_attributes,
            decl_security: tables.decl_security,
            class_layouts: tables.class_layouts,
            field_layouts: tables.field_layouts,
            stand_alone_sigs: tables.stand_alone_sigs,
            property_maps: tables.property_maps,
            properties: tables.properties,
            method_semantics: tables.method_semantics,
            method_impls: tables.method_impls,
            type_specs: tables.type_specs,
            impl_maps: tables.impl_maps,
            field_rvas: tables.field_rvas,
            assemblies: tables.assemblies,
            assembly_refs: tables.assembly_refs,
            nested_classes: tables.nested_classes,
            generic_params: tables.generic_params,
            method_specs: tables.method_specs,
            generic_param_constraints: tables.generic_param_constraints,
            method_defs,
        };
        proof {
            assert(holds_tables(&img, &loaded)) by {
                reveal(holds_tables);
            }
            assert(tables_at(ts@, th.valid, th.rows_per_table@, img.strings.bytes(), loaded) && holds_tables(&img, &loaded));
        }
        Ok(img)
    }
}


/// `s` with every `.` written as `::`.
pub open spec fn colon_path(s: Seq<char>) -> Seq<char>
    decreases s.len(),
{
    if s.len() == 0 {
        seq![]
    } else {
        colon_path(s.drop_last()) + if s.last() == '.' {
            seq![':', ':']
        } else {
            seq![s.last()]
        }
    }
}

/// `s` with every `.` written as `::`.
pub(crate) fn dots_to_colons(s: &str) -> (r: String)
    ensures
        r@ == colon_path(s@),
{
    let n = s.unicode_len();
    let mut r = String::new();
    let mut i: usize = 0;
    while i < n
        invariant
            n == s@.len(),
            i <= n,
            r@ == colon_path(s@.subrange(0, i as int)),
        decreases n - i,
    {
        let ghost before = r@;
        if s.get_char(i) == '.' {
            r.append("::");
            proof {
                reveal_strlit("::");
            }
        } else {
            r.append(s.substring_char(i, i + 1));
        }
        proof {
            let next = s@.subrange(0, i + 1);
            assert(next.drop_last() =~= s@.subrange(0, i as int));
            assert(next.last() == s@[i as int]);
            assert(r@ =~= colon_path(next));
        }
        i = i + 1;
    }
    assert(s@.subrange(0, n as int) =~= s@);
    r
}

/// A type's dotted name: the name alone in the global namespace.
pub open spec fn dotted_name(namespace: Seq<char>, name: Seq<char>) -> Seq<char> {
    if namespace.len() == 0 {
        name
    } else {
        namespace + seq!['.'] + name
    }
}

impl TypeName {
    /// The dotted name, `Namespace.Name`.
    pub fn full_name(&self) -> (r: String)
        ensures
            r@ == dotted_name(self.namespace@, self.name@),
    {
        if self.namespace.as_str().is_empty() {
            self.name.clone()
        } else {
            let mut s = self.namespace.clone();
            s.append(".");
            s.append(self.name.as_str());
            proof {
                reveal_strlit(".");
                assert(s@ =~= self.namespace@ + seq!['.'] + self.name@);
            }
            s
        }
    }

    /// The name as a C++ path: `Namespace::Name`.
    pub fn path_cxx(&self) -> (r: String)
        ensures
            r@ == colon_path(dotted_name(self.namespace@, self.name@)),
    {
        dots_to_colons(self.full_name().as_str())
    }
}

/// The namespace and name of the type that a member's parent names, where it
/// is a row of `TypeDef` or `TypeRef`.
pub open spec fn parent_type_name(img: &CilImage, p: MemberRefParent) -> Option<(Seq<char>, Seq<char>)> {
    match p {
        MemberRefParent::TypeDef(i) => if 1 <= i <= img.type_defs@.len() {
            Some((img.type_defs@[i - 1].namespace@, img.type_defs@[i - 1].name@))
        } else {
            None
        },
        MemberRefParent::TypeRef(i) => if 1 <= i <= img.type_refs@.len() {
            Some((img.type_refs@[i - 1].namespace@, img.type_refs@[i - 1].name@))
        } else {
            None
        },
        _ => None,
    }
}

/// The method signature in the blob at `index`, where it parses.
pub open spec fn blob_signature(img: &CilImage, index: u16) -> Option<SignatureModel> {
    match blob_range(img.blobs.bytes(), index as int) {
        Some((s, e)) => match parse_signature(img.blobs.bytes().subrange(s, e), 0) {
            Ok((m, _)) => Some(m),
            Err(_) => None,
        },
        None => None,
    }
}

/// What a method token names: its type's namespace and name, the method's
/// name and its signature. A `MemberRef` names its parent type; a
/// `MethodDef` gets the type `this`.
pub open spec fn callee_of(img: &CilImage, token: Token) -> Option<(Seq<char>, Seq<char>, Seq<char>, SignatureModel)> {
    let i = token_index(token.0) as int;
    if token_tag(token.0) == 0x0A {
        if 1 <= i <= img.member_refs@.len() {
            let row = img.member_refs@[i - 1];
            match (blob_signature(img, row.signature_blob_index), MemberRefParent::decode_spec(row.class_index as u32)) {
                (Some(sig), Some(p)) => match parent_type_name(img, p) {
                    Some((ns, name)) => Some((ns, name, row.name@, sig)),
                    None => None,
                },
                _ => None,
            }
        } else {
            None
        }
    } else if token_tag(token.0) == 0x06 {
        if 1 <= i <= img.method_defs@.len() {
            let row = img.method_defs@[i - 1].method;
            match blob_signature(img, row.signature_blob_index) {
                Some(sig) => Some((seq![], "this"@, row.name@, sig)),
                None => None,
            }
        } else {
            None
        }
    } else {
        None
    }
}

impl CilImage {
    /// Parses the method signature in the blob at `index`.
    fn parse_method_signature(&self, index: u16) -> (r: Option<StandaloneMethodSignature>)
        ensures
            r is Some <==> blob_signature(self, index) is Some,
            r matches Some(s) ==> blob_signature(self, index) == Some(s.model()),
    {
        let blob = self.blobs.get(index as u32)?;
        match StandaloneMethodSignature::parse(blob) {
            Ok(s) => Some(s),
            Err(_) => None,
        }
    }

    /// The name of the type that a coded `MemberRefParent` names: `Err` for
    /// an invalid tag, `None` where it names no `TypeDef` or `TypeRef` row.
    pub fn class_name(&self, index: u16) -> (r: Result<Option<TypeName>, Error>)
        ensures
            MemberRefParent::decode_spec(index as u32) is None <==> r is Err,
            r matches Err(e) ==> e == Error::Malformed,
            MemberRefParent::decode_spec(index as u32) matches Some(p) ==> match r {
                Ok(Some(t)) => parent_type_name(self, p) == Some((t.namespace@, t.name@)),
                Ok(None) => parent_type_name(self, p) is None,
                Err(_) => false,
            },
    {
        let p = match MemberRefParent::decode(index as u32) {
            Some(p) => p,
            None => return Err(Error::Malformed),
        };
        let row = match p {
            MemberRefParent::TypeDef(i) => {
                if i >= 1 && (i as usize) <= self.type_defs.len() {
                    let td = &self.type_defs[i as usize - 1];
                    Some(TypeName { namespace: td.namespace.clone(), name: td.name.clone() })
                } else {
                    None
                }
            },
            MemberRefParent::TypeRef(i) => {
                if i >= 1 && (i as usize) <= self.type_refs.len() {
                    let tr = &self.type_refs[i as usize - 1];
                    Some(TypeName { namespace: tr.namespace.clone(), name: tr.name.clone() })
                } else {
                    None
                }
            },
            _ => None,
        };
        Ok(row)
    }

    /// Resolves a `MemberRef` or `MethodDef` token to the type, name and
    /// signature of the method it names. A `MethodDef` gets the type `this`.
    /// `None` for other kinds, rows out of range, signatures that do not
    /// parse and parents that name no type.
    pub fn resolve_method(&self, token: Token) -> (r: Option<(TypeName, String, StandaloneMethodSignature)>)
        ensures
            match callee_of(self, token) {
                Some((ns, n, m, sig)) => r matches Some((t, mm, s)) && t.namespace@ == ns && t.name@ == n
                    && mm@ == m && s.model() == sig,
                None => r is None,
            },
    {
        let kind = token.kind_raw();
        let i = token.index() as usize;
        if kind == 0x0A {
            if i < 1 || i > self.member_refs.len() {
                return None;
            }
            let row = &self.member_refs[i - 1];
            let sig = self.parse_method_signature(row.signature_blob_index)?;
            let t = match self.class_name(row.class_index) {
                Ok(Some(t)) => t,
                _ => return None,
            };
            Some((t, row.name.clone(), sig))
        } else if kind == 0x06 {
            if i < 1 || i > self.method_defs.len() {
                return None;
            }
            let row = &self.method_defs[i - 1].method;
            let sig = self.parse_method_signature(row.signature_blob_index)?;
            Some((TypeName { namespace: String::new(), name: String::from_str("this") }, row.name.clone(), sig))
        } else {
            None
        }
    }
}

/// `s` without a leading `.`.
pub open spec fn strip_leading_dot(s: Seq<char>) -> Seq<char> {
    if s.len() > 0 && s[0] == '.' {
        s.subrange(1, s.len() as int)
    } else {
        s
    }
}

/// The `Namespace.Name` of the row that a type reference names; `None` for
/// a `TypeSpec` or a row out of range.
pub open spec fn type_text(img: &CilImage, t: TypeDefOrRef) -> Option<Seq<char>> {
    match t {
        TypeDefOrRef::TypeDef(i) => if 1 <= i <= img.type_defs@.len() {
            Some(strip_leading_dot(img.type_defs@[i - 1].namespace@ + "."@ + img.type_defs@[i - 1].name@))
        } else {
            None
        },
        TypeDefOrRef::TypeRef(i) => if 1 <= i <= img.type_refs@.len() {
            Some(strip_leading_dot(img.type_refs@[i - 1].namespace@ + "."@ + img.type_refs@[i - 1].name@))
        } else {
            None
        },
        TypeDefOrRef::TypeSpec(_) => None,
    }
}

/// `namespace.name`, without a leading `.`.
fn joined_name(namespace: &String, name: &String) -> (r: String)
    ensures
        r@ == strip_leading_dot(namespace@ + "."@ + name@),
{
    let mut s = namespace.clone();
    s.append(".");
    s.append(name.as_str());
    proof {
        reveal_strlit(".");
    }
    let n = s.as_str().unicode_len();
    if n > 0 && s.as_str().get_char(0) == '.' {
        String::from_str(s.as_str().substring_char(1, n))
    } else {
        s
    }
}

impl TypeDefOrRef {
    /// The `Namespace.Name` of the type, where the image holds its row.
    pub fn name_with_namespace(&self, image: &CilImage) -> (r: Option<String>)
        ensures
            match type_text(image, *self) {
                Some(t) => r matches Some(s) && s@ == t,
                None => r is None,
            },
    {
        match self {
            TypeDefOrRef::TypeDef(i) => {
                if *i >= 1 && (*i as usize) <= image.type_defs.len() {
                    let row = &image.type_defs[*i as usize - 1];
                    Some(joined_name(&row.namespace, &row.name))
                } else {
                    None
                }
            },
            TypeDefOrRef::TypeRef(i) => {
                if *i >= 1 && (*i as usize) <= image.type_refs.len() {
                    let row = &image.type_refs[*i as usize - 1];
                    Some(joined_name(&row.namespace, &row.name))
                } else {
                    None
                }
            },
            TypeDefOrRef::TypeSpec(_) => None,
        }
    }
}

} // verus!
