//! Metadata tokens, heap indices and GUIDs.

use vstd::prelude::*;

use vstd::utf8::{decode_utf8, valid_utf8};

use crate::bytes::{copy_range, le16, le32, le64, ByteReader, fits};
use crate::error::Error;
use crate::strings::{cstr_end, string_from_utf8};
use crate::text::{cased_padded_numeral, cased_padded_numeral_string, numeral, numeral_string};

verus! {

/// A metadata token: the table in the top byte, a 1-based row in the low 24
/// bits (row 0 refers to nothing).
#[derive(Debug, Clone, Copy, PartialEq, Eq, Structural)]
pub struct Token(pub u32);

/// The row index of a token value.
pub open spec fn token_index(t: u32) -> u32 {
    t % 0x100_0000
}

/// The table byte of a token value.
pub open spec fn token_tag(t: u32) -> u8 {
    (t / 0x100_0000) as u8
}

impl Token {
    /// The low 24 bits: the 1-based row.
    pub fn index(&self) -> (r: u32)
        ensures
            r == token_index(self.0),
    {
        self.0 % 0x100_0000
    }

    /// The top byte: the table tag.
    pub fn kind_raw(&self) -> (r: u8)
        ensures
            r == token_tag(self.0),
    {
        (self.0 / 0x100_0000) as u8
    }

    /// The table that the top byte names, `Unknown` where it names none.
    pub fn kind(&self) -> (r: TokenKind)
        ensures
            r == TokenKind::from_tag_spec(token_tag(self.0)),
    {
        TokenKind::from_tag(self.kind_raw())
    }
}

/// A token's top byte and low 24 bits are all there is of it: the value is
/// the tag times `2^24` plus the index, and the index is under `2^24`.
pub proof fn lemma_token_parts(t: u32)
    ensures
        t == token_tag(t) as int * 0x100_0000 + token_index(t) as int,
        token_index(t) < 0x100_0000,
        token_tag(t) as int == t as int / 0x100_0000,
{
    assert(t as int / 0x100_0000 < 0x100) by (nonlinear_arith) requires t <= 0xFFFF_FFFFu32;
    assert(t == (t / 0x100_0000) * 0x100_0000 + t % 0x100_0000) by (nonlinear_arith);
}

/// The metadata tables (and the user-string heap) that a token can name.
#[derive(Debug, Clone, Copy, PartialEq, Eq, Structural)]
pub enum TokenKind {
    Unknown,
    UserString,
    Assembly,
    AssemblyOS,
    AssemblyProcessor,
    AssemblyRef,
    AssemblyRefOS,
    AssemblyRefProcessor,
    ClassLayout,
    Constant,
    CustomAttribute,
    DeclSecurity,
    EventMap,
    Event,
    ExportedType,
    Field,
    FieldLayout,
    FieldMarshal,
    FieldRVA,
    File,
    GenericParam,
    GenericParamConstraint,
    ImplMap,
    InterfaceImpl,
    ManifestResource,
    MemberRef,
    MethodDef,
    MethodImpl,
    MethodSemantics,
    MethodSpec,
    Module,
    ModuleRef,
    NestedClass,
    Param,
    Property,
    PropertyMap,
    StandAloneSig,
    TypeDef,
    TypeRef,
    TypeSpec,
}

impl TokenKind {
    /// The tag byte of each kind; `Unknown` is `0xFF`.
    pub open spec fn tag_spec(self) -> u8 {
        match self {
            TokenKind::Unknown => 0xFF,
            TokenKind::UserString => 0x70,
            TokenKind::Assembly => 0x20,
            TokenKind::AssemblyOS => 0x22,
            TokenKind::AssemblyProcessor => 0x21,
            TokenKind::AssemblyRef => 0x23,
            TokenKind::AssemblyRefOS => 0x25,
            TokenKind::AssemblyRefProcessor => 0x24,
            TokenKind::ClassLayout => 0x0F,
            TokenKind::Constant => 0x0B,
            TokenKind::CustomAttribute => 0x0C,
            TokenKind::DeclSecurity => 0x0E,
            TokenKind::EventMap => 0x12,
            TokenKind::Event => 0x14,
            TokenKind::ExportedType => 0x27,
            TokenKind::Field => 0x04,
            TokenKind::FieldLayout => 0x10,
            TokenKind::FieldMarshal => 0x0D,
            TokenKind::FieldRVA => 0x1D,
            TokenKind::File => 0x26,
            TokenKind::GenericParam => 0x2A,
            TokenKind::GenericParamConstraint => 0x2C,
            TokenKind::ImplMap => 0x1C,
            TokenKind::InterfaceImpl => 0x09,
            TokenKind::ManifestResource => 0x28,
            TokenKind::MemberRef => 0x0A,
            TokenKind::MethodDef => 0x06,
            TokenKind::MethodImpl => 0x19,
            TokenKind::MethodSemantics => 0x18,
            TokenKind::MethodSpec => 0x2B,
            TokenKind::Module => 0x00,
            TokenKind::ModuleRef => 0x1A,
            TokenKind::NestedClass => 0x29,
            TokenKind::Param => 0x08,
            TokenKind::Property => 0x17,
            TokenKind::PropertyMap => 0x15,
            TokenKind::StandAloneSig => 0x11,
            TokenKind::TypeDef => 0x02,
            TokenKind::TypeRef => 0x01,
            TokenKind::TypeSpec => 0x1B,
        }
    }

    /// The kind whose tag is `b`, or `Unknown`.
    pub open spec fn from_tag_spec(b: u8) -> TokenKind {
        if exists|k: TokenKind| k != TokenKind::Unknown && k.tag_spec() == b {
            choose|k: TokenKind| k != TokenKind::Unknown && k.tag_spec() == b
        } else {
            TokenKind::Unknown
        }
    }

    /// The tag byte of this kind.
    pub fn tag(&self) -> (r: u8)
        ensures
            r == self.tag_spec(),
    {
        match self {
            TokenKind::Unknown => 0xFF,
            TokenKind::UserString => 0x70,
            TokenKind::Assembly => 0x20,
            TokenKind::AssemblyOS => 0x22,
            TokenKind::AssemblyProcessor => 0x21,
            TokenKind::AssemblyRef => 0x23,
            TokenKind::AssemblyRefOS => 0x25,
            TokenKind::AssemblyRefProcessor => 0x24,
            TokenKind::ClassLayout => 0x0F,
            TokenKind::Constant => 0x0B,
            TokenKind::CustomAttribute => 0x0C,
            TokenKind::DeclSecurity => 0x0E,
            TokenKind::EventMap => 0x12,
            TokenKind::Event => 0x14,
            TokenKind::ExportedType => 0x27,
            TokenKind::Field => 0x04,
            TokenKind::FieldLayout => 0x10,
            TokenKind::FieldMarshal => 0x0D,
            TokenKind::FieldRVA => 0x1D,
            TokenKind::File => 0x26,
            TokenKind::GenericParam => 0x2A,
            TokenKind::GenericParamConstraint => 0x2C,
            TokenKind::ImplMap => 0x1C,
            TokenKind::InterfaceImpl => 0x09,
            TokenKind::ManifestResource => 0x28,
            TokenKind::MemberRef => 0x0A,
            TokenKind::MethodDef => 0x06,
            TokenKind::MethodImpl => 0x19,
            TokenKind::MethodSemantics => 0x18,
            TokenKind::MethodSpec => 0x2B,
            TokenKind::Module => 0x00,
            TokenKind::ModuleRef => 0x1A,
            TokenKind::NestedClass => 0x29,
            TokenKind::Param => 0x08,
            TokenKind::Property => 0x17,
            TokenKind::PropertyMap => 0x15,
            TokenKind::StandAloneSig => 0x11,
            TokenKind::TypeDef => 0x02,
            TokenKind::TypeRef => 0x01,
            TokenKind::TypeSpec => 0x1B,
        }
    }

    /// The kind whose tag is `b`; `Unknown` where no kind has that tag.
    pub fn from_tag(b: u8) -> (r: TokenKind)
        ensures
            r == TokenKind::from_tag_spec(b),
            r != TokenKind::Unknown ==> r.tag_spec() == b,
    {
        let r = match b {
            0x70 => TokenKind::UserString,
            0x20 => TokenKind::Assembly,
            0x22 => TokenKind::AssemblyOS,
            0x21 => TokenKind::AssemblyProcessor,
            0x23 => TokenKind::AssemblyRef,
            0x25 => TokenKind::AssemblyRefOS,
            0x24 => TokenKind::AssemblyRefProcessor,
            0x0F => TokenKind::ClassLayout,
            0x0B => TokenKind::Constant,
            0x0C => TokenKind::CustomAttribute,
            0x0E => TokenKind::DeclSecurity,
            0x12 => TokenKind::EventMap,
            0x14 => TokenKind::Event,
            0x27 => TokenKind::ExportedType,
            0x04 => TokenKind::Field,
            0x10 => TokenKind::FieldLayout,
            0x0D => TokenKind::FieldMarshal,
            0x1D => TokenKind::FieldRVA,
            0x26 => TokenKind::File,
            0x2A => TokenKind::GenericParam,
            0x2C => TokenKind::GenericParamConstraint,
            0x1C => TokenKind::ImplMap,
            0x09 => TokenKind::InterfaceImpl,
            0x28 => TokenKind::ManifestResource,
            0x0A => TokenKind::MemberRef,
            0x06 => TokenKind::MethodDef,
            0x19 => TokenKind::MethodImpl,
            0x18 => TokenKind::MethodSemantics,
            0x2B => TokenKind::MethodSpec,
            0x00 => TokenKind::Module,
            0x1A => TokenKind::ModuleRef,
            0x29 => TokenKind::NestedClass,
            0x08 => TokenKind::Param,
            0x17 => TokenKind::Property,
            0x15 => TokenKind::PropertyMap,
            0x11 => TokenKind::StandAloneSig,
            0x02 => TokenKind::TypeDef,
            0x01 => TokenKind::TypeRef,
            0x1B => TokenKind::TypeSpec,
            _ => TokenKind::Unknown,
        };
        proof {
            lemma_tag_injective();
            if r == TokenKind::Unknown {
                assert(forall|k: TokenKind| k != TokenKind::Unknown ==> k.tag_spec() != b);
            } else {
                assert(r.tag_spec() == b);
            }
        }
        r
    }
}

/// No two kinds share a tag byte.
pub proof fn lemma_tag_injective()
    ensures
        forall|a: TokenKind, b: TokenKind| a.tag_spec() == b.tag_spec() ==> a == b,
{
}

/// An index into the string heap.
#[derive(Debug, Clone, Copy, PartialEq, Eq, Structural)]
pub struct StringIndex(pub u16);

/// A 1-based index into the GUID heap.
#[derive(Debug, Clone, Copy, PartialEq, Eq, Structural)]
pub struct GuidIndex(pub u16);

/// A GUID as it is stored: three little-endian integers and eight bytes.
#[derive(Debug, Clone, Copy, PartialEq, Eq)]
pub struct Guid {
    pub data1: u32,
    pub data2: u16,
    pub data3: u16,
    pub data4: [u8; 8],
}

/// Whether `g` is the GUID stored in the 16 bytes at `p`.
pub open spec fn guid_at(d: Seq<u8>, p: int, g: Guid) -> bool {
    &&& g.data1 as int == le32(d, p)
    &&& g.data2 as int == le16(d, p + 4)
    &&& g.data3 as int == le16(d, p + 6)
    &&& g.data4@ == d.subrange(p + 8, p + 16)
}

impl Guid {
    /// Reads a GUID from the 16 bytes at the reader's position.
    pub fn read(r: &mut ByteReader) -> (g: Option<Guid>)
        ensures
            final(r).data@ == old(r).data@,
            fits(old(r).data@, old(r).pos as int, 16) ==> (g matches Some(g) && guid_at(old(r).data@, old(r).pos as int, g)
                && final(r).pos == old(r).pos + 16),
            !fits(old(r).data@, old(r).pos as int, 16) ==> g is None,
    {
        if r.pos > r.data.len() || r.data.len() - r.pos < 16 {
            return None;
        }
        let p = r.pos;
        let data1 = r.u32().unwrap();
        let data2 = r.u16().unwrap();
        let data3 = r.u16().unwrap();
        let mut data4 = [0u8; 8];
        let mut i: usize = 0;
        while i < 8
            invariant
                r.data@ == old(r).data@,
                r.pos == p + 8 + i,
                p + 16 <= r.data@.len(),
                0 <= i <= 8,
                forall|j: int| 0 <= j < i ==> data4@[j] == r.data@[p + 8 + j],
            decreases 8 - i,
        {
            data4[i] = r.u8().unwrap();
            i = i + 1;
        }
        let g = Guid { data1, data2, data3, data4 };
        assert(g.data4@ =~= old(r).data@.subrange(p + 8, p + 16));
        Some(g)
    }
}

/// What `String::from_utf8_lossy` makes of a byte sequence.
pub uninterp spec fn utf8_lossy(b: Seq<u8>) -> Seq<char>;

/// Relies on `String::from_utf8_lossy`: the characters depend on the bytes
/// alone, and valid UTF-8 decodes as it is.
#[verifier::external_body]
fn string_from_utf8_lossy(b: &[u8]) -> (r: String)
    ensures
        r@ == utf8_lossy(b@),
        valid_utf8(b@) ==> r@ == decode_utf8(b@),
{
    String::from_utf8_lossy(b).into_owned()
}

/// The magic number that starts the metadata root, `BSJB`.
pub const METADATA_MAGIC: u32 = 0x424A_5342;

/// `n` rounded up to a multiple of 4.
pub open spec fn align4(n: int) -> int {
    ((n + 3) / 4) * 4
}

/// The length of `b` once its trailing zero bytes are dropped.
pub open spec fn trimmed_len(b: Seq<u8>, n: int) -> int
    decreases n,
{
    if n <= 0 || n > b.len() {
        0
    } else if b[n - 1] == 0 {
        trimmed_len(b, n - 1)
    } else {
        n
    }
}

/// One entry of the stream directory: where a stream lies relative to the
/// metadata root, how long it is, and its name.
#[derive(Debug)]
pub struct StreamHeader {
    pub offset: u32,
    pub size: u32,
    pub name: String,
}

/// Whether a whole stream header is encoded at `p`: offset and size, and a
/// name in UTF-8 that a NUL ends.
pub open spec fn stream_header_readable(d: Seq<u8>, p: int) -> bool {
    &&& fits(d, p, 8)
    &&& cstr_end(d, p + 8) < d.len()
    &&& valid_utf8(d.subrange(p + 8, cstr_end(d, p + 8)))
}

/// Whether `h` is the stream header encoded at `p`.
pub open spec fn stream_header_at(d: Seq<u8>, p: int, h: StreamHeader) -> bool {
    &&& stream_header_readable(d, p)
    &&& h.offset as int == le32(d, p)
    &&& h.size as int == le32(d, p + 4)
    &&& h.name@ == decode_utf8(d.subrange(p + 8, cstr_end(d, p + 8)))
}

/// Where the header at `p` ends: after the name's NUL, padded to a multiple
/// of 4 counted from the metadata root at `root`.
pub open spec fn stream_header_end(d: Seq<u8>, root: int, p: int) -> int {
    root + align4(cstr_end(d, p + 8) + 1 - root)
}

/// Where the `i`-th stream header starts, the first being at `first`.
pub open spec fn stream_pos(d: Seq<u8>, root: int, first: int, i: nat) -> int
    decreases i,
{
    if i == 0 {
        first
    } else {
        stream_header_end(d, root, stream_pos(d, root, first, (i - 1) as nat))
    }
}

/// The metadata root: version information and the stream directory.
#[derive(Debug)]
pub struct PhysicalMetadata {
    pub major_version: u16,
    pub minor_version: u16,
    pub reserved: u32,
    /// The runtime version the image was built for, without its NUL padding.
    pub version: String,
    /// Reserved, always 0.
    pub flags: u16,
    pub streams: Vec<StreamHeader>,
}

/// The length of the version string of the root at `root`.
pub open spec fn version_len(d: Seq<u8>, root: int) -> int {
    le32(d, root + 12)
}

/// Where the stream directory of the root at `root` starts.
pub open spec fn first_stream(d: Seq<u8>, root: int) -> int {
    root + 16 + align4(version_len(d, root)) + 4
}

/// The number of streams of the root at `root`.
pub open spec fn stream_count(d: Seq<u8>, root: int) -> int {
    le16(d, root + 16 + align4(version_len(d, root)) + 2)
}

/// Whether a whole metadata root is encoded at `root`.
pub open spec fn root_readable(d: Seq<u8>, root: int) -> bool {
    &&& fits(d, root, 16)
    &&& le32(d, root) == METADATA_MAGIC
    &&& fits(d, root + 16, align4(version_len(d, root)) + 4)
    &&& forall|i: nat| i < stream_count(d, root) ==> stream_header_readable(d, #[trigger] stream_pos(d, root, first_stream(d, root), i))
}

/// The name of the `i`-th stream header of the metadata root at `root`.
pub open spec fn stream_name(d: Seq<u8>, root: int, i: nat) -> Seq<char> {
    let p = stream_pos(d, root, first_stream(d, root), i);
    decode_utf8(d.subrange(p + 8, cstr_end(d, p + 8)))
}

/// The index of the first stream header called `name`, searching from `i`.
pub open spec fn first_named(d: Seq<u8>, root: int, name: Seq<char>, i: nat) -> Option<nat>
    decreases stream_count(d, root) - i,
{
    if i >= stream_count(d, root) {
        None
    } else if stream_name(d, root, i) == name {
        Some(i)
    } else {
        first_named(d, root, name, i + 1)
    }
}

/// The bytes of the first stream called `name` in the directory of the
/// metadata root at `root`, where they lie within `d`.
pub open spec fn stream_bytes(d: Seq<u8>, root: int, name: Seq<char>) -> Option<Seq<u8>> {
    match first_named(d, root, name, 0) {
        Some(i) => {
            let p = stream_pos(d, root, first_stream(d, root), i);
            let s = root + le32(d, p);
            let e = s + le32(d, p + 4);
            if e <= d.len() {
                Some(d.subrange(s, e))
            } else {
                None
            }
        },
        None => None,
    }
}

/// Why the stream called `name` cannot be had: absent from the directory,
/// or lying outside `d`.
pub open spec fn stream_error(d: Seq<u8>, root: int, name: Seq<char>) -> Error {
    if first_named(d, root, name, 0) is None {
        Error::MissingStream
    } else {
        Error::Malformed
    }
}

impl PhysicalMetadata {
    /// Reads the metadata root at `root`; `Malformed` on a bad magic or a
    /// record that is cut short.
    pub fn read(d: &[u8], root: usize) -> (r: Result<PhysicalMetadata, Error>)
        requires
            d@.len() <= u32::MAX,
        ensures
            r is Ok <==> root_readable(d@, root as int),
            r matches Err(e) ==> e == Error::Malformed,
            r matches Ok(m) ==> {
                &&& m.major_version as int == le16(d@, root + 4)
                &&& m.minor_version as int == le16(d@, root + 6)
                &&& m.reserved as int == le32(d@, root + 8)
                &&& m.version@ == utf8_lossy(d@.subrange(root + 16, root + 16 + trimmed_len(
                    d@.subrange(root + 16, root + 16 + version_len(d@, root as int)),
                    version_len(d@, root as int),
                )))
                &&& m.flags as int == le16(d@, root + 16 + align4(version_len(d@, root as int)))
                &&& m.streams@.len() == stream_count(d@, root as int)
                &&& forall|i: int| 0 <= i < m.streams@.len() ==> stream_header_at(d@,
                    stream_pos(d@, root as int, first_stream(d@, root as int), i as nat), #[trigger] m.streams@[i])
            },
    {
        if !(root <= d.len() && d.len() - root >= 16) {
            return Err(Error::Malformed);
        }
        let mut r = ByteReader::new(d, root);
        let magic = r.u32().unwrap();
        if magic != METADATA_MAGIC {
            return Err(Error::Malformed);
        }
        let major_version = r.u16().unwrap();
        let minor_version = r.u16().unwrap();
        let reserved = r.u32().unwrap();
        let len64 = r.u32().unwrap() as u64;
        let padded64 = (len64 + 3) / 4 * 4;
        assert(len64 <= padded64 <= len64 + 3) by (nonlinear_arith)
            requires
                padded64 == (len64 + 3) / 4 * 4,
        ;
        let avail = (d.len() - r.pos) as u64;
        if !(avail >= padded64 && avail - padded64 >= 4) {
            return Err(Error::Malformed);
        }
        let len = len64 as usize;
        let padded = padded64 as usize;
        let vstart = r.pos;
        let mut end = vstart + len;
        while end > vstart
            invariant
                vstart == root + 16,
                vstart <= end <= vstart + len,
                vstart + len <= d@.len(),
                trimmed_len(d@.subrange(vstart as int, vstart + len), len as int)
                    == trimmed_len(d@.subrange(vstart as int, vstart + len), end - vstart),
            ensures
                end == vstart || d@[end - 1] != 0,
            decreases end,
        {
            if d[end - 1] != 0 {
                break;
            }
            end = end - 1;
        }
        let n = end - vstart;
        proof {
            let sub = d@.subrange(vstart as int, vstart + len);
            if end > vstart {
                assert(sub[end - vstart - 1] == d@[end - 1]);
            }
            assert(d@.subrange(vstart as int, vstart + n) == d@.subrange(root + 16, root + 16 + trimmed_len(sub, len as int)));
        }
        let version = string_from_utf8_lossy(vstd::slice::slice_subrange(d, vstart, vstart + n));
        r.pos = vstart + padded;
        let flags = r.u16().unwrap();
        let count = r.u16().unwrap();
        let first = r.pos;
        let mut streams: Vec<StreamHeader> = Vec::new();
        let mut i: u16 = 0;
        let mut pos = first as u64;
        while i < count
            invariant
                d@.len() <= u32::MAX,
                first == first_stream(d@, root as int),
                count as int == stream_count(d@, root as int),
                i <= count,
                pos == stream_pos(d@, root as int, first as int, i as nat),
                pos <= d@.len() + 3,
                root <= pos,
                first <= d@.len(),
                streams@.len() == i,
                forall|j: nat| j < i ==> stream_header_readable(d@, #[trigger] stream_pos(d@, root as int, first as int, j)),
                forall|j: int| 0 <= j < i ==> stream_header_at(d@, stream_pos(d@, root as int, first as int, j as nat), #[trigger] streams@[j]),
            decreases count - i,
        {
            if !(pos <= d.len() as u64 && d.len() as u64 - pos >= 8) {
                return Err(Error::Malformed);
            }
            let p = pos as usize;
            let mut hr = ByteReader::new(d, p);
            let offset = hr.u32().unwrap();
            let size = hr.u32().unwrap();
            let mut e = p + 8;
            while e < d.len() && d[e] != 0
                invariant
                    p + 8 <= e <= d@.len(),
                    cstr_end(d@, p + 8) == cstr_end(d@, e as int),
                decreases d@.len() - e,
            {
                e = e + 1;
            }
            if e >= d.len() {
                return Err(Error::Malformed);
            }
            let name = match string_from_utf8(copy_range(d, p + 8, e)) {
                Some(s) => s,
                None => return Err(Error::Malformed),
            };
            let ghost old_streams = streams@;
            streams.push(StreamHeader { offset, size, name });
            assert forall|j: int| 0 <= j < i + 1 implies stream_header_at(d@, stream_pos(d@, root as int, first as int, j as nat), #[trigger] streams@[j]) by {
                if j < i {
                    assert(streams@[j] == old_streams[j]);
                }
            }
            let run = (e + 1 - root) as u64;
            let step = (run + 3) / 4 * 4;
            assert(step <= run + 3) by (nonlinear_arith)
                requires
                    step == (run + 3) / 4 * 4,
            ;
            pos = root as u64 + step;
            i = i + 1;
        }
        assert(first == root + 16 + align4(len as int) + 4);
        Ok(PhysicalMetadata { major_version, minor_version, reserved, version, flags, streams })
    }

    /// The header of the stream called `name`, the first where several are.
    pub fn stream(&self, name: &str) -> (r: Option<&StreamHeader>)
        ensures
            r matches Some(h) ==> h.name@ == name@ && exists|i: int| 0 <= i < self.streams@.len() && self.streams@[i] == *h
                && forall|j: int| 0 <= j < i ==> self.streams@[j].name@ != name@,
            r is None ==> forall|i: int| 0 <= i < self.streams@.len() ==> self.streams@[i].name@ != name@,
    {
        let target = String::from_str(name);
        let mut i: usize = 0;
        while i < self.streams.len()
            invariant
                target@ == name@,
                i <= self.streams@.len(),
                forall|j: int| 0 <= j < i ==> self.streams@[j].name@ != name@,
            decreases self.streams@.len() - i,
        {
            if self.streams[i].name == target {
                return Some(&self.streams[i]);
            }
            i = i + 1;
        }
        None
    }
}

/// Whether bit `t` of `v` is set.
pub open spec fn bit_set(v: u64, t: int) -> bool {
    (v >> (t as u64)) & 1u64 == 1u64
}

/// How many of bits `0..t` of `v` are set.
pub open spec fn bits_below(v: u64, t: int) -> int
    decreases t,
{
    if t <= 0 {
        0
    } else {
        bits_below(v, t - 1) + if bit_set(v, t - 1) { 1int } else { 0int }
    }
}

/// The header of the table stream `#~`.
#[derive(Debug)]
pub struct LogicalMetadataTables {
    pub reserved: u32,
    pub major_version: u8,
    pub minor_version: u8,
    /// Which heap indices are four bytes wide: bit 0 strings, 1 GUIDs, 2 blobs.
    pub heap_sizes: u8,
    pub reserved2: u8,
    /// Which tables are present, one bit per table tag.
    pub valid: u64,
    /// Which tables are sorted.
    pub sorted: u64,
    /// The row count of each present table, in ascending tag order.
    pub rows_per_table: Vec<u32>,
}

/// The row counts of the table stream `d`: one for each set bit of its
/// bitmap.
pub open spec fn header_counts(d: Seq<u8>) -> Seq<u32> {
    Seq::new(bits_below(le64(d, 8) as u64, 64) as nat, |i: int| le32(d, 24 + 4 * i) as u32)
}

/// Whether the table stream `d` holds a whole header.
pub open spec fn header_readable(d: Seq<u8>) -> bool {
    fits(d, 0, 24) && fits(d, 24, 4 * bits_below(le64(d, 8) as u64, 64))
}

impl LogicalMetadataTables {
    /// The size of the header with `n` row counts.
    pub open spec fn size_spec(n: int) -> int {
        24 + 4 * n
    }

    /// Reads the header at the start of the table stream.
    pub fn read(d: &[u8]) -> (r: Result<LogicalMetadataTables, Error>)
        ensures
            r is Ok <==> fits(d@, 0, 24) && fits(d@, 24, 4 * bits_below(le64(d@, 8) as u64, 64)),
            r matches Err(e) ==> e == Error::Malformed,
            r matches Ok(t) ==> {
                &&& t.reserved as int == le32(d@, 0)
                &&& t.major_version == d@[4]
                &&& t.minor_version == d@[5]
                &&& t.heap_sizes == d@[6]
                &&& t.reserved2 == d@[7]
                &&& t.valid as int == le64(d@, 8)
                &&& t.sorted as int == le64(d@, 16)
                &&& t.valid == le64(d@, 8) as u64
                &&& t.rows_per_table@ == header_counts(d@)
                &&& t.rows_per_table@.len() == bits_below(t.valid, 64)
                &&& forall|i: int| 0 <= i < t.rows_per_table@.len() ==> t.rows_per_table@[i] as int == le32(d@, 24 + 4 * i)
            },
    {
        if d.len() < 24 {
            return Err(Error::Malformed);
        }
        let mut r = ByteReader::new(d, 0);
        let reserved = r.u32().unwrap();
        let major_version = r.u8().unwrap();
        let minor_version = r.u8().unwrap();
        let heap_sizes = r.u8().unwrap();
        let reserved2 = r.u8().unwrap();
        let valid = r.u64().unwrap();
        let sorted = r.u64().unwrap();
        let mut n: usize = 0;
        let mut t: u64 = 0;
        while t < 64
            invariant
                t <= 64,
                n == bits_below(valid, t as int),
                n <= t,
            decreases 64 - t,
        {
            if (valid >> t) & 1u64 == 1u64 {
                n = n + 1;
            }
            t = t + 1;
        }
        if d.len() - 24 < 4 * n {
            return Err(Error::Malformed);
        }
        let mut rows_per_table: Vec<u32> = Vec::new();
        let mut i: usize = 0;
        while i < n
            invariant
                r.data@ == d@,
                r.pos == 24 + 4 * i,
                i <= n,
                24 + 4 * n <= d@.len(),
                rows_per_table@.len() == i,
                forall|j: int| 0 <= j < i ==> rows_per_table@[j] as int == le32(d@, 24 + 4 * j),
            decreases n - i,
        {
            rows_per_table.push(r.u32().unwrap());
            i = i + 1;
        }
        assert(rows_per_table@ =~= header_counts(d@));
        Ok(LogicalMetadataTables { reserved, major_version, minor_version, heap_sizes, reserved2, valid, sorted, rows_per_table })
    }
}

impl TokenKind {
    /// The name of each kind, as it is spelled in the enumeration.
    pub open spec fn name_spec(self) -> Seq<char> {
        match self {
            TokenKind::Unknown => "Unknown"@,
            TokenKind::UserString => "UserString"@,
            TokenKind::Assembly => "Assembly"@,
            TokenKind::AssemblyOS => "AssemblyOS"@,
            TokenKind::AssemblyProcessor => "AssemblyProcessor"@,
            TokenKind::AssemblyRef => "AssemblyRef"@,
            TokenKind::AssemblyRefOS => "AssemblyRefOS"@,
            TokenKind::AssemblyRefProcessor => "AssemblyRefProcessor"@,
            TokenKind::ClassLayout => "ClassLayout"@,
            TokenKind::Constant => "Constant"@,
            TokenKind::CustomAttribute => "CustomAttribute"@,
            TokenKind::DeclSecurity => "DeclSecurity"@,
            TokenKind::EventMap => "EventMap"@,
            TokenKind::Event => "Event"@,
            TokenKind::ExportedType => "ExportedType"@,
            TokenKind::Field => "Field"@,
            TokenKind::FieldLayout => "FieldLayout"@,
            TokenKind::FieldMarshal => "FieldMarshal"@,
            TokenKind::FieldRVA => "FieldRVA"@,
            TokenKind::File => "File"@,
            TokenKind::GenericParam => "GenericParam"@,
            TokenKind::GenericParamConstraint => "GenericParamConstraint"@,
            TokenKind::ImplMap => "ImplMap"@,
            TokenKind::InterfaceImpl => "InterfaceImpl"@,
            TokenKind::ManifestResource => "ManifestResource"@,
            TokenKind::MemberRef => "MemberRef"@,
            TokenKind::MethodDef => "MethodDef"@,
            TokenKind::MethodImpl => "MethodImpl"@,
            TokenKind::MethodSemantics => "MethodSemantics"@,
            TokenKind::MethodSpec => "MethodSpec"@,
            TokenKind::Module => "Module"@,
            TokenKind::ModuleRef => "ModuleRef"@,
            TokenKind::NestedClass => "NestedClass"@,
            TokenKind::Param => "Param"@,
            TokenKind::Property => "Property"@,
            TokenKind::PropertyMap => "PropertyMap"@,
            TokenKind::StandAloneSig => "StandAloneSig"@,
            TokenKind::TypeDef => "TypeDef"@,
            TokenKind::TypeRef => "TypeRef"@,
            TokenKind::TypeSpec => "TypeSpec"@,
        }
    }

    /// The name of this kind.
    pub fn name(&self) -> (r: &'static str)
        ensures
            r@ == self.name_spec(),
    {
        match self {
            TokenKind::Unknown => "Unknown",
            TokenKind::UserString => "UserString",
            TokenKind::Assembly => "Assembly",
            TokenKind::AssemblyOS => "AssemblyOS",
            TokenKind::AssemblyProcessor => "AssemblyProcessor",
            TokenKind::AssemblyRef => "AssemblyRef",
            TokenKind::AssemblyRefOS => "AssemblyRefOS",
            TokenKind::AssemblyRefProcessor => "AssemblyRefProcessor",
            TokenKind::ClassLayout => "ClassLayout",
            TokenKind::Constant => "Constant",
            TokenKind::CustomAttribute => "CustomAttribute",
            TokenKind::DeclSecurity => "DeclSecurity",
            TokenKind::EventMap => "EventMap",
            TokenKind::Event => "Event",
            TokenKind::ExportedType => "ExportedType",
            TokenKind::Field => "Field",
            TokenKind::FieldLayout => "FieldLayout",
            TokenKind::FieldMarshal => "FieldMarshal",
            TokenKind::FieldRVA => "FieldRVA",
            TokenKind::File => "File",
            TokenKind::GenericParam => "GenericParam",
            TokenKind::GenericParamConstraint => "GenericParamConstraint",
            TokenKind::ImplMap => "ImplMap",
            TokenKind::InterfaceImpl => "InterfaceImpl",
            TokenKind::ManifestResource => "ManifestResource",
            TokenKind::MemberRef => "MemberRef",
            TokenKind::MethodDef => "MethodDef",
            TokenKind::MethodImpl => "MethodImpl",
            TokenKind::MethodSemantics => "MethodSemantics",
            TokenKind::MethodSpec => "MethodSpec",
            TokenKind::Module => "Module",
            TokenKind::ModuleRef => "ModuleRef",
            TokenKind::NestedClass => "NestedClass",
            TokenKind::Param => "Param",
            TokenKind::Property => "Property",
            TokenKind::PropertyMap => "PropertyMap",
            TokenKind::StandAloneSig => "StandAloneSig",
            TokenKind::TypeDef => "TypeDef",
            TokenKind::TypeRef => "TypeRef",
            TokenKind::TypeSpec => "TypeSpec",
        }
    }
}

/// How a token reads: `Token(Kind, index)`, and `Token(Unknown(tag), index)`
/// for a tag that names no kind, both numbers in decimal.
pub open spec fn token_text(t: u32) -> Seq<char> {
    let k = TokenKind::from_tag_spec(token_tag(t));
    "Token("@ + (if k == TokenKind::Unknown {
        "Unknown("@ + numeral(token_tag(t) as nat, 10) + ")"@
    } else {
        k.name_spec()
    }) + ", "@ + numeral(token_index(t) as nat, 10) + ")"@
}

impl Token {
    /// The token as text.
    pub fn text(&self) -> (r: String)
        ensures
            r@ == token_text(self.0),
    {
        let kind = self.kind();
        let mut s = String::from_str("Token(");
        if matches!(kind, TokenKind::Unknown) {
            s.append("Unknown(");
            s.append(numeral_string(self.kind_raw() as u64, 10).as_str());
            s.append(")");
        } else {
            s.append(kind.name());
        }
        s.append(", ");
        s.append(numeral_string(self.index() as u64, 10).as_str());
        s.append(")");
        proof {
            let k = TokenKind::from_tag_spec(token_tag(self.0));
            let middle = if k == TokenKind::Unknown {
                "Unknown("@ + numeral(token_tag(self.0) as nat, 10) + ")"@
            } else {
                k.name_spec()
            };
            assert(s@ =~= "Token("@ + middle + ", "@ + numeral(token_index(self.0) as nat, 10) + ")"@);
        }
        s
    }
}

/// `n` in upper-case hexadecimal, `w` digits at least.
pub open spec fn hex_upper(n: nat, w: nat) -> Seq<char> {
    cased_padded_numeral(n, 16, w, true)
}

/// How a GUID reads: `{XXXXXXXX-XXXX-XXXX-XXXX-XXXXXXXXXXXX}`, upper-case hex.
pub open spec fn guid_text(g: Guid) -> Seq<char> {
    "{"@ + hex_upper(g.data1 as nat, 8) + "-"@ + hex_upper(g.data2 as nat, 4) + "-"@ + hex_upper(g.data3 as nat, 4) + "-"@
        + byte_run(g.data4@, 8) + "}"@
}

impl Guid {
    /// The GUID in its registry form.
    pub fn text(&self) -> (r: String)
        ensures
            r@ == guid_text(*self),
    {
        let mut s = String::from_str("{");
        s.append(cased_padded_numeral_string(self.data1 as u64, 16, 8, true).as_str());
        s.append("-");
        s.append(cased_padded_numeral_string(self.data2 as u64, 16, 4, true).as_str());
        s.append("-");
        s.append(cased_padded_numeral_string(self.data3 as u64, 16, 4, true).as_str());
        s.append("-");
        let mut i: usize = 0;
        let ghost head = s@;
        while i < 8
            invariant
                0 <= i <= 8,
                s@ == head + byte_run(self.data4@, i as int),
            decreases 8 - i,
        {
            if i == 2 {
                s.append("-");
            }
            s.append(cased_padded_numeral_string(self.data4[i] as u64, 16, 2, true).as_str());
            proof {
                assert(byte_run(self.data4@, i + 1) =~= byte_run(self.data4@, i as int) + (if i == 2 { "-"@ } else { seq![] })
                    + hex_upper(self.data4@[i as int] as nat, 2));
            }
            i = i + 1;
        }
        s.append("}");
        assert(s@ =~= guid_text(*self));
        s
    }
}

/// The first `n` bytes of the last group of a GUID in hex, with the dash
/// after the second.
pub open spec fn byte_run(b: Seq<u8>, n: int) -> Seq<char>
    decreases n,
{
    if n <= 0 {
        seq![]
    } else {
        byte_run(b, n - 1) + (if n - 1 == 2 { "-"@ } else { seq![] }) + hex_upper(b[n - 1] as nat, 2)
    }
}

} // verus!
