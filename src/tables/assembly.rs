//! The assembly manifest and the assemblies it references.

use vstd::prelude::*;

use crate::bytes::{le16, le32, fits, ByteReader};
use crate::error::Error;
use crate::strings::{heap_string, StringHeap};
use crate::tables::{read_string, TableRow};

verus! {

/// The assembly that this image belongs to.
#[derive(Debug)]
pub struct Assembly {
    pub hash_algorithm: AssemblyHashAlgorithm,
    pub major_version: u16,
    pub minor_version: u16,
    pub build_number: u16,
    pub revision_number: u16,
    pub flags: u32,
    pub public_key_blob_index: u16,
    pub name: String,
    pub culture: String,
}

impl Assembly {
    /// The size of one row in bytes.
    pub const ROW_SIZE: usize = 22;

    /// Whether `row` is the row encoded at `p`, its strings looked up in a
    /// string heap holding `strings`.
    pub open spec fn row_at(d: Seq<u8>, p: int, strings: Seq<u8>, row: Assembly) -> bool {
        &&& fits(d, p, 22)
        &&& AssemblyHashAlgorithm::from_value_spec(le32(d, p) as u32) == Some(row.hash_algorithm)
        &&& row.major_version as int == le16(d, p + 4)
        &&& row.minor_version as int == le16(d, p + 6)
        &&& row.build_number as int == le16(d, p + 8)
        &&& row.revision_number as int == le16(d, p + 10)
        &&& row.flags as int == le32(d, p + 12)
        &&& row.public_key_blob_index as int == le16(d, p + 16)
        &&& heap_string(strings, le16(d, p + 18)) == Some(row.name@)
        &&& heap_string(strings, le16(d, p + 20)) == Some(row.culture@)
    }

    /// Whether a whole row is encoded at `p` and its strings resolve.
    pub open spec fn readable(d: Seq<u8>, p: int, strings: Seq<u8>) -> bool {
        fits(d, p, 22)
        && AssemblyHashAlgorithm::from_value_spec(le32(d, p) as u32) is Some
        && heap_string(strings, le16(d, p + 18)) is Some
        && heap_string(strings, le16(d, p + 20)) is Some
    }

    /// Reads one row at the reader's position.
    pub fn read(r: &mut ByteReader, strings: &StringHeap) -> (row: Result<Assembly, Error>)
        ensures
            final(r).data@ == old(r).data@,
            row is Ok <==> Assembly::readable(old(r).data@, old(r).pos as int, strings.bytes()),
            row matches Ok(row) ==> Assembly::row_at(old(r).data@, old(r).pos as int, strings.bytes(), row)
                && final(r).pos == old(r).pos + 22,
            row matches Err(e) ==> e == Error::Malformed,
    {
        if !(r.pos <= r.data.len() && r.data.len() - r.pos >= 22) {
            return Err(Error::Malformed);
        }
        let hash_algorithm = AssemblyHashAlgorithm::from_value(r.u32().unwrap());
        let major_version = r.u16().unwrap();
        let minor_version = r.u16().unwrap();
        let build_number = r.u16().unwrap();
        let revision_number = r.u16().unwrap();
        let flags = r.u32().unwrap();
        let public_key_blob_index = r.u16().unwrap();
        let name = read_string(r, strings);
        let culture = read_string(r, strings);
        let hash_algorithm = match hash_algorithm {
            Some(v) => v,
            None => return Err(Error::Malformed),
        };
        let name = match name {
            Ok(v) => v,
            Err(e) => return Err(e),
        };
        let culture = match culture {
            Ok(v) => v,
            Err(e) => return Err(e),
        };
        Ok(Assembly { hash_algorithm, major_version, minor_version, build_number, revision_number, flags, public_key_blob_index, name, culture })
    }
}

/// The hash algorithm of an assembly.
#[derive(Debug, Clone, Copy, PartialEq, Eq, Structural)]
pub enum AssemblyHashAlgorithm {
    /// No hash.
    NoHash,
    MD5,
    SHA1,
}

impl AssemblyHashAlgorithm {
    /// The number that stands for each variant.
    pub open spec fn value(self) -> u32 {
        match self {
            AssemblyHashAlgorithm::NoHash => 0x0,
            AssemblyHashAlgorithm::MD5 => 0x8003,
            AssemblyHashAlgorithm::SHA1 => 0x8004,
        }
    }

    /// The variant that `v` stands for, if any.
    pub open spec fn from_value_spec(v: u32) -> Option<AssemblyHashAlgorithm> {
        if v == 0x0 {
            Some(AssemblyHashAlgorithm::NoHash)
        } else if v == 0x8003 {
            Some(AssemblyHashAlgorithm::MD5)
        } else if v == 0x8004 {
            Some(AssemblyHashAlgorithm::SHA1)
        } else {
            None
        }
    }

    /// The variant that `v` stands for, if any.
    pub fn from_value(v: u32) -> (r: Option<AssemblyHashAlgorithm>)
        ensures
            r == AssemblyHashAlgorithm::from_value_spec(v),
            r matches Some(k) ==> k.value() == v,
    {
        if v == 0x0 {
            Some(AssemblyHashAlgorithm::NoHash)
        } else if v == 0x8003 {
            Some(AssemblyHashAlgorithm::MD5)
        } else if v == 0x8004 {
            Some(AssemblyHashAlgorithm::SHA1)
        } else {
            None
        }
    }
}

/// An assembly that this one references.
#[derive(Debug)]
pub struct AssemblyRef {
    pub major_version: u16,
    pub minor_version: u16,
    pub build_number: u16,
    pub revision_number: u16,
    pub flags: u32,
    pub public_key_or_token_blob_index: u16,
    pub name: String,
    pub culture: String,
    pub hash_value_blob_index: u16,
}

impl AssemblyRef {
    /// The size of one row in bytes.
    pub const ROW_SIZE: usize = 20;

    /// Whether `row` is the row encoded at `p`, its strings looked up in a
    /// string heap holding `strings`.
    pub open spec fn row_at(d: Seq<u8>, p: int, strings: Seq<u8>, row: AssemblyRef) -> bool {
        &&& fits(d, p, 20)
        &&& row.major_version as int == le16(d, p)
        &&& row.minor_version as int == le16(d, p + 2)
        &&& row.build_number as int == le16(d, p + 4)
        &&& row.revision_number as int == le16(d, p + 6)
        &&& row.flags as int == le32(d, p + 8)
        &&& row.public_key_or_token_blob_index as int == le16(d, p + 12)
        &&& heap_string(strings, le16(d, p + 14)) == Some(row.name@)
        &&& heap_string(strings, le16(d, p + 16)) == Some(row.culture@)
        &&& row.hash_value_blob_index as int == le16(d, p + 18)
    }

    /// Whether a whole row is encoded at `p` and its strings resolve.
    pub open spec fn readable(d: Seq<u8>, p: int, strings: Seq<u8>) -> bool {
        fits(d, p, 20)
        && heap_string(strings, le16(d, p + 14)) is Some
        && heap_string(strings, le16(d, p + 16)) is Some
    }

    /// Reads one row at the reader's position.
    pub fn read(r: &mut ByteReader, strings: &StringHeap) -> (row: Result<AssemblyRef, Error>)
        ensures
            final(r).data@ == old(r).data@,
            row is Ok <==> AssemblyRef::readable(old(r).data@, old(r).pos as int, strings.bytes()),
            row matches Ok(row) ==> AssemblyRef::row_at(old(r).data@, old(r).pos as int, strings.bytes(), row)
                && final(r).pos == old(r).pos + 20,
            row matches Err(e) ==> e == Error::Malformed,
    {
        if !(r.pos <= r.data.len() && r.data.len() - r.pos >= 20) {
            return Err(Error::Malformed);
        }
        let major_version = r.u16().unwrap();
        let minor_version = r.u16().unwrap();
        let build_number = r.u16().unwrap();
        let revision_number = r.u16().unwrap();
        let flags = r.u32().unwrap();
        let public_key_or_token_blob_index = r.u16().unwrap();
        let name = read_string(r, strings);
        let culture = read_string(r, strings);
        let hash_value_blob_index = r.u16().unwrap();
        let name = match name {
            Ok(v) => v,
            Err(e) => return Err(e),
        };
        let culture = match culture {
            Ok(v) => v,
            Err(e) => return Err(e),
        };
        Ok(AssemblyRef { major_version, minor_version, build_number, revision_number, flags, public_key_or_token_blob_index, name, culture, hash_value_blob_index })
    }
}

impl TableRow for Assembly {
    open spec fn size_spec() -> int {
        Assembly::ROW_SIZE as int
    }

    open spec fn row_at_spec(d: Seq<u8>, p: int, strings: Seq<u8>, row: Assembly) -> bool {
        Assembly::row_at(d, p, strings, row)
    }

    open spec fn readable_spec(d: Seq<u8>, p: int, strings: Seq<u8>) -> bool {
        Assembly::readable(d, p, strings)
    }

    fn row_size() -> (r: usize) {
        Assembly::ROW_SIZE
    }

    fn read_row(r: &mut ByteReader, strings: &StringHeap) -> (row: Result<Assembly, Error>) {
        Assembly::read(r, strings)
    }
}

impl TableRow for AssemblyRef {
    open spec fn size_spec() -> int {
        AssemblyRef::ROW_SIZE as int
    }

    open spec fn row_at_spec(d: Seq<u8>, p: int, strings: Seq<u8>, row: AssemblyRef) -> bool {
        AssemblyRef::row_at(d, p, strings, row)
    }

    open spec fn readable_spec(d: Seq<u8>, p: int, strings: Seq<u8>) -> bool {
        AssemblyRef::readable(d, p, strings)
    }

    fn row_size() -> (r: usize) {
        AssemblyRef::ROW_SIZE
    }

    fn read_row(r: &mut ByteReader, strings: &StringHeap) -> (row: Result<AssemblyRef, Error>) {
        AssemblyRef::read(r, strings)
    }
}

} // verus!
