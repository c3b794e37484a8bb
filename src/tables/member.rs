//! References to members of other types.

use vstd::prelude::*;

use crate::bytes::{le16, le32, fits, ByteReader};
use crate::error::Error;
use crate::strings::{heap_string, StringHeap};
use crate::tables::{read_string, TableRow};

verus! {

/// A reference to a field or method of some type.
#[derive(Debug)]
pub struct MemberRef {
    /// The parent, a coded `MemberRefParent`.
    pub class_index: u16,
    pub name: String,
    pub signature_blob_index: u16,
}

impl MemberRef {
    /// The size of one row in bytes.
    pub const ROW_SIZE: usize = 6;

    /// Whether `row` is the row encoded at `p`, its strings looked up in a
    /// string heap holding `strings`.
    pub open spec fn row_at(d: Seq<u8>, p: int, strings: Seq<u8>, row: MemberRef) -> bool {
        &&& fits(d, p, 6)
        &&& row.class_index as int == le16(d, p)
        &&& heap_string(strings, le16(d, p + 2)) == Some(row.name@)
        &&& row.signature_blob_index as int == le16(d, p + 4)
    }

    /// Whether a whole row is encoded at `p` and its strings resolve.
    pub open spec fn readable(d: Seq<u8>, p: int, strings: Seq<u8>) -> bool {
        fits(d, p, 6)
        && heap_string(strings, le16(d, p + 2)) is Some
    }

    /// Reads one row at the reader's position.
    pub fn read(r: &mut ByteReader, strings: &StringHeap) -> (row: Result<MemberRef, Error>)
        ensures
            final(r).data@ == old(r).data@,
            row is Ok <==> MemberRef::readable(old(r).data@, old(r).pos as int, strings.bytes()),
            row matches Ok(row) ==> MemberRef::row_at(old(r).data@, old(r).pos as int, strings.bytes(), row)
                && final(r).pos == old(r).pos + 6,
            row matches Err(e) ==> e == Error::Malformed,
    {
        if !(r.pos <= r.data.len() && r.data.len() - r.pos >= 6) {
            return Err(Error::Malformed);
        }
        let class_index = r.u16().unwrap();
        let name = read_string(r, strings);
        let signature_blob_index = r.u16().unwrap();
        let name = match name {
            Ok(v) => v,
            Err(e) => return Err(e),
        };
        Ok(MemberRef { class_index, name, signature_blob_index })
    }
}

impl TableRow for MemberRef {
    open spec fn size_spec() -> int {
        MemberRef::ROW_SIZE as int
    }

    open spec fn row_at_spec(d: Seq<u8>, p: int, strings: Seq<u8>, row: MemberRef) -> bool {
        MemberRef::row_at(d, p, strings, row)
    }

    open spec fn readable_spec(d: Seq<u8>, p: int, strings: Seq<u8>) -> bool {
        MemberRef::readable(d, p, strings)
    }

    fn row_size() -> (r: usize) {
        MemberRef::ROW_SIZE
    }

    fn read_row(r: &mut ByteReader, strings: &StringHeap) -> (row: Result<MemberRef, Error>) {
        MemberRef::read(r, strings)
    }
}

} // verus!
