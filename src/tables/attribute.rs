//! Custom attributes.

use vstd::prelude::*;

use crate::bytes::{le16, le32, fits, ByteReader};
use crate::error::Error;
use crate::strings::{heap_string, StringHeap};
use crate::tables::{read_string, TableRow};

verus! {

/// A custom attribute on some metadata row.
#[derive(Debug, Clone, Copy, PartialEq, Eq, Structural)]
pub struct CustomAttribute {
    pub parent_index: u16,
    pub type_index: u16,
    pub value_blob_index: u16,
}

impl CustomAttribute {
    /// The size of one row in bytes.
    pub const ROW_SIZE: usize = 6;

    /// Whether `row` is the row encoded at `p`.
    pub open spec fn row_at(d: Seq<u8>, p: int, row: CustomAttribute) -> bool {
        &&& fits(d, p, 6)
        &&& row.parent_index as int == le16(d, p)
        &&& row.type_index as int == le16(d, p + 2)
        &&& row.value_blob_index as int == le16(d, p + 4)
    }

    /// Whether a whole row is encoded at `p`.
    pub open spec fn readable(d: Seq<u8>, p: int) -> bool {
        fits(d, p, 6)
    }

    /// Reads one row at the reader's position.
    pub fn read(r: &mut ByteReader) -> (row: Result<CustomAttribute, Error>)
        ensures
            final(r).data@ == old(r).data@,
            row is Ok <==> CustomAttribute::readable(old(r).data@, old(r).pos as int),
            row matches Ok(row) ==> CustomAttribute::row_at(old(r).data@, old(r).pos as int, row)
                && final(r).pos == old(r).pos + 6,
            row matches Err(e) ==> e == Error::Malformed,
    {
        if !(r.pos <= r.data.len() && r.data.len() - r.pos >= 6) {
            return Err(Error::Malformed);
        }
        let parent_index = r.u16().unwrap();
        let type_index = r.u16().unwrap();
        let value_blob_index = r.u16().unwrap();
        Ok(CustomAttribute { parent_index, type_index, value_blob_index })
    }
}

impl TableRow for CustomAttribute {
    open spec fn size_spec() -> int {
        CustomAttribute::ROW_SIZE as int
    }

    open spec fn row_at_spec(d: Seq<u8>, p: int, strings: Seq<u8>, row: CustomAttribute) -> bool {
        CustomAttribute::row_at(d, p, row)
    }

    open spec fn readable_spec(d: Seq<u8>, p: int, strings: Seq<u8>) -> bool {
        CustomAttribute::readable(d, p)
    }

    fn row_size() -> (r: usize) {
        CustomAttribute::ROW_SIZE
    }

    fn read_row(r: &mut ByteReader, strings: &StringHeap) -> (row: Result<CustomAttribute, Error>) {
        CustomAttribute::read(r)
    }
}

} // verus!
