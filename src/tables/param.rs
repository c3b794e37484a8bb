//! Method parameters.

use vstd::prelude::*;

use crate::bytes::{le16, le32, fits, ByteReader};
use crate::error::Error;
use crate::strings::{heap_string, StringHeap};
use crate::tables::{read_string, TableRow};

verus! {

/// A parameter of a method.
#[derive(Debug)]
pub struct Param {
    pub flags: u16,
    pub sequence: u16,
    pub name: String,
}

impl Param {
    /// The size of one row in bytes.
    pub const ROW_SIZE: usize = 6;

    /// Whether `row` is the row encoded at `p`, its strings looked up in a
    /// string heap holding `strings`.
    pub open spec fn row_at(d: Seq<u8>, p: int, strings: Seq<u8>, row: Param) -> bool {
        &&& fits(d, p, 6)
        &&& row.flags as int == le16(d, p)
        &&& row.sequence as int == le16(d, p + 2)
        &&& heap_string(strings, le16(d, p + 4)) == Some(row.name@)
    }

    /// Whether a whole row is encoded at `p` and its strings resolve.
    pub open spec fn readable(d: Seq<u8>, p: int, strings: Seq<u8>) -> bool {
        fits(d, p, 6)
        && heap_string(strings, le16(d, p + 4)) is Some
    }

    /// Reads one row at the reader's position.
    pub fn read(r: &mut ByteReader, strings: &StringHeap) -> (row: Result<Param, Error>)
        ensures
            final(r).data@ == old(r).data@,
            row is Ok <==> Param::readable(old(r).data@, old(r).pos as int, strings.bytes()),
            row matches Ok(row) ==> Param::row_at(old(r).data@, old(r).pos as int, strings.bytes(), row)
                && final(r).pos == old(r).pos + 6,
            row matches Err(e) ==> e == Error::Malformed,
    {
        if !(r.pos <= r.data.len() && r.data.len() - r.pos >= 6) {
            return Err(Error::Malformed);
        }
        let flags = r.u16().unwrap();
        let sequence = r.u16().unwrap();
        let name = read_string(r, strings);
        let name = match name {
            Ok(v) => v,
            Err(e) => return Err(e),
        };
        Ok(Param { flags, sequence, name })
    }
}

impl TableRow for Param {
    open spec fn size_spec() -> int {
        Param::ROW_SIZE as int
    }

    open spec fn row_at_spec(d: Seq<u8>, p: int, strings: Seq<u8>, row: Param) -> bool {
        Param::row_at(d, p, strings, row)
    }

    open spec fn readable_spec(d: Seq<u8>, p: int, strings: Seq<u8>) -> bool {
        Param::readable(d, p, strings)
    }

    fn row_size() -> (r: usize) {
        Param::ROW_SIZE
    }

    fn read_row(r: &mut ByteReader, strings: &StringHeap) -> (row: Result<Param, Error>) {
        Param::read(r, strings)
    }
}

} // verus!
