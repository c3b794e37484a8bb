//! The metadata heaps: strings, user strings, blobs and GUIDs.

use vstd::prelude::*;
use vstd::utf8::{decode_utf8, valid_utf8};

use crate::bytes::{le16, copy_range, ByteReader};
use crate::meta::{guid_at, token_index, token_tag, Guid, GuidIndex, StringIndex, Token};
use crate::varint::{compressed_at, read_compressed_u32};

verus! {

/// The characters that a sequence of UTF-16 code units encodes: a unit
/// outside `0xD800..=0xDFFF` stands for itself; a high surrogate
/// (`0xD800..=0xDBFF`) followed by a low one (`0xDC00..=0xDFFF`) stands for
/// `0x10000 + (high - 0xD800) * 0x400 + (low - 0xDC00)`; any other surrogate
/// makes the sequence invalid.
pub open spec fn utf16_decode(units: Seq<u16>) -> Option<Seq<char>>
    decreases units.len(),
{
    if units.len() == 0 {
        Some(seq![])
    } else if units[0] < 0xD800 || units[0] > 0xDFFF {
        match utf16_decode(units.subrange(1, units.len() as int)) {
            Some(rest) => Some(seq![units[0] as u32 as char] + rest),
            None => None,
        }
    } else if units[0] <= 0xDBFF && units.len() >= 2 && 0xDC00 <= units[1] <= 0xDFFF {
        let c = (0x10000 + (units[0] - 0xD800) * 0x400 + (units[1] - 0xDC00)) as u32;
        match utf16_decode(units.subrange(2, units.len() as int)) {
            Some(rest) => Some(seq![c as char] + rest),
            None => None,
        }
    } else {
        None
    }
}

/// Relies on `String::from_utf8`: it succeeds exactly on valid UTF-8, and then
/// holds the characters that the bytes encode.
#[verifier::external_body]
pub(crate) fn string_from_utf8(bytes: Vec<u8>) -> (r: Option<String>)
    ensures
        r is Some <==> valid_utf8(bytes@),
        r matches Some(s) ==> s@ == decode_utf8(bytes@),
{
    String::from_utf8(bytes).ok()
}

/// Relies on `String::from_utf16`: it decodes UTF-16, failing where a
/// surrogate is unpaired.
#[verifier::external_body]
fn string_from_utf16(units: &[u16]) -> (r: Option<String>)
    ensures
        r is None <==> utf16_decode(units@) is None,
        r matches Some(s) ==> utf16_decode(units@) == Some(s@),
{
    String::from_utf16(units).ok()
}

/// The end of the NUL-terminated run that starts at `i`: the first zero byte
/// at or after `i`, or the end of the buffer.
pub open spec fn cstr_end(d: Seq<u8>, i: int) -> int
    decreases d.len() - i,
{
    if i < 0 || i >= d.len() || d[i] == 0 {
        i
    } else {
        cstr_end(d, i + 1)
    }
}

/// The string that index `i` of a string heap holding `d` names: empty for
/// 0, `None` past the end or where the bytes are not UTF-8.
pub open spec fn heap_string(d: Seq<u8>, i: int) -> Option<Seq<char>> {
    if i == 0 {
        Some(seq![])
    } else if i >= d.len() {
        None
    } else {
        let b = d.subrange(i, cstr_end(d, i));
        if valid_utf8(b) {
            Some(decode_utf8(b))
        } else {
            None
        }
    }
}

/// The string heap: NUL-terminated UTF-8 strings.
pub struct StringHeap {
    data: Vec<u8>,
}

impl StringHeap {
    pub closed spec fn bytes(&self) -> Seq<u8> {
        self.data@
    }

    pub fn new(data: Vec<u8>) -> (r: Self)
        ensures
            r.bytes() == data@,
    {
        StringHeap { data }
    }

    /// The bytes from `i` up to the first NUL.
    fn run_at(&self, i: usize) -> (r: Vec<u8>)
        requires
            i < self.data@.len(),
        ensures
            r@ == self.data@.subrange(i as int, cstr_end(self.data@, i as int)),
    {
        let mut j: usize = i;
        while j < self.data.len() && self.data[j] != 0
            invariant
                i <= j <= self.data@.len(),
                cstr_end(self.data@, i as int) == cstr_end(self.data@, j as int),
            decreases self.data@.len() - j,
        {
            j = j + 1;
        }
        copy_range(self.data.as_slice(), i, j)
    }

    /// The string at `index`; empty for index 0.
    pub fn get(&self, index: StringIndex) -> (r: Option<String>)
        ensures
            match r {
                Some(s) => heap_string(self.bytes(), index.0 as int) == Some(s@),
                None => heap_string(self.bytes(), index.0 as int) is None,
            },
            index.0 == 0 ==> (r matches Some(s) && s@.len() == 0),
    {
        let i = index.0 as usize;
        if i == 0 {
            return Some(String::new());
        }
        if i >= self.data.len() {
            return None;
        }
        string_from_utf8(self.run_at(i))
    }

    /// The string at `index`, or `Malformed` where there is none.
    pub fn try_get(&self, index: StringIndex) -> (r: Result<String, crate::error::Error>)
        ensures
            match r {
                Ok(s) => heap_string(self.bytes(), index.0 as int) == Some(s@),
                Err(e) => heap_string(self.bytes(), index.0 as int) is None && e == crate::error::Error::Malformed,
            },
    {
        match self.get(index) {
            Some(s) => Ok(s),
            None => Err(crate::error::Error::Malformed),
        }
    }
}

/// Where the blob at `i` of a heap holding `d` starts and ends, if its
/// length prefix reads and the bytes are there.
pub open spec fn blob_range(d: Seq<u8>, i: int) -> Option<(int, int)> {
    match compressed_at(d, i) {
        Some((n, start)) => if start + n <= d.len() {
            Some((start, start + n))
        } else {
            None
        },
        None => None,
    }
}

/// The blob heap: byte runs, each after a compressed length.
pub struct BlobHeap {
    data: Vec<u8>,
}

impl BlobHeap {
    pub closed spec fn bytes(&self) -> Seq<u8> {
        self.data@
    }

    pub fn new(data: Vec<u8>) -> (r: Self)
        ensures
            r.bytes() == data@,
    {
        BlobHeap { data }
    }

    /// The blob at `index`; `None` where the index or the length is out of
    /// bounds.
    pub fn get(&self, index: u32) -> (r: Option<&[u8]>)
        ensures
            match blob_range(self.bytes(), index as int) {
                Some((s, e)) => r matches Some(b) && b@ == self.bytes().subrange(s, e),
                None => r is None,
            },
    {
        let d = self.data.as_slice();
        match read_compressed_u32(d, index as usize) {
            Some((n, start)) => {
                if start <= d.len() && d.len() - start >= n as usize {
                    Some(vstd::slice::slice_subrange(d, start, start + n as usize))
                } else {
                    None
                }
            },
            None => None,
        }
    }
}

/// The UTF-16 code units of `b`, two bytes each, little-endian; an odd last
/// byte (the flag byte of a user string) is left out.
pub open spec fn utf16_units(b: Seq<u8>) -> Seq<u16> {
    Seq::new((b.len() / 2) as nat, |i: int| le16(b, 2 * i) as u16)
}

/// The user string at index `i` of a heap holding `d`.
pub open spec fn user_string_at(d: Seq<u8>, i: int) -> Option<Seq<char>> {
    match blob_range(d, i) {
        Some((s, e)) => utf16_decode(utf16_units(d.subrange(s, e))),
        None => None,
    }
}

/// The user-string heap: UTF-16 strings in blob form.
pub struct UserStringHeap {
    blob: BlobHeap,
}

impl UserStringHeap {
    pub closed spec fn bytes(&self) -> Seq<u8> {
        self.blob.bytes()
    }

    pub fn new(data: Vec<u8>) -> (r: Self)
        ensures
            r.bytes() == data@,
    {
        UserStringHeap { blob: BlobHeap::new(data) }
    }

    /// The string that a `UserString` token names.
    pub fn get(&self, token: Token) -> (r: Option<String>)
        requires
            token_tag(token.0) == 0x70,
        ensures
            match r {
                Some(s) => user_string_at(self.bytes(), token_index(token.0) as int) == Some(s@),
                None => user_string_at(self.bytes(), token_index(token.0) as int) is None,
            },
    {
        let data = match self.blob.get(token.index()) {
            Some(b) => b,
            None => return None,
        };
        let mut units: Vec<u16> = Vec::new();
        let mut i: usize = 0;
        while i + 1 < data.len()
            invariant
                i % 2 == 0,
                i <= data@.len(),
                units@.len() == i / 2,
                forall|k: int| 0 <= k < units@.len() ==> units@[k] == le16(data@, 2 * k) as u16,
            decreases data@.len() - i,
        {
            units.push(data[i] as u16 + data[i + 1] as u16 * 0x100);
            i = i + 2;
        }
        assert(units@ =~= utf16_units(data@));
        string_from_utf16(units.as_slice())
    }
}

/// The GUIDs of a GUID heap: every whole 16-byte record, in order.
pub fn read_guids(data: &[u8]) -> (r: Vec<Guid>)
    ensures
        r@.len() == data@.len() / 16,
        forall|i: int| 0 <= i < r@.len() ==> guid_at(data@, 16 * i, #[trigger] r@[i]),
{
    let mut r: Vec<Guid> = Vec::new();
    let mut rd = ByteReader::new(data, 0);
    while rd.pos <= data.len() && data.len() - rd.pos >= 16
        invariant
            rd.data@ == data@,
            rd.pos == 16 * r@.len(),
            rd.pos <= data@.len(),
            forall|i: int| 0 <= i < r@.len() ==> guid_at(data@, 16 * i, #[trigger] r@[i]),
        decreases data@.len() - rd.pos,
    {
        let g = Guid::read(&mut rd).unwrap();
        r.push(g);
    }
    r
}

/// The GUID that a 1-based index names, from the records of a GUID heap.
pub fn guid_at_index(guids: &Vec<Guid>, index: GuidIndex) -> (r: Option<Guid>)
    ensures
        1 <= index.0 <= guids@.len() ==> r == Some(guids@[index.0 - 1]),
        !(1 <= index.0 <= guids@.len()) ==> r is None,
{
    if index.0 >= 1 && (index.0 as usize) <= guids.len() {
        Some(guids[index.0 as usize - 1])
    } else {
        None
    }
}

} // verus!
