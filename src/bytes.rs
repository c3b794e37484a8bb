//! Little-endian reads from byte buffers.

use vstd::prelude::*;

verus! {

/// The little-endian 16-bit value at `p`.
pub open spec fn le16(d: Seq<u8>, p: int) -> int {
    d[p] as int + d[p + 1] as int * 0x100
}

/// The little-endian 32-bit value at `p`.
pub open spec fn le32(d: Seq<u8>, p: int) -> int {
    le16(d, p) + le16(d, p + 2) * 0x10000
}

/// The little-endian 64-bit value at `p`.
pub open spec fn le64(d: Seq<u8>, p: int) -> int {
    le32(d, p) + le32(d, p + 4) * 0x1_0000_0000
}

/// Whether `n` bytes are available at `p`.
pub open spec fn fits(d: Seq<u8>, p: int, n: int) -> bool {
    0 <= p && p + n <= d.len()
}

/// A position in a byte buffer that moves forward as values are read.
pub struct ByteReader<'a> {
    pub data: &'a [u8],
    pub pos: usize,
}

impl<'a> ByteReader<'a> {
    pub fn new(data: &'a [u8], pos: usize) -> (r: Self)
        ensures
            r.data@ == data@,
            r.pos == pos,
    {
        ByteReader { data, pos }
    }

    /// Reads one byte.
    pub fn u8(&mut self) -> (r: Option<u8>)
        ensures
            final(self).data@ == old(self).data@,
            fits(old(self).data@, old(self).pos as int, 1) ==> r == Some(old(self).data@[old(self).pos as int])
                && final(self).pos == old(self).pos + 1,
            !fits(old(self).data@, old(self).pos as int, 1) ==> r is None && final(self).pos == old(self).pos,
    {
        if self.pos < self.data.len() {
            let b = self.data[self.pos];
            self.pos = self.pos + 1;
            Some(b)
        } else {
            None
        }
    }

    /// Reads a little-endian `u16`.
    pub fn u16(&mut self) -> (r: Option<u16>)
        ensures
            final(self).data@ == old(self).data@,
            fits(old(self).data@, old(self).pos as int, 2) ==> r == Some(le16(old(self).data@, old(self).pos as int) as u16)
                && final(self).pos == old(self).pos + 2,
            !fits(old(self).data@, old(self).pos as int, 2) ==> r is None && final(self).pos == old(self).pos,
    {
        if self.pos < self.data.len() && self.data.len() - self.pos >= 2 {
            let p = self.pos;
            let v = self.data[p] as u16 + self.data[p + 1] as u16 * 0x100;
            self.pos = p + 2;
            Some(v)
        } else {
            None
        }
    }

    /// Reads a little-endian `u32`.
    pub fn u32(&mut self) -> (r: Option<u32>)
        ensures
            final(self).data@ == old(self).data@,
            fits(old(self).data@, old(self).pos as int, 4) ==> r == Some(le32(old(self).data@, old(self).pos as int) as u32)
                && final(self).pos == old(self).pos + 4,
            !fits(old(self).data@, old(self).pos as int, 4) ==> r is None && final(self).pos == old(self).pos,
    {
        if self.pos < self.data.len() && self.data.len() - self.pos >= 4 {
            let p = self.pos;
            let lo = self.data[p] as u32 + self.data[p + 1] as u32 * 0x100;
            let hi = self.data[p + 2] as u32 + self.data[p + 3] as u32 * 0x100;
            self.pos = p + 4;
            Some(lo + hi * 0x10000)
        } else {
            None
        }
    }

    /// Reads a little-endian `u64`.
    pub fn u64(&mut self) -> (r: Option<u64>)
        ensures
            final(self).data@ == old(self).data@,
            fits(old(self).data@, old(self).pos as int, 8) ==> r == Some(le64(old(self).data@, old(self).pos as int) as u64)
                && final(self).pos == old(self).pos + 8,
            !fits(old(self).data@, old(self).pos as int, 8) ==> r is None && final(self).pos == old(self).pos,
    {
        if self.pos < self.data.len() && self.data.len() - self.pos >= 8 {
            let lo = self.u32().unwrap();
            let hi = self.u32().unwrap();
            Some(lo as u64 + hi as u64 * 0x1_0000_0000)
        } else {
            None
        }
    }

    /// Copies the next `n` bytes out.
    pub fn bytes(&mut self, n: usize) -> (r: Option<Vec<u8>>)
        ensures
            final(self).data@ == old(self).data@,
            fits(old(self).data@, old(self).pos as int, n as int) ==> (r matches Some(v)
                && v@ == old(self).data@.subrange(old(self).pos as int, old(self).pos + n)
                && final(self).pos == old(self).pos + n),
            !fits(old(self).data@, old(self).pos as int, n as int) ==> r is None && final(self).pos == old(self).pos,
    {
        if self.pos <= self.data.len() && self.data.len() - self.pos >= n {
            let v = copy_range(self.data, self.pos, self.pos + n);
            self.pos = self.pos + n;
            Some(v)
        } else {
            None
        }
    }
}

/// Copies `d[from..to]` into a new vector.
pub fn copy_range(d: &[u8], from: usize, to: usize) -> (r: Vec<u8>)
    requires
        from <= to <= d@.len(),
    ensures
        r@ == d@.subrange(from as int, to as int),
{
    let mut r: Vec<u8> = Vec::new();
    let mut i: usize = from;
    while i < to
        invariant
            from <= i <= to <= d@.len(),
            r@ == d@.subrange(from as int, i as int),
        decreases to - i,
    {
        r.push(d[i]);
        i = i + 1;
    }
    r
}

} // verus!
