//! The compressed unsigned integers of blobs and signatures.
//!
//! The first byte selects the width: `0xxxxxxx` is one byte, `10xxxxxx` two
//! bytes and `110xxxxx` four bytes, big-endian, the tag bits masked off.

use vstd::prelude::*;

verus! {

/// The largest value that the encoding can hold, `2^29 - 1`.
pub const MAX_COMPRESSED: u32 = 0x1FFF_FFFF;

/// The value encoded at `p` and the position just after it, if the bytes there
/// hold one. (`b0 & 0x80 == 0` is `b0 < 0x80`; `b0 & 0xC0 == 0x80` is
/// `0x80 <= b0 < 0xC0`; `b0 & 0xE0 == 0xC0` is `0xC0 <= b0 < 0xE0`.)
pub open spec fn compressed_at(d: Seq<u8>, p: int) -> Option<(u32, int)> {
    if p < 0 || p >= d.len() {
        None
    } else {
        let b0 = d[p] as int;
        if b0 < 0x80 {
            Some((b0 as u32, p + 1))
        } else if b0 < 0xC0 {
            if p + 2 <= d.len() {
                Some((((b0 - 0x80) * 0x100 + d[p + 1]) as u32, p + 2))
            } else {
                None
            }
        } else if b0 < 0xE0 {
            if p + 4 <= d.len() {
                Some(
                    (((b0 - 0xC0) * 0x100_0000 + d[p + 1] as int * 0x1_0000 + d[p + 2] as int * 0x100
                        + d[p + 3] as int) as u32, p + 4),
                )
            } else {
                None
            }
        } else {
            None
        }
    }
}

/// The shortest encoding of `n`.
pub open spec fn compressed_bytes(n: u32) -> Seq<u8> {
    if n < 0x80 {
        seq![n as u8]
    } else if n < 0x4000 {
        seq![(0x80 + n / 0x100) as u8, (n % 0x100) as u8]
    } else {
        seq![
            (0xC0 + n / 0x100_0000) as u8,
            ((n / 0x1_0000) % 0x100) as u8,
            ((n / 0x100) % 0x100) as u8,
            (n % 0x100) as u8,
        ]
    }
}

/// Decodes the compressed integer at `pos`; `None` where the first byte has
/// the pattern `111xxxxx` or the bytes run out.
pub fn read_compressed_u32(data: &[u8], pos: usize) -> (r: Option<(u32, usize)>)
    ensures
        match r {
            Some((v, q)) => compressed_at(data@, pos as int) == Some((v, q as int)),
            None => compressed_at(data@, pos as int) is None,
        },
{
    if pos >= data.len() {
        return None;
    }
    let b0 = data[pos];
    let rest = data.len() - pos;
    if b0 < 0x80 {
        Some((b0 as u32, pos + 1))
    } else if b0 < 0xC0 {
        if rest < 2 {
            return None;
        }
        Some((((b0 - 0x80) as u32) * 0x100 + data[pos + 1] as u32, pos + 2))
    } else if b0 < 0xE0 {
        if rest < 4 {
            return None;
        }
        let v = ((b0 - 0xC0) as u32) * 0x100_0000 + data[pos + 1] as u32 * 0x1_0000
            + data[pos + 2] as u32 * 0x100 + data[pos + 3] as u32;
        Some((v, pos + 4))
    } else {
        None
    }
}

/// Encodes `n` in the fewest bytes.
pub fn write_compressed_u32(n: u32) -> (r: Vec<u8>)
    requires
        n <= MAX_COMPRESSED,
    ensures
        r@ == compressed_bytes(n),
{
    let mut r: Vec<u8> = Vec::new();
    if n < 0x80 {
        r.push(n as u8);
    } else if n < 0x4000 {
        r.push((0x80 + n / 0x100) as u8);
        r.push((n % 0x100) as u8);
    } else {
        r.push((0xC0 + n / 0x100_0000) as u8);
        r.push(((n / 0x1_0000) % 0x100) as u8);
        r.push(((n / 0x100) % 0x100) as u8);
        r.push((n % 0x100) as u8);
    }
    assert(r@ =~= compressed_bytes(n));
    r
}

/// Decoding the encoding of any value up to `2^29 - 1` gives the value back,
/// and consumes exactly the encoding.
pub proof fn lemma_compressed_round_trip(n: u32)
    requires
        n <= MAX_COMPRESSED,
    ensures
        compressed_at(compressed_bytes(n), 0) == Some((n, compressed_bytes(n).len() as int)),
{
    let b = compressed_bytes(n);
    if n < 0x80 {
    } else if n < 0x4000 {
        assert(n == (n / 0x100) * 0x100 + n % 0x100) by (nonlinear_arith);
        assert(n / 0x100 < 0x40) by (nonlinear_arith) requires n < 0x4000;
    } else {
        let a = n / 0x100_0000;
        let bb = (n / 0x1_0000) % 0x100;
        let c = (n / 0x100) % 0x100;
        let e = n % 0x100;
        assert(n == a * 0x100_0000 + bb * 0x1_0000 + c * 0x100 + e) by (bit_vector)
            requires
                a == n / 0x100_0000,
                bb == (n / 0x1_0000) % 0x100,
                c == (n / 0x100) % 0x100,
                e == n % 0x100,
        ;
        assert(a < 0x20) by (bit_vector) requires a == n / 0x100_0000, n <= 0x1FFF_FFFF;
    }
}

/// A first byte of the pattern `111xxxxx` never starts a value.
pub proof fn lemma_compressed_rejects_high_pattern(d: Seq<u8>, p: int)
    requires
        0 <= p < d.len(),
        d[p] >= 0xE0,
    ensures
        compressed_at(d, p) is None,
{
}

} // verus!
