//! Raw IL instructions as they are encoded in a method body.
//!
//! An instruction is a one-byte opcode, or the prefix `0xFE` and a second
//! byte (written here as `0xFExx`), followed by an operand whose shape the
//! opcode fixes. `switch` (`0x45`) carries a count and that many targets.

use vstd::prelude::*;

use crate::bytes::{le16, le32, le64, fits, ByteReader};
use crate::error::Error;
use crate::meta::Token;

verus! {

/// The shape of an instruction's operand.
#[derive(Debug, Clone, Copy, PartialEq, Eq, Structural)]
pub enum OperandKind {
    Empty,
    U8,
    I8,
    U16,
    I32,
    U32,
    I64,
    /// A 32-bit float, kept as its bits.
    R4,
    /// A 64-bit float, kept as its bits.
    R8,
    Token,
    Switch,
}

/// An instruction's operand.
#[derive(Debug, Clone, PartialEq)]
pub enum Operand {
    Empty,
    U8(u8),
    I8(i8),
    U16(u16),
    I32(i32),
    U32(u32),
    I64(i64),
    /// The IEEE-754 bits of a 32-bit float.
    R4(u32),
    /// The IEEE-754 bits of a 64-bit float.
    R8(u64),
    Token(Token),
    /// The displacements of a `switch`.
    Switch(Vec<i32>),
}

/// One decoded instruction: its opcode (`0xFExx` for the two-byte ones) and
/// its operand.
#[derive(Debug, Clone, PartialEq)]
pub struct RawOpcode {
    pub code: u16,
    pub operand: Operand,
}

/// The operand shape of every opcode that exists; `None` for the rest.
pub open spec fn operand_kind(code: u16) -> Option<OperandKind> {
    if code <= 0xD {
        Some(OperandKind::Empty)
    } else if code <= 0x13 {
        Some(OperandKind::U8)
    } else if code <= 0x1E {
        Some(OperandKind::Empty)
    } else if code <= 0x1F {
        Some(OperandKind::I8)
    } else if code <= 0x20 {
        Some(OperandKind::I32)
    } else if code <= 0x21 {
        Some(OperandKind::I64)
    } else if code <= 0x22 {
        Some(OperandKind::R4)
    } else if code <= 0x23 {
        Some(OperandKind::R8)
    } else if code <= 0x24 {
        None
    } else if code <= 0x26 {
        Some(OperandKind::Empty)
    } else if code <= 0x29 {
        Some(OperandKind::Token)
    } else if code <= 0x2A {
        Some(OperandKind::Empty)
    } else if code <= 0x37 {
        Some(OperandKind::I8)
    } else if code <= 0x44 {
        Some(OperandKind::I32)
    } else if code <= 0x45 {
        Some(OperandKind::Switch)
    } else if code <= 0x6E {
        Some(OperandKind::Empty)
    } else if code <= 0x75 {
        Some(OperandKind::Token)
    } else if code <= 0x76 {
        Some(OperandKind::Empty)
    } else if code <= 0x78 {
        None
    } else if code <= 0x79 {
        Some(OperandKind::Token)
    } else if code <= 0x7A {
        Some(OperandKind::Empty)
    } else if code <= 0x81 {
        Some(OperandKind::Token)
    } else if code <= 0x8B {
        Some(OperandKind::Empty)
    } else if code <= 0x8D {
        Some(OperandKind::Token)
    } else if code <= 0x8E {
        Some(OperandKind::Empty)
    } else if code <= 0x8F {
        Some(OperandKind::Token)
    } else if code <= 0xA2 {
        Some(OperandKind::Empty)
    } else if code <= 0xA5 {
        Some(OperandKind::Token)
    } else if code <= 0xB2 {
        None
    } else if code <= 0xBA {
        Some(OperandKind::Empty)
    } else if code <= 0xC1 {
        None
    } else if code <= 0xC3 {
        Some(OperandKind::Token)
    } else if code <= 0xC5 {
        None
    } else if code <= 0xC6 {
        Some(OperandKind::Token)
    } else if code <= 0xCF {
        None
    } else if code <= 0xD0 {
        Some(OperandKind::Token)
    } else if code <= 0xDC {
        Some(OperandKind::Empty)
    } else if code <= 0xDD {
        Some(OperandKind::I32)
    } else if code <= 0xDE {
        Some(OperandKind::I8)
    } else if code <= 0xE0 {
        Some(OperandKind::Empty)
    } else if code <= 0xFDFF {
        None
    } else if code <= 0xFE05 {
        Some(OperandKind::Empty)
    } else if code <= 0xFE07 {
        Some(OperandKind::Token)
    } else if code <= 0xFE08 {
        None
    } else if code <= 0xFE0E {
        Some(OperandKind::U16)
    } else if code <= 0xFE0F {
        Some(OperandKind::U32)
    } else if code <= 0xFE10 {
        None
    } else if code <= 0xFE14 {
        Some(OperandKind::Empty)
    } else if code <= 0xFE16 {
        Some(OperandKind::Token)
    } else if code <= 0xFE18 {
        Some(OperandKind::Empty)
    } else if code <= 0xFE1B {
        None
    } else if code <= 0xFE1C {
        Some(OperandKind::Token)
    } else {
        None
    }
}

/// The operand shape of `code`, where the opcode exists.
pub fn operand_kind_of(code: u16) -> (r: Option<OperandKind>)
    ensures
        r == operand_kind(code),
{
    if code <= 0xD {
        Some(OperandKind::Empty)
    } else if code <= 0x13 {
        Some(OperandKind::U8)
    } else if code <= 0x1E {
        Some(OperandKind::Empty)
    } else if code <= 0x1F {
        Some(OperandKind::I8)
    } else if code <= 0x20 {
        Some(OperandKind::I32)
    } else if code <= 0x21 {
        Some(OperandKind::I64)
    } else if code <= 0x22 {
        Some(OperandKind::R4)
    } else if code <= 0x23 {
        Some(OperandKind::R8)
    } else if code <= 0x24 {
        None
    } else if code <= 0x26 {
        Some(OperandKind::Empty)
    } else if code <= 0x29 {
        Some(OperandKind::Token)
    } else if code <= 0x2A {
        Some(OperandKind::Empty)
    } else if code <= 0x37 {
        Some(OperandKind::I8)
    } else if code <= 0x44 {
        Some(OperandKind::I32)
    } else if code <= 0x45 {
        Some(OperandKind::Switch)
    } else if code <= 0x6E {
        Some(OperandKind::Empty)
    } else if code <= 0x75 {
        Some(OperandKind::Token)
    } else if code <= 0x76 {
        Some(OperandKind::Empty)
    } else if code <= 0x78 {
        None
    } else if code <= 0x79 {
        Some(OperandKind::Token)
    } else if code <= 0x7A {
        Some(OperandKind::Empty)
    } else if code <= 0x81 {
        Some(OperandKind::Token)
    } else if code <= 0x8B {
        Some(OperandKind::Empty)
    } else if code <= 0x8D {
        Some(OperandKind::Token)
    } else if code <= 0x8E {
        Some(OperandKind::Empty)
    } else if code <= 0x8F {
        Some(OperandKind::Token)
    } else if code <= 0xA2 {
        Some(OperandKind::Empty)
    } else if code <= 0xA5 {
        Some(OperandKind::Token)
    } else if code <= 0xB2 {
        None
    } else if code <= 0xBA {
        Some(OperandKind::Empty)
    } else if code <= 0xC1 {
        None
    } else if code <= 0xC3 {
        Some(OperandKind::Token)
    } else if code <= 0xC5 {
        None
    } else if code <= 0xC6 {
        Some(OperandKind::Token)
    } else if code <= 0xCF {
        None
    } else if code <= 0xD0 {
        Some(OperandKind::Token)
    } else if code <= 0xDC {
        Some(OperandKind::Empty)
    } else if code <= 0xDD {
        Some(OperandKind::I32)
    } else if code <= 0xDE {
        Some(OperandKind::I8)
    } else if code <= 0xE0 {
        Some(OperandKind::Empty)
    } else if code <= 0xFDFF {
        None
    } else if code <= 0xFE05 {
        Some(OperandKind::Empty)
    } else if code <= 0xFE07 {
        Some(OperandKind::Token)
    } else if code <= 0xFE08 {
        None
    } else if code <= 0xFE0E {
        Some(OperandKind::U16)
    } else if code <= 0xFE0F {
        Some(OperandKind::U32)
    } else if code <= 0xFE10 {
        None
    } else if code <= 0xFE14 {
        Some(OperandKind::Empty)
    } else if code <= 0xFE16 {
        Some(OperandKind::Token)
    } else if code <= 0xFE18 {
        Some(OperandKind::Empty)
    } else if code <= 0xFE1B {
        None
    } else if code <= 0xFE1C {
        Some(OperandKind::Token)
    } else {
        None
    }
}

/// The opcode at `p` and its length (1, or 2 after the `0xFE` prefix).
pub open spec fn code_at(d: Seq<u8>, p: int) -> Option<(u16, int)> {
    if !fits(d, p, 1) {
        None
    } else if d[p] != 0xFE {
        Some((d[p] as u16, 1))
    } else if fits(d, p, 2) {
        Some(((0xFE00 + d[p + 1] as int) as u16, 2))
    } else {
        None
    }
}

/// The size in bytes of an operand of shape `k`; for `switch`, `n` targets.
pub open spec fn operand_size(k: OperandKind, n: int) -> int {
    match k {
        OperandKind::Empty => 0,
        OperandKind::U8 | OperandKind::I8 => 1,
        OperandKind::U16 => 2,
        OperandKind::I32 | OperandKind::U32 | OperandKind::R4 | OperandKind::Token => 4,
        OperandKind::I64 | OperandKind::R8 => 8,
        OperandKind::Switch => 4 + 4 * n,
    }
}

/// Whether operand `o` has shape `k`.
pub open spec fn operand_has_kind(o: Operand, k: OperandKind) -> bool {
    match o {
        Operand::Empty => k == OperandKind::Empty,
        Operand::U8(_) => k == OperandKind::U8,
        Operand::I8(_) => k == OperandKind::I8,
        Operand::U16(_) => k == OperandKind::U16,
        Operand::I32(_) => k == OperandKind::I32,
        Operand::U32(_) => k == OperandKind::U32,
        Operand::I64(_) => k == OperandKind::I64,
        Operand::R4(_) => k == OperandKind::R4,
        Operand::R8(_) => k == OperandKind::R8,
        Operand::Token(_) => k == OperandKind::Token,
        Operand::Switch(_) => k == OperandKind::Switch,
    }
}

/// Whether `o` is the operand of shape `k` encoded at `q`.
pub open spec fn operand_at(d: Seq<u8>, q: int, k: OperandKind, o: Operand) -> bool {
    match k {
        OperandKind::Empty => o == Operand::Empty,
        OperandKind::U8 => fits(d, q, 1) && o == Operand::U8(d[q]),
        OperandKind::I8 => fits(d, q, 1) && o == Operand::I8(d[q] as i8),
        OperandKind::U16 => fits(d, q, 2) && o == Operand::U16(le16(d, q) as u16),
        OperandKind::I32 => fits(d, q, 4) && o == Operand::I32(le32(d, q) as i32),
        OperandKind::U32 => fits(d, q, 4) && o == Operand::U32(le32(d, q) as u32),
        OperandKind::R4 => fits(d, q, 4) && o == Operand::R4(le32(d, q) as u32),
        OperandKind::Token => fits(d, q, 4) && o == Operand::Token(Token(le32(d, q) as u32)),
        OperandKind::I64 => fits(d, q, 8) && o == Operand::I64(le64(d, q) as i64),
        OperandKind::R8 => fits(d, q, 8) && o == Operand::R8(le64(d, q) as u64),
        OperandKind::Switch => fits(d, q, 4) && fits(d, q + 4, 4 * le32(d, q)) && match o {
            Operand::Switch(v) => v@.len() == le32(d, q) && forall|i: int|
                0 <= i < v@.len() ==> v@[i] == le32(d, q + 4 + 4 * i) as i32,
            _ => false,
        },
    }
}

/// Whether a whole instruction starts at `p`: a known opcode and an operand
/// that fits.
pub open spec fn decodable_at(d: Seq<u8>, p: int) -> bool {
    match code_at(d, p) {
        Some((c, h)) => match operand_kind(c) {
            Some(k) => if k == OperandKind::Switch {
                fits(d, p + h, 4) && fits(d, p + h + 4, 4 * le32(d, p + h))
            } else {
                fits(d, p + h, operand_size(k, 0))
            },
            None => false,
        },
        None => false,
    }
}

/// Whether `op` is the instruction encoded at `p`.
pub open spec fn instruction_at(d: Seq<u8>, p: int, op: RawOpcode) -> bool {
    match code_at(d, p) {
        Some((c, h)) => c == op.code && match operand_kind(c) {
            Some(k) => operand_at(d, p + h, k, op.operand),
            None => false,
        },
        None => false,
    }
}

impl RawOpcode {
    /// The number of `switch` targets, or 0.
    pub open spec fn target_count(self) -> int {
        match self.operand {
            Operand::Switch(v) => v@.len() as int,
            _ => 0,
        }
    }

    /// The encoded size: opcode bytes and operand bytes.
    pub open spec fn size_spec(self) -> int {
        (if self.code >= 0xFE00 { 2int } else { 1int }) + match operand_kind(self.code) {
            Some(k) => operand_size(k, self.target_count()),
            None => 0,
        }
    }

    /// Whether the value could come from decoding: a known opcode and a
    /// `switch` count that fits in 32 bits.
    pub open spec fn wf(self) -> bool {
        &&& operand_kind(self.code) matches Some(k) && operand_has_kind(self.operand, k)
        &&& self.target_count() <= u32::MAX
    }

    /// The encoded size in bytes.
    pub fn size(&self) -> (r: u64)
        requires
            self.wf(),
        ensures
            r == self.size_spec(),
    {
        let head: u64 = if self.code >= 0xFE00 { 2 } else { 1 };
        let body: u64 = match operand_kind_of(self.code) {
            Some(OperandKind::Empty) => 0,
            Some(OperandKind::U8) | Some(OperandKind::I8) => 1,
            Some(OperandKind::U16) => 2,
            Some(OperandKind::I64) | Some(OperandKind::R8) => 8,
            Some(OperandKind::Switch) => match &self.operand {
                Operand::Switch(v) => 4 + 4 * (v.len() as u64),
                _ => 4,
            },
            Some(_) => 4,
            None => 0,
        };
        head + body
    }

    /// Whether the opcode is one of the conditional or unconditional branches,
    /// short (`0x2B..=0x37`) or long (`0x38..=0x44`).
    pub open spec fn is_branch_spec(self) -> bool {
        0x2B <= self.code <= 0x44
    }

    /// Whether this is a branch instruction.
    pub fn is_branch(&self) -> (r: bool)
        ensures
            r == self.is_branch_spec(),
    {
        0x2B <= self.code && self.code <= 0x44
    }

    /// The displacement of a branch, counted from the end of the instruction.
    pub open spec fn displacement(self) -> int {
        match self.operand {
            Operand::I8(d) => d as int,
            Operand::I32(d) => d as int,
            _ => 0,
        }
    }

    /// For a branch, its target relative to the start of this instruction:
    /// the instruction's size plus its displacement.
    pub fn branch_offset(&self) -> (r: Option<i64>)
        requires
            self.wf(),
        ensures
            self.is_branch_spec() ==> r == Some((self.size_spec() + self.displacement()) as i64),
            !self.is_branch_spec() ==> r is None,
    {
        if !self.is_branch() {
            return None;
        }
        let size = self.size() as i64;
        let disp: i64 = match self.operand {
            Operand::I8(d) => d as i64,
            Operand::I32(d) => d as i64,
            _ => 0,
        };
        Some(size + disp)
    }

    /// For a branch at byte `offset`, the byte it jumps to.
    pub fn branch_target(&self, offset: u32) -> (r: Option<i64>)
        requires
            self.wf(),
        ensures
            self.is_branch_spec() ==> r == Some((offset + self.size_spec() + self.displacement()) as i64),
            !self.is_branch_spec() ==> r is None,
    {
        match self.branch_offset() {
            Some(rel) => Some(offset as i64 + rel),
            None => None,
        }
    }
}

/// Every branch at offset `o` jumps to `o` plus its size plus its
/// displacement, and the size of a branch is its one opcode byte plus a
/// one-byte (short form) or four-byte (long form) displacement.
pub proof fn lemma_branch_target(d: Seq<u8>, o: int, op: RawOpcode)
    requires
        instruction_at(d, o, op),
        op.is_branch_spec(),
    ensures
        op.size_spec() == (if op.code <= 0x37 { 2int } else { 5int }),
        op.displacement() == (if op.code <= 0x37 { d[o + 1] as i8 as int } else { le32(d, o + 1) as i32 as int }),
{
}

/// Decodes the instruction at `pos`.
pub fn decode_at(d: &[u8], pos: usize) -> (r: Option<RawOpcode>)
    ensures
        r is Some <==> decodable_at(d@, pos as int),
        r matches Some(op) ==> instruction_at(d@, pos as int, op) && op.wf()
            && pos + op.size_spec() <= d@.len(),
{
    let mut rd = ByteReader::new(d, pos);
    let first = rd.u8()?;
    let code: u16 = if first == 0xFE {
        let second = rd.u8()?;
        0xFE00 + second as u16
    } else {
        first as u16
    };
    let kind = operand_kind_of(code)?;
    let q = rd.pos;
    let operand = match kind {
        OperandKind::Empty => Operand::Empty,
        OperandKind::U8 => Operand::U8(rd.u8()?),
        OperandKind::I8 => Operand::I8(rd.u8()? as i8),
        OperandKind::U16 => Operand::U16(rd.u16()?),
        OperandKind::I32 => Operand::I32(rd.u32()? as i32),
        OperandKind::U32 => Operand::U32(rd.u32()?),
        OperandKind::R4 => Operand::R4(rd.u32()?),
        OperandKind::Token => Operand::Token(Token(rd.u32()?)),
        OperandKind::I64 => Operand::I64(rd.u64()? as i64),
        OperandKind::R8 => Operand::R8(rd.u64()?),
        OperandKind::Switch => {
            let n = rd.u32()?;
            if rd.pos > d.len() || (d.len() - rd.pos) / 4 < n as usize {
                return None;
            }
            let start = rd.pos;
            let mut targets: Vec<i32> = Vec::new();
            let mut i: u32 = 0;
            while i < n
                invariant
                    rd.data@ == d@,
                    start == q + 4,
                    n as int == le32(d@, q as int),
                    rd.pos == start + 4 * i,
                    start + 4 * n <= d@.len(),
                    i <= n,
                    targets@.len() == i,
                    forall|j: int| 0 <= j < i ==> targets@[j] == le32(d@, start + 4 * j) as i32,
                decreases n - i,
            {
                let t = rd.u32().unwrap();
                targets.push(t as i32);
                i = i + 1;
            }
            Operand::Switch(targets)
        },
    };
    Some(RawOpcode { code, operand })
}

/// The size of the instruction encoded at `p`, where one is.
pub open spec fn instr_size_at(d: Seq<u8>, p: int) -> int {
    match code_at(d, p) {
        Some((c, h)) => match operand_kind(c) {
            Some(k) => h + operand_size(k, if k == OperandKind::Switch { le32(d, p + h) } else { 0 }),
            None => 0,
        },
        None => 0,
    }
}

/// Whether the instructions from `p` on decode one after another and the
/// last ends exactly at the end of `d`.
pub open spec fn stream_ok(d: Seq<u8>, p: int) -> bool
    decreases d.len() - p,
{
    if p < 0 || p > d.len() {
        false
    } else if p == d.len() {
        true
    } else if !decodable_at(d, p) || instr_size_at(d, p) <= 0 {
        false
    } else {
        stream_ok(d, p + instr_size_at(d, p))
    }
}

/// The size of a decoded instruction is the size of the encoding it was
/// decoded from.
pub proof fn lemma_instruction_size(d: Seq<u8>, p: int, op: RawOpcode)
    requires
        instruction_at(d, p, op),
    ensures
        op.size_spec() == instr_size_at(d, p),
        op.size_spec() > 0,
{
}

/// Whether `ops` is the start of the instruction stream of `d`: the first at
/// offset 0, each next one right after the one before, each as encoded there.
pub open spec fn stream_prefix(d: Seq<u8>, ops: Seq<(u32, RawOpcode)>) -> bool {
    &&& forall|i: int| 0 <= i < ops.len() ==> instruction_at(d, ops[i].0 as int, #[trigger] ops[i].1) && ops[i].1.wf()
    &&& ops.len() > 0 ==> ops[0].0 == 0
    &&& forall|i: int| 0 <= i < ops.len() - 1 ==> #[trigger] ops[i + 1].0 == ops[i].0 + ops[i].1.size_spec()
}

/// The offset just after the last instruction of `ops` (0 for none).
pub open spec fn stream_end(ops: Seq<(u32, RawOpcode)>) -> int {
    if ops.len() == 0 {
        0
    } else {
        ops.last().0 + ops.last().1.size_spec()
    }
}

/// Decodes a whole method body into `(offset, instruction)` pairs. Fails where
/// an instruction is unknown or runs past the end.
pub fn decode_body(d: &[u8]) -> (r: Result<Vec<(u32, RawOpcode)>, Error>)
    requires
        d@.len() <= u32::MAX,
    ensures
        r is Ok <==> stream_ok(d@, 0),
        r matches Ok(ops) ==> stream_prefix(d@, ops@) && stream_end(ops@) == d@.len(),
        r matches Err(e) ==> e == Error::Malformed && exists|ops: Seq<(u32, RawOpcode)>|
            stream_prefix(d@, ops) && stream_end(ops) < d@.len() && !decodable_at(d@, stream_end(ops)),
{
    let mut ops: Vec<(u32, RawOpcode)> = Vec::new();
    let mut pos: usize = 0;
    while pos < d.len()
        invariant
            d@.len() <= u32::MAX,
            pos <= d@.len(),
            stream_prefix(d@, ops@),
            stream_end(ops@) == pos,
            stream_ok(d@, 0) == stream_ok(d@, pos as int),
        decreases d@.len() - pos,
    {
        match decode_at(d, pos) {
            Some(op) => {
                let size = op.size();
                proof {
                    lemma_instruction_size(d@, pos as int, op);
                }
                let ghost old_ops = ops@;
                ops.push((pos as u32, op));
                assert(ops@.last() == (pos as u32, op));
                assert forall|i: int| 0 <= i < ops@.len() - 1 implies #[trigger] ops@[i + 1].0 == ops@[i].0 + ops@[i].1.size_spec() by {
                    if i < ops@.len() - 2 {
                        assert(ops@[i + 1] == old_ops[i + 1]);
                    }
                }
                pos = pos + size as usize;
            },
            None => {
                return Err(Error::Malformed);
            },
        }
    }
    Ok(ops)
}

impl RawOpcode {
    /// A copy of an instruction other than `switch`.
    pub fn copy_plain(&self) -> (r: RawOpcode)
        requires
            !(self.operand is Switch),
        ensures
            r == *self,
    {
        let operand = match &self.operand {
            Operand::Empty => Operand::Empty,
            Operand::U8(x) => Operand::U8(*x),
            Operand::I8(x) => Operand::I8(*x),
            Operand::U16(x) => Operand::U16(*x),
            Operand::I32(x) => Operand::I32(*x),
            Operand::U32(x) => Operand::U32(*x),
            Operand::I64(x) => Operand::I64(*x),
            Operand::R4(x) => Operand::R4(*x),
            Operand::R8(x) => Operand::R8(*x),
            Operand::Token(t) => Operand::Token(*t),
            Operand::Switch(_) => Operand::Empty,
        };
        RawOpcode { code: self.code, operand }
    }

    /// Whether the instruction has a known opcode and a `switch` count that
    /// fits in 32 bits.
    pub fn is_wf(&self) -> (r: bool)
        ensures
            r == self.wf(),
    {
        match operand_kind_of(self.code) {
            Some(k) => match &self.operand {
                Operand::Empty => matches!(k, OperandKind::Empty),
                Operand::U8(_) => matches!(k, OperandKind::U8),
                Operand::I8(_) => matches!(k, OperandKind::I8),
                Operand::U16(_) => matches!(k, OperandKind::U16),
                Operand::I32(_) => matches!(k, OperandKind::I32),
                Operand::U32(_) => matches!(k, OperandKind::U32),
                Operand::I64(_) => matches!(k, OperandKind::I64),
                Operand::R4(_) => matches!(k, OperandKind::R4),
                Operand::R8(_) => matches!(k, OperandKind::R8),
                Operand::Token(_) => matches!(k, OperandKind::Token),
                Operand::Switch(v) => matches!(k, OperandKind::Switch) && v.len() <= u32::MAX as usize,
            },
            None => false,
        }
    }
}

/// The assembler mnemonic of every opcode that exists.
pub open spec fn mnemonic_spec(code: u16) -> Option<Seq<char>> {
    match code {
        0x0 => Some("nop"@),
        0x1 => Some("break"@),
        0x2 => Some("ldarg.0"@),
        0x3 => Some("ldarg.1"@),
        0x4 => Some("ldarg.2"@),
        0x5 => Some("ldarg.3"@),
        0x6 => Some("ldloc.0"@),
        0x7 => Some("ldloc.1"@),
        0x8 => Some("ldloc.2"@),
        0x9 => Some("ldloc.3"@),
        0xA => Some("stloc.0"@),
        0xB => Some("stloc.1"@),
        0xC => Some("stloc.2"@),
        0xD => Some("stloc.3"@),
        0xE => Some("ldarg.s"@),
        0xF => Some("ldarga.s"@),
        0x10 => Some("starg.s"@),
        0x11 => Some("ldloc.s"@),
        0x12 => Some("ldloca.s"@),
        0x13 => Some("stloc.s"@),
        0x14 => Some("ldnull"@),
        0x15 => Some("ldc.i4.m1"@),
        0x16 => Some("ldc.i4.0"@),
        0x17 => Some("ldc.i4.1"@),
        0x18 => Some("ldc.i4.2"@),
        0x19 => Some("ldc.i4.3"@),
        0x1A => Some("ldc.i4.4"@),
        0x1B => Some("ldc.i4.5"@),
        0x1C => Some("ldc.i4.6"@),
        0x1D => Some("ldc.i4.7"@),
        0x1E => Some("ldc.i4.8"@),
        0x1F => Some("ldc.i4.s"@),
        0x20 => Some("ldc.i4"@),
        0x21 => Some("ldc.i8"@),
        0x22 => Some("ldc.r4"@),
        0x23 => Some("ldc.r8"@),
        0x25 => Some("dup"@),
        0x26 => Some("pop"@),
        0x27 => Some("jmp"@),
        0x28 => Some("call"@),
        0x29 => Some("calli"@),
        0x2A => Some("ret"@),
        0x2B => Some("br.s"@),
        0x2C => Some("brfalse.s"@),
        0x2D => Some("brtrue.s"@),
        0x2E => Some("beq.s"@),
        0x2F => Some("bge.s"@),
        0x30 => Some("bgt.s"@),
        0x31 => Some("ble.s"@),
        0x32 => Some("blt.s"@),
        0x33 => Some("bne.un.s"@),
        0x34 => Some("bge.un.s"@),
        0x35 => Some("bgt.un.s"@),
        0x36 => Some("ble.un.s"@),
        0x37 => Some("blt.un.s"@),
        0x38 => Some("br"@),
        0x39 => Some("brfalse"@),
        0x3A => Some("brtrue"@),
        0x3B => Some("beq"@),
        0x3C => Some("bge"@),
        0x3D => Some("bgt"@),
        0x3E => Some("ble"@),
        0x3F => Some("blt"@),
        0x40 => Some("bne.un"@),
        0x41 => Some("bge.un"@),
        0x42 => Some("bgt.un"@),
        0x43 => Some("ble.un"@),
        0x44 => Some("blt.un"@),
        0x45 => Some("switch"@),
        0x46 => Some("ldind.i1"@),
        0x47 => Some("ldind.u1"@),
        0x48 => Some("ldind.i2"@),
        0x49 => Some("ldind.u2"@),
        0x4A => Some("ldind.i4"@),
        0x4B => Some("ldind.u4"@),
        0x4C => Some("ldind.i8"@),
        0x4D => Some("ldind.i"@),
        0x4E => Some("ldind.r4"@),
        0x4F => Some("ldind.r8"@),
        0x50 => Some("ldind.ref"@),
        0x51 => Some("stind.ref"@),
        0x52 => Some("stind.i1"@),
        0x53 => Some("stind.i2"@),
        0x54 => Some("stind.i4"@),
        0x55 => Some("stind.i8"@),
        0x56 => Some("stind.r4"@),
        0x57 => Some("stind.r8"@),
        0x58 => Some("add"@),
        0x59 => Some("sub"@),
        0x5A => Some("mul"@),
        0x5B => Some("div"@),
        0x5C => Some("div.un"@),
        0x5D => Some("rem"@),
        0x5E => Some("rem.un"@),
        0x5F => Some("and"@),
        0x60 => Some("or"@),
        0x61 => Some("xor"@),
        0x62 => Some("shl"@),
        0x63 => Some("shr"@),
        0x64 => Some("shr.un"@),
        0x65 => Some("neg"@),
        0x66 => Some("not"@),
        0x67 => Some("conv.i1"@),
        0x68 => Some("conv.i2"@),
        0x69 => Some("conv.i4"@),
        0x6A => Some("conv.i8"@),
        0x6B => Some("conv.r4"@),
        0x6C => Some("conv.r8"@),
        0x6D => Some("conv.u4"@),
        0x6E => Some("conv.u8"@),
        0x6F => Some("callvirt"@),
        0x70 => Some("cpobj"@),
        0x71 => Some("ldobj"@),
        0x72 => Some("ldstr"@),
        0x73 => Some("newobj"@),
        0x74 => Some("castclass"@),
        0x75 => Some("isinst"@),
        0x76 => Some("conv.r.un"@),
        0x79 => Some("unbox"@),
        0x7A => Some("throw"@),
        0x7B => Some("ldfld"@),
        0x7C => Some("ldflda"@),
        0x7D => Some("stfld"@),
        0x7E => Some("ldfld"@),
        0x7F => Some("ldflda"@),
        0x80 => Some("stsfld"@),
        0x81 => Some("stobj"@),
        0x82 => Some("conv.ovf.i1.un"@),
        0x83 => Some("conv.ovf.i2.un"@),
        0x84 => Some("conv.ovf.i4.un"@),
        0x85 => Some("conv.ovf.i8.un"@),
        0x86 => Some("conv.ovf.u1.un"@),
        0x87 => Some("conv.ovf.u2.un"@),
        0x88 => Some("conv.ovf.u4.un"@),
        0x89 => Some("conv.ovf.u8.un"@),
        0x8A => Some("conv.ovf.i.un"@),
        0x8B => Some("conv.ovf.u.un"@),
        0x8C => Some("box"@),
        0x8D => Some("newarr"@),
        0x8E => Some("ldlen"@),
        0x8F => Some("ldelema"@),
        0x90 => Some("ldelem.i1"@),
        0x91 => Some("ldelem.u1"@),
        0x92 => Some("ldelem.i2"@),
        0x93 => Some("ldelem.u2"@),
        0x94 => Some("ldelem.i4"@),
        0x95 => Some("ldelem.u4"@),
        0x96 => Some("ldelem.i8"@),
        0x97 => Some("ldelem.i"@),
        0x98 => Some("ldelem.r4"@),
        0x99 => Some("ldelem.r8"@),
        0x9A => Some("ldelem.ref"@),
        0x9B => Some("stelem.i"@),
        0x9C => Some("stelem.i1"@),
        0x9D => Some("stelem.i2"@),
        0x9E => Some("stelem.i4"@),
        0x9F => Some("stelem.i8"@),
        0xA0 => Some("stelem.r4"@),
        0xA1 => Some("stelem.r8"@),
        0xA2 => Some("stelem.ref"@),
        0xA3 => Some("ldelem.any"@),
        0xA4 => Some("stelem.any"@),
        0xA5 => Some("unbox.any"@),
        0xB3 => Some("conv.ovf.i1"@),
        0xB4 => Some("conv.ovf.u1"@),
        0xB5 => Some("conv.ovf.i2"@),
        0xB6 => Some("conv.ovf.u2"@),
        0xB7 => Some("conv.ovf.i4"@),
        0xB8 => Some("conv.ovf.u4"@),
        0xB9 => Some("conv.ovf.i8"@),
        0xBA => Some("conv.ovf.u8"@),
        0xC2 => Some("refanyval"@),
        0xC3 => Some("ckfinite"@),
        0xC6 => Some("mkrefany"@),
        0xD0 => Some("ldtoken"@),
        0xD1 => Some("conv.u2"@),
        0xD2 => Some("conv.u1"@),
        0xD3 => Some("conv.i"@),
        0xD4 => Some("conv.ovf.i"@),
        0xD5 => Some("conv.ovf.u"@),
        0xD6 => Some("add.ovf"@),
        0xD7 => Some("add.ovf.un"@),
        0xD8 => Some("mul.ovf"@),
        0xD9 => Some("mul.ovf.un"@),
        0xDA => Some("sub.ovf"@),
        0xDB => Some("sub.ovf.un"@),
        0xDC => Some("endfault/endfinally"@),
        0xDD => Some("leave"@),
        0xDE => Some("leave.s"@),
        0xDF => Some("stind.i"@),
        0xE0 => Some("conv.u"@),
        0xFE00 => Some("arglist"@),
        0xFE01 => Some("ceq"@),
        0xFE02 => Some("cgt"@),
        0xFE03 => Some("cgt.un"@),
        0xFE04 => Some("clt"@),
        0xFE05 => Some("clt.un"@),
        0xFE06 => Some("ldftn"@),
        0xFE07 => Some("ldvirtftn"@),
        0xFE09 => Some("ldarg"@),
        0xFE0A => Some("ldarga"@),
        0xFE0B => Some("starg"@),
        0xFE0C => Some("ldloc"@),
        0xFE0D => Some("ldloca"@),
        0xFE0E => Some("stloc"@),
        0xFE0F => Some("localloc"@),
        0xFE11 => Some("endfilter"@),
        0xFE12 => Some("unaligned."@),
        0xFE13 => Some("volatile."@),
        0xFE14 => Some("tail."@),
        0xFE15 => Some("initobj"@),
        0xFE16 => Some("constrained."@),
        0xFE17 => Some("cpblk"@),
        0xFE18 => Some("initblk"@),
        0xFE1C => Some("sizeof"@),
        _ => None,
    }
}

impl RawOpcode {
    /// The assembler mnemonic, such as `ldarg.0` or `br.s`.
    pub fn asm_name(&self) -> (r: &'static str)
        requires
            self.wf(),
        ensures
            mnemonic_spec(self.code) == Some(r@),
    {
        match self.code {
            0x0 => "nop",
            0x1 => "break",
            0x2 => "ldarg.0",
            0x3 => "ldarg.1",
            0x4 => "ldarg.2",
            0x5 => "ldarg.3",
            0x6 => "ldloc.0",
            0x7 => "ldloc.1",
            0x8 => "ldloc.2",
            0x9 => "ldloc.3",
            0xA => "stloc.0",
            0xB => "stloc.1",
            0xC => "stloc.2",
            0xD => "stloc.3",
            0xE => "ldarg.s",
            0xF => "ldarga.s",
            0x10 => "starg.s",
            0x11 => "ldloc.s",
            0x12 => "ldloca.s",
            0x13 => "stloc.s",
            0x14 => "ldnull",
            0x15 => "ldc.i4.m1",
            0x16 => "ldc.i4.0",
            0x17 => "ldc.i4.1",
            0x18 => "ldc.i4.2",
            0x19 => "ldc.i4.3",
            0x1A => "ldc.i4.4",
            0x1B => "ldc.i4.5",
            0x1C => "ldc.i4.6",
            0x1D => "ldc.i4.7",
            0x1E => "ldc.i4.8",
            0x1F => "ldc.i4.s",
            0x20 => "ldc.i4",
            0x21 => "ldc.i8",
            0x22 => "ldc.r4",
            0x23 => "ldc.r8",
            0x25 => "dup",
            0x26 => "pop",
            0x27 => "jmp",
            0x28 => "call",
            0x29 => "calli",
            0x2A => "ret",
            0x2B => "br.s",
            0x2C => "brfalse.s",
            0x2D => "brtrue.s",
            0x2E => "beq.s",
            0x2F => "bge.s",
            0x30 => "bgt.s",
            0x31 => "ble.s",
            0x32 => "blt.s",
            0x33 => "bne.un.s",
            0x34 => "bge.un.s",
            0x35 => "bgt.un.s",
            0x36 => "ble.un.s",
            0x37 => "blt.un.s",
            0x38 => "br",
            0x39 => "brfalse",
            0x3A => "brtrue",
            0x3B => "beq",
            0x3C => "bge",
            0x3D => "bgt",
            0x3E => "ble",
            0x3F => "blt",
            0x40 => "bne.un",
            0x41 => "bge.un",
            0x42 => "bgt.un",
            0x43 => "ble.un",
            0x44 => "blt.un",
            0x45 => "switch",
            0x46 => "ldind.i1",
            0x47 => "ldind.u1",
            0x48 => "ldind.i2",
            0x49 => "ldind.u2",
            0x4A => "ldind.i4",
            0x4B => "ldind.u4",
            0x4C => "ldind.i8",
            0x4D => "ldind.i",
            0x4E => "ldind.r4",
            0x4F => "ldind.r8",
            0x50 => "ldind.ref",
            0x51 => "stind.ref",
            0x52 => "stind.i1",
            0x53 => "stind.i2",
            0x54 => "stind.i4",
            0x55 => "stind.i8",
            0x56 => "stind.r4",
            0x57 => "stind.r8",
            0x58 => "add",
            0x59 => "sub",
            0x5A => "mul",
            0x5B => "div",
            0x5C => "div.un",
            0x5D => "rem",
            0x5E => "rem.un",
            0x5F => "and",
            0x60 => "or",
            0x61 => "xor",
            0x62 => "shl",
            0x63 => "shr",
            0x64 => "shr.un",
            0x65 => "neg",
            0x66 => "not",
            0x67 => "conv.i1",
            0x68 => "conv.i2",
            0x69 => "conv.i4",
            0x6A => "conv.i8",
            0x6B => "conv.r4",
            0x6C => "conv.r8",
            0x6D => "conv.u4",
            0x6E => "conv.u8",
            0x6F => "callvirt",
            0x70 => "cpobj",
            0x71 => "ldobj",
            0x72 => "ldstr",
            0x73 => "newobj",
            0x74 => "castclass",
            0x75 => "isinst",
            0x76 => "conv.r.un",
            0x79 => "unbox",
            0x7A => "throw",
            0x7B => "ldfld",
            0x7C => "ldflda",
            0x7D => "stfld",
            0x7E => "ldfld",
            0x7F => "ldflda",
            0x80 => "stsfld",
            0x81 => "stobj",
            0x82 => "conv.ovf.i1.un",
            0x83 => "conv.ovf.i2.un",
            0x84 => "conv.ovf.i4.un",
            0x85 => "conv.ovf.i8.un",
            0x86 => "conv.ovf.u1.un",
            0x87 => "conv.ovf.u2.un",
            0x88 => "conv.ovf.u4.un",
            0x89 => "conv.ovf.u8.un",
            0x8A => "conv.ovf.i.un",
            0x8B => "conv.ovf.u.un",
            0x8C => "box",
            0x8D => "newarr",
            0x8E => "ldlen",
            0x8F => "ldelema",
            0x90 => "ldelem.i1",
            0x91 => "ldelem.u1",
            0x92 => "ldelem.i2",
            0x93 => "ldelem.u2",
            0x94 => "ldelem.i4",
            0x95 => "ldelem.u4",
            0x96 => "ldelem.i8",
            0x97 => "ldelem.i",
            0x98 => "ldelem.r4",
            0x99 => "ldelem.r8",
            0x9A => "ldelem.ref",
            0x9B => "stelem.i",
            0x9C => "stelem.i1",
            0x9D => "stelem.i2",
            0x9E => "stelem.i4",
            0x9F => "stelem.i8",
            0xA0 => "stelem.r4",
            0xA1 => "stelem.r8",
            0xA2 => "stelem.ref",
            0xA3 => "ldelem.any",
            0xA4 => "stelem.any",
            0xA5 => "unbox.any",
            0xB3 => "conv.ovf.i1",
            0xB4 => "conv.ovf.u1",
            0xB5 => "conv.ovf.i2",
            0xB6 => "conv.ovf.u2",
            0xB7 => "conv.ovf.i4",
            0xB8 => "conv.ovf.u4",
            0xB9 => "conv.ovf.i8",
            0xBA => "conv.ovf.u8",
            0xC2 => "refanyval",
            0xC3 => "ckfinite",
            0xC6 => "mkrefany",
            0xD0 => "ldtoken",
            0xD1 => "conv.u2",
            0xD2 => "conv.u1",
            0xD3 => "conv.i",
            0xD4 => "conv.ovf.i",
            0xD5 => "conv.ovf.u",
            0xD6 => "add.ovf",
            0xD7 => "add.ovf.un",
            0xD8 => "mul.ovf",
            0xD9 => "mul.ovf.un",
            0xDA => "sub.ovf",
            0xDB => "sub.ovf.un",
            0xDC => "endfault/endfinally",
            0xDD => "leave",
            0xDE => "leave.s",
            0xDF => "stind.i",
            0xE0 => "conv.u",
            0xFE00 => "arglist",
            0xFE01 => "ceq",
            0xFE02 => "cgt",
            0xFE03 => "cgt.un",
            0xFE04 => "clt",
            0xFE05 => "clt.un",
            0xFE06 => "ldftn",
            0xFE07 => "ldvirtftn",
            0xFE09 => "ldarg",
            0xFE0A => "ldarga",
            0xFE0B => "starg",
            0xFE0C => "ldloc",
            0xFE0D => "ldloca",
            0xFE0E => "stloc",
            0xFE0F => "localloc",
            0xFE11 => "endfilter",
            0xFE12 => "unaligned.",
            0xFE13 => "volatile.",
            0xFE14 => "tail.",
            0xFE15 => "initobj",
            0xFE16 => "constrained.",
            0xFE17 => "cpblk",
            0xFE18 => "initblk",
            0xFE1C => "sizeof",
            _ => "",
        }
    }
}

} // verus!
