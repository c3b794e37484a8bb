//! The canonical opcode algebra: raw instructions lowered to a compact set of
//! operations, with the short and numbered forms folded into their general
//! ones.

use vstd::prelude::*;

use crate::meta::Token;
use crate::opcodes::{Operand, RawOpcode};

verus! {

/// Whether an arithmetic operation traps on overflow, and how.
#[derive(Debug, Clone, Copy, PartialEq, Eq, Structural)]
pub enum OverflowCheck {
    Off,
    Signed,
    Unsigned,
}

/// The relation of a comparison or conditional branch. `One` and `Zero` test
/// a single value for true and false.
#[derive(Debug, Clone, Copy, PartialEq, Eq, Structural)]
pub enum Comparison {
    Equal,
    Greater,
    GreaterOrEqual,
    Less,
    LessOrEqual,
    NotEqual,
    One,
    Zero,
}

impl Comparison {
    /// Whether the comparison tests a single value (`One` or `Zero`).
    pub open spec fn is_unary(self) -> bool {
        self == Comparison::One || self == Comparison::Zero
    }

    /// Returns true if the comparison is either `One` or `Zero`.
    pub fn is_true_false(&self) -> (r: bool)
        ensures
            r == self.is_unary(),
    {
        matches!(self, Comparison::One | Comparison::Zero)
    }

    /// The operator text of each comparison.
    pub open spec fn symbol_spec(self) -> Seq<char> {
        match self {
            Comparison::Equal => "=="@,
            Comparison::Greater => ">"@,
            Comparison::GreaterOrEqual => ">="@,
            Comparison::Less => "<"@,
            Comparison::LessOrEqual => "<="@,
            Comparison::NotEqual => "!="@,
            Comparison::One => "== true"@,
            Comparison::Zero => "== false"@,
        }
    }

    /// The operator text.
    pub fn symbol(&self) -> (r: &'static str)
        ensures
            r@ == self.symbol_spec(),
    {
        match self {
            Comparison::Equal => "==",
            Comparison::Greater => ">",
            Comparison::GreaterOrEqual => ">=",
            Comparison::Less => "<",
            Comparison::LessOrEqual => "<=",
            Comparison::NotEqual => "!=",
            Comparison::One => "== true",
            Comparison::Zero => "== false",
        }
    }

    /// The comparison written out: `lhs op rhs`, or `lhs op` for `One` and
    /// `Zero`, which take no right-hand side.
    pub fn operator(&self, lhs: &str, rhs: Option<&str>) -> (r: String)
        requires
            rhs is Some ==> !self.is_unary(),
        ensures
            rhs is None ==> r@ == lhs@ + " "@ + self.symbol_spec(),
            rhs matches Some(x) ==> r@ == lhs@ + " "@ + self.symbol_spec() + " "@ + x@,
    {
        let mut s = String::from_str(lhs);
        s.append(" ");
        s.append(self.symbol());
        if let Some(x) = rhs {
            s.append(" ");
            s.append(x);
        }
        s
    }
}

/// A lowered operation.
#[derive(Debug, Clone, PartialEq)]
pub enum Opcode {
    Nop,
    Break,
    Add(OverflowCheck),
    Subtract(OverflowCheck),
    Multiply(OverflowCheck),
    Divide { unsigned: bool },
    Remainder { unsigned: bool },
    Compare { comparison: Comparison, unsigned: bool },
    ShiftLeft,
    ShiftRight,
    And,
    Or,
    Xor,
    /// Load a user string onto the stack.
    LoadString(Token),
    LoadConstantI4(i32),
    LoadConstantI8(i64),
    /// A 32-bit float constant, as its IEEE-754 bits.
    LoadConstantR4(u32),
    /// A 64-bit float constant, as its IEEE-754 bits.
    LoadConstantR8(u64),
    LoadArg(u16),
    LoadArgAddress(u16),
    LoadLocal(u16),
    LoadLocalAddress(u16),
    StoreLocal(u16),
    Call(Token),
    Return,
    /// Unconditional branch by a displacement from the end of the instruction.
    Branch(i32),
    BranchConditional { offset: i32, comparison: Comparison, unsigned: bool },
    Switch { targets: Vec<i32> },
    SetField { field: Token },
    ConvertToI1,
    ConvertToI2,
    ConvertToI4,
    ConvertToI8,
}

/// The comparison of the `k`-th conditional branch of the run `beq`, `bge`,
/// `bgt`, `ble`, `blt`, `bne.un`, `bge.un`, `bgt.un`, `ble.un`, `blt.un`,
/// and whether it compares unsigned.
pub open spec fn branch_comparison(k: int) -> (Comparison, bool) {
    if k == 0 {
        (Comparison::Equal, false)
    } else if k == 1 {
        (Comparison::GreaterOrEqual, false)
    } else if k == 2 {
        (Comparison::Greater, false)
    } else if k == 3 {
        (Comparison::LessOrEqual, false)
    } else if k == 4 {
        (Comparison::Less, false)
    } else if k == 5 {
        (Comparison::NotEqual, true)
    } else if k == 6 {
        (Comparison::GreaterOrEqual, true)
    } else if k == 7 {
        (Comparison::Greater, true)
    } else if k == 8 {
        (Comparison::LessOrEqual, true)
    } else {
        (Comparison::Less, true)
    }
}

fn branch_comparison_of(k: u16) -> (r: (Comparison, bool))
    ensures
        r == branch_comparison(k as int),
{
    if k == 0 {
        (Comparison::Equal, false)
    } else if k == 1 {
        (Comparison::GreaterOrEqual, false)
    } else if k == 2 {
        (Comparison::Greater, false)
    } else if k == 3 {
        (Comparison::LessOrEqual, false)
    } else if k == 4 {
        (Comparison::Less, false)
    } else if k == 5 {
        (Comparison::NotEqual, true)
    } else if k == 6 {
        (Comparison::GreaterOrEqual, true)
    } else if k == 7 {
        (Comparison::Greater, true)
    } else if k == 8 {
        (Comparison::LessOrEqual, true)
    } else {
        (Comparison::Less, true)
    }
}

/// The lowering rules, by operand shape and opcode: `ldarg.0..3`,
/// `ldloc.0..3`, `stloc.0..3` and `ldc.i4.m1..8` carry their number in the
/// opcode; short forms widen their operand; the overflow-checking and
/// unsigned variants fold into a flag. `None` for opcodes outside the
/// supported subset.
pub open spec fn lowered(raw: RawOpcode) -> Option<Opcode> {
    let c = raw.code;
    match raw.operand {
        Operand::Empty => if c == 0x00 {
            Some(Opcode::Nop)
        } else if c == 0x01 {
            Some(Opcode::Break)
        } else if 0x02 <= c <= 0x05 {
            Some(Opcode::LoadArg((c - 0x02) as u16))
        } else if 0x06 <= c <= 0x09 {
            Some(Opcode::LoadLocal((c - 0x06) as u16))
        } else if 0x0A <= c <= 0x0D {
            Some(Opcode::StoreLocal((c - 0x0A) as u16))
        } else if 0x15 <= c <= 0x1E {
            Some(Opcode::LoadConstantI4((c - 0x16) as i32))
        } else if c == 0x2A {
            Some(Opcode::Return)
        } else if c == 0x58 {
            Some(Opcode::Add(OverflowCheck::Off))
        } else if c == 0x59 {
            Some(Opcode::Subtract(OverflowCheck::Off))
        } else if c == 0x5A {
            Some(Opcode::Multiply(OverflowCheck::Off))
        } else if c == 0x5B || c == 0x5C {
            Some(Opcode::Divide { unsigned: c == 0x5C })
        } else if c == 0x5D || c == 0x5E {
            Some(Opcode::Remainder { unsigned: c == 0x5E })
        } else if c == 0x5F {
            Some(Opcode::And)
        } else if c == 0x60 {
            Some(Opcode::Or)
        } else if c == 0x61 {
            Some(Opcode::Xor)
        } else if c == 0x62 {
            Some(Opcode::ShiftLeft)
        } else if c == 0x63 {
            Some(Opcode::ShiftRight)
        } else if c == 0x67 {
            Some(Opcode::ConvertToI1)
        } else if c == 0x68 {
            Some(Opcode::ConvertToI2)
        } else if c == 0x69 {
            Some(Opcode::ConvertToI4)
        } else if c == 0x6A {
            Some(Opcode::ConvertToI8)
        } else if c == 0xD6 || c == 0xD7 {
            Some(Opcode::Add(if c == 0xD6 { OverflowCheck::Signed } else { OverflowCheck::Unsigned }))
        } else if c == 0xD8 || c == 0xD9 {
            Some(Opcode::Multiply(if c == 0xD8 { OverflowCheck::Signed } else { OverflowCheck::Unsigned }))
        } else if c == 0xDA || c == 0xDB {
            Some(Opcode::Subtract(if c == 0xDA { OverflowCheck::Signed } else { OverflowCheck::Unsigned }))
        } else if c == 0xFE01 {
            Some(Opcode::Compare { comparison: Comparison::Equal, unsigned: false })
        } else if c == 0xFE02 || c == 0xFE03 {
            Some(Opcode::Compare { comparison: Comparison::Greater, unsigned: c == 0xFE03 })
        } else if c == 0xFE04 || c == 0xFE05 {
            Some(Opcode::Compare { comparison: Comparison::Less, unsigned: c == 0xFE05 })
        } else {
            None
        },
        Operand::U8(i) => if c == 0x0E {
            Some(Opcode::LoadArg(i as u16))
        } else if c == 0x0F {
            Some(Opcode::LoadArgAddress(i as u16))
        } else if c == 0x11 {
            Some(Opcode::LoadLocal(i as u16))
        } else if c == 0x12 {
            Some(Opcode::LoadLocalAddress(i as u16))
        } else if c == 0x13 {
            Some(Opcode::StoreLocal(i as u16))
        } else {
            None
        },
        Operand::U16(i) => if c == 0xFE09 {
            Some(Opcode::LoadArg(i))
        } else if c == 0xFE0A {
            Some(Opcode::LoadArgAddress(i))
        } else if c == 0xFE0C {
            Some(Opcode::LoadLocal(i))
        } else if c == 0xFE0D {
            Some(Opcode::LoadLocalAddress(i))
        } else if c == 0xFE0E {
            Some(Opcode::StoreLocal(i))
        } else {
            None
        },
        Operand::I8(v) => lowered_branch_or_constant(c, v as i32),
        Operand::I32(v) => lowered_branch_or_constant(c, v),
        Operand::I64(v) => if c == 0x21 {
            Some(Opcode::LoadConstantI8(v))
        } else {
            None
        },
        Operand::R4(b) => if c == 0x22 {
            Some(Opcode::LoadConstantR4(b))
        } else {
            None
        },
        Operand::R8(b) => if c == 0x23 {
            Some(Opcode::LoadConstantR8(b))
        } else {
            None
        },
        Operand::Token(t) => if c == 0x28 {
            Some(Opcode::Call(t))
        } else if c == 0x72 {
            Some(Opcode::LoadString(t))
        } else if c == 0x7D {
            Some(Opcode::SetField { field: t })
        } else {
            None
        },
        Operand::Switch(v) => if c == 0x45 {
            Some(Opcode::Switch { targets: v })
        } else {
            None
        },
        _ => None,
    }
}

/// The lowering of an opcode with a signed one- or four-byte operand `v`:
/// `ldc.i4.s`/`ldc.i4`, and the short (`0x2B..=0x37`) and long
/// (`0x38..=0x44`) branches.
pub open spec fn lowered_branch_or_constant(c: u16, v: i32) -> Option<Opcode> {
    if c == 0x1F || c == 0x20 {
        Some(Opcode::LoadConstantI4(v))
    } else if 0x2B <= c <= 0x44 {
        let k = if c <= 0x37 { c - 0x2B } else { c - 0x38 };
        if k == 0 {
            Some(Opcode::Branch(v))
        } else if k == 1 {
            Some(Opcode::BranchConditional { offset: v, comparison: Comparison::Zero, unsigned: false })
        } else if k == 2 {
            Some(Opcode::BranchConditional { offset: v, comparison: Comparison::One, unsigned: false })
        } else {
            Some(
                Opcode::BranchConditional {
                    offset: v,
                    comparison: branch_comparison(k - 3).0,
                    unsigned: branch_comparison(k - 3).1,
                },
            )
        }
    } else {
        None
    }
}

fn lower_branch_or_constant(c: u16, v: i32) -> (r: Option<Opcode>)
    ensures
        r == lowered_branch_or_constant(c, v),
{
    if c == 0x1F || c == 0x20 {
        Some(Opcode::LoadConstantI4(v))
    } else if 0x2B <= c && c <= 0x44 {
        let k = if c <= 0x37 { c - 0x2B } else { c - 0x38 };
        if k == 0 {
            Some(Opcode::Branch(v))
        } else if k == 1 {
            Some(Opcode::BranchConditional { offset: v, comparison: Comparison::Zero, unsigned: false })
        } else if k == 2 {
            Some(Opcode::BranchConditional { offset: v, comparison: Comparison::One, unsigned: false })
        } else {
            let (comparison, unsigned) = branch_comparison_of(k - 3);
            Some(Opcode::BranchConditional { offset: v, comparison, unsigned })
        }
    } else {
        None
    }
}

impl Opcode {
    /// Lowers a raw instruction; `None` where it is outside the supported
    /// subset.
    pub fn lower(raw: RawOpcode) -> (r: Option<Opcode>)
        ensures
            r == lowered(raw),
    {
        let c = raw.code;
        match raw.operand {
            Operand::Empty => if c == 0x00 {
                Some(Opcode::Nop)
            } else if c == 0x01 {
                Some(Opcode::Break)
            } else if 0x02 <= c && c <= 0x05 {
                Some(Opcode::LoadArg(c - 0x02))
            } else if 0x06 <= c && c <= 0x09 {
                Some(Opcode::LoadLocal(c - 0x06))
            } else if 0x0A <= c && c <= 0x0D {
                Some(Opcode::StoreLocal(c - 0x0A))
            } else if 0x15 <= c && c <= 0x1E {
                Some(Opcode::LoadConstantI4(c as i32 - 0x16))
            } else if c == 0x2A {
                Some(Opcode::Return)
            } else if c == 0x58 {
                Some(Opcode::Add(OverflowCheck::Off))
            } else if c == 0x59 {
                Some(Opcode::Subtract(OverflowCheck::Off))
            } else if c == 0x5A {
                Some(Opcode::Multiply(OverflowCheck::Off))
            } else if c == 0x5B || c == 0x5C {
                Some(Opcode::Divide { unsigned: c == 0x5C })
            } else if c == 0x5D || c == 0x5E {
                Some(Opcode::Remainder { unsigned: c == 0x5E })
            } else if c == 0x5F {
                Some(Opcode::And)
            } else if c == 0x60 {
                Some(Opcode::Or)
            } else if c == 0x61 {
                Some(Opcode::Xor)
            } else if c == 0x62 {
                Some(Opcode::ShiftLeft)
            } else if c == 0x63 {
                Some(Opcode::ShiftRight)
            } else if c == 0x67 {
                Some(Opcode::ConvertToI1)
            } else if c == 0x68 {
                Some(Opcode::ConvertToI2)
            } else if c == 0x69 {
                Some(Opcode::ConvertToI4)
            } else if c == 0x6A {
                Some(Opcode::ConvertToI8)
            } else if c == 0xD6 || c == 0xD7 {
                Some(Opcode::Add(if c == 0xD6 { OverflowCheck::Signed } else { OverflowCheck::Unsigned }))
            } else if c == 0xD8 || c == 0xD9 {
                Some(Opcode::Multiply(if c == 0xD8 { OverflowCheck::Signed } else { OverflowCheck::Unsigned }))
            } else if c == 0xDA || c == 0xDB {
                Some(Opcode::Subtract(if c == 0xDA { OverflowCheck::Signed } else { OverflowCheck::Unsigned }))
            } else if c == 0xFE01 {
                Some(Opcode::Compare { comparison: Comparison::Equal, unsigned: false })
            } else if c == 0xFE02 || c == 0xFE03 {
                Some(Opcode::Compare { comparison: Comparison::Greater, unsigned: c == 0xFE03 })
            } else if c == 0xFE04 || c == 0xFE05 {
                Some(Opcode::Compare { comparison: Comparison::Less, unsigned: c == 0xFE05 })
            } else {
                None
            },
            Operand::U8(i) => if c == 0x0E {
                Some(Opcode::LoadArg(i as u16))
            } else if c == 0x0F {
                Some(Opcode::LoadArgAddress(i as u16))
            } else if c == 0x11 {
                Some(Opcode::LoadLocal(i as u16))
            } else if c == 0x12 {
                Some(Opcode::LoadLocalAddress(i as u16))
            } else if c == 0x13 {
                Some(Opcode::StoreLocal(i as u16))
            } else {
                None
            },
            Operand::U16(i) => if c == 0xFE09 {
                Some(Opcode::LoadArg(i))
            } else if c == 0xFE0A {
                Some(Opcode::LoadArgAddress(i))
            } else if c == 0xFE0C {
                Some(Opcode::LoadLocal(i))
            } else if c == 0xFE0D {
                Some(Opcode::LoadLocalAddress(i))
            } else if c == 0xFE0E {
                Some(Opcode::StoreLocal(i))
            } else {
                None
            },
            Operand::I8(v) => lower_branch_or_constant(c, v as i32),
            Operand::I32(v) => lower_branch_or_constant(c, v),
            Operand::I64(v) => if c == 0x21 {
                Some(Opcode::LoadConstantI8(v))
            } else {
                None
            },
            Operand::R4(b) => if c == 0x22 {
                Some(Opcode::LoadConstantR4(b))
            } else {
                None
            },
            Operand::R8(b) => if c == 0x23 {
                Some(Opcode::LoadConstantR8(b))
            } else {
                None
            },
            Operand::Token(t) => if c == 0x28 {
                Some(Opcode::Call(t))
            } else if c == 0x72 {
                Some(Opcode::LoadString(t))
            } else if c == 0x7D {
                Some(Opcode::SetField { field: t })
            } else {
                None
            },
            Operand::Switch(v) => if c == 0x45 {
                Some(Opcode::Switch { targets: v })
            } else {
                None
            },
            _ => None,
        }
    }
}

} // verus!
