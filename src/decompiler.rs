//! The symbolic evaluator: runs a method body over a stack of expressions
//! and emits structured statements, with a label before every instruction
//! that a branch targets.

use vstd::prelude::*;

use crate::image::{blob_signature, callee_of, colon_path, dotted_name, CilImage, TypeName};
use crate::text::{numeral, numeral_string, padded_numeral, padded_numeral_string, signed_decimal, signed_decimal_string};
use crate::lowering::{lowered, Comparison, Opcode};
use crate::meta::{token_index, token_tag, Token};
use crate::opcodes::RawOpcode;
use crate::signature::{has_this_bit, ElementModel};
use crate::strings::user_string_at;

verus! {

/// Why a method body could not be decompiled.
#[derive(Debug, Clone, Copy, PartialEq, Eq, Structural)]
pub enum Error {
    /// An instruction needs more values than the stack holds.
    StackUnderflow,
    /// An instruction outside the supported subset, by its opcode.
    UnimplementedOpcode(u16),
    /// A string or method token that names nothing in the image.
    UnresolvedToken(Token),
    /// The method's signature or body could not be read.
    MalformedMethod,
}

/// A binary arithmetic or bitwise operator.
#[derive(Debug, Clone, Copy, PartialEq, Eq, Structural)]
pub enum BinaryOp {
    Add,
    Subtract,
    Multiply,
    Divide,
    Remainder,
    And,
    Or,
    Xor,
    ShiftLeft,
    ShiftRight,
}

/// A value on the evaluation stack.
#[derive(Debug, PartialEq)]
pub enum Expr {
    /// An integer literal.
    Int(i32),
    /// Argument `n` (`arg{n}`).
    Arg(u16),
    /// Local variable `n` (`var{n}`).
    Local(u16),
    /// The address of local variable `n`.
    AddressOf(u16),
    /// A string literal from the user-string heap.
    Str(String),
    /// The temporary that holds the result of a call (`temp{n}`).
    Temp(u64),
    Binary { op: BinaryOp, left: Box<Expr>, right: Box<Expr> },
    /// A comparison; `right` is absent for `One` and `Zero`.
    Compare { comparison: Comparison, left: Box<Expr>, right: Option<Box<Expr>> },
    /// A cast to a signed integer of `bits` bits.
    Convert { bits: u8, value: Box<Expr> },
}

/// One emitted statement.
#[derive(Debug, PartialEq)]
pub enum Statement {
    /// The label of the instruction at this offset (`IL_xxxx`).
    Label(u32),
    /// `var{local} = value;`
    Assign { local: u16, value: Expr },
    /// A call, its result stored in `temp{n}` where `result` is `Some(n)`.
    Call { callee_type: TypeName, method: String, args: Vec<Expr>, result: Option<u64> },
    /// A return, with the returned value unless the method returns nothing.
    Return(Option<Expr>),
    /// A jump to the label at a byte offset.
    Goto(i64),
    /// A jump taken when the condition holds.
    IfGoto { condition: Expr, target: i64 },
}

/// The binary operator of an operation that pops two values and pushes one
/// infix expression.
pub open spec fn binary_op(op: Opcode) -> Option<BinaryOp> {
    match op {
        Opcode::Add(_) => Some(BinaryOp::Add),
        Opcode::Subtract(_) => Some(BinaryOp::Subtract),
        Opcode::Multiply(_) => Some(BinaryOp::Multiply),
        Opcode::Divide { .. } => Some(BinaryOp::Divide),
        Opcode::Remainder { .. } => Some(BinaryOp::Remainder),
        Opcode::And => Some(BinaryOp::And),
        Opcode::Or => Some(BinaryOp::Or),
        Opcode::Xor => Some(BinaryOp::Xor),
        Opcode::ShiftLeft => Some(BinaryOp::ShiftLeft),
        Opcode::ShiftRight => Some(BinaryOp::ShiftRight),
        _ => None,
    }
}

/// The target width of a conversion.
pub open spec fn convert_bits(op: Opcode) -> Option<u8> {
    match op {
        Opcode::ConvertToI1 => Some(8u8),
        Opcode::ConvertToI2 => Some(16u8),
        Opcode::ConvertToI4 => Some(32u8),
        Opcode::ConvertToI8 => Some(64u8),
        _ => None,
    }
}

/// How many values a call pops: its parameters, and `this` where it has one.
pub open spec fn call_arity(params: nat, header: u8) -> int {
    params + if has_this_bit(header) { 1int } else { 0int }
}

/// Whether a signature's return type is `void`.
pub open spec fn returns_nothing(ret: ElementModel) -> bool {
    ret == ElementModel::Leaf(0x01)
}

/// The top `k` values of `s` and what is left below them.
pub open spec fn top(s: Seq<Expr>, k: int) -> Seq<Expr> {
    s.subrange(s.len() - k, s.len() as int)
}

pub open spec fn below(s: Seq<Expr>, k: int) -> Seq<Expr> {
    s.subrange(0, s.len() - k)
}

/// Why evaluating `op` (raw opcode `code`) on stack `s` fails, if it does.
pub open spec fn step_error(img: &CilImage, returns_void: bool, s: Seq<Expr>, op: Opcode, code: u16) -> Option<Error> {
    match op {
        Opcode::Nop | Opcode::LoadConstantI4(_) | Opcode::LoadArg(_) | Opcode::LoadLocal(_)
        | Opcode::LoadLocalAddress(_) | Opcode::Branch(_) => None,
        Opcode::LoadString(t) => if token_tag(t.0) == 0x70 && user_string_at(img.user_strings.bytes(), token_index(t.0) as int) is Some {
            None
        } else {
            Some(Error::UnresolvedToken(t))
        },
        Opcode::StoreLocal(_) | Opcode::ConvertToI1 | Opcode::ConvertToI2 | Opcode::ConvertToI4
        | Opcode::ConvertToI8 => if s.len() >= 1 {
            None
        } else {
            Some(Error::StackUnderflow)
        },
        Opcode::Add(_) | Opcode::Subtract(_) | Opcode::Multiply(_) | Opcode::Divide { .. }
        | Opcode::Remainder { .. } | Opcode::And | Opcode::Or | Opcode::Xor | Opcode::ShiftLeft
        | Opcode::ShiftRight | Opcode::Compare { .. } => if s.len() >= 2 {
            None
        } else {
            Some(Error::StackUnderflow)
        },
        Opcode::Return => if returns_void || s.len() >= 1 {
            None
        } else {
            Some(Error::StackUnderflow)
        },
        Opcode::BranchConditional { comparison, .. } => if s.len() >= (if comparison.is_unary() { 1int } else { 2int }) {
            None
        } else {
            Some(Error::StackUnderflow)
        },
        Opcode::Call(t) => match callee_of(img, t) {
            Some((_, _, _, sig)) => if s.len() >= call_arity(sig.parameters.len(), sig.header) {
                None
            } else {
                Some(Error::StackUnderflow)
            },
            None => Some(Error::UnresolvedToken(t)),
        },
        _ => Some(Error::UnimplementedOpcode(code)),
    }
}

/// Whether evaluating `op`, whose instruction ends at byte `next`, takes
/// stack `s` and temporary counter `temp` to `s2` and `temp2` and emits `out`.
pub open spec fn step_ok(
    img: &CilImage,
    returns_void: bool,
    s: Seq<Expr>,
    temp: u64,
    op: Opcode,
    next: int,
    s2: Seq<Expr>,
    temp2: u64,
    out: Seq<Statement>,
) -> bool {
    let n = s.len() as int;
    match op {
        Opcode::Nop => s2 == s && temp2 == temp && out.len() == 0,
        Opcode::LoadConstantI4(v) => s2 == s.push(Expr::Int(v)) && temp2 == temp && out.len() == 0,
        Opcode::LoadArg(i) => s2 == s.push(Expr::Arg(i)) && temp2 == temp && out.len() == 0,
        Opcode::LoadLocal(i) => s2 == s.push(Expr::Local(i)) && temp2 == temp && out.len() == 0,
        Opcode::LoadLocalAddress(i) => s2 == s.push(Expr::AddressOf(i)) && temp2 == temp && out.len() == 0,
        Opcode::LoadString(t) => {
            &&& s2.len() == n + 1
            &&& s2.drop_last() == s
            &&& s2.last() matches Expr::Str(x)
            &&& user_string_at(img.user_strings.bytes(), token_index(t.0) as int) == Some(x@)
            &&& temp2 == temp
            &&& out.len() == 0
        },
        Opcode::StoreLocal(i) => n >= 1 && s2 == below(s, 1) && temp2 == temp
            && out == seq![Statement::Assign { local: i, value: s.last() }],
        Opcode::Compare { comparison, .. } => n >= 2 && temp2 == temp && out.len() == 0 && s2 == below(s, 2).push(
            Expr::Compare { comparison, left: Box::new(s[n - 2]), right: Some(Box::new(s[n - 1])) },
        ),
        Opcode::Return => temp2 == temp && if returns_void {
            s2 == s && out == seq![Statement::Return(None)]
        } else {
            n >= 1 && s2 == below(s, 1) && out == seq![Statement::Return(Some(s.last()))]
        },
        Opcode::Call(t) => match callee_of(img, t) {
            Some((ns, name, method, sig)) => {
                let k = call_arity(sig.parameters.len(), sig.header);
                &&& n >= k
                &&& out.len() == 1
                &&& out[0] matches Statement::Call { callee_type, method: m, args, result }
                &&& callee_type.namespace@ == ns
                &&& callee_type.name@ == name
                &&& m@ == method
                &&& args@ == top(s, k)
                &&& if returns_nothing(sig.return_type) {
                    result is None && s2 == below(s, k) && temp2 == temp
                } else {
                    result == Some(temp) && s2 == below(s, k).push(Expr::Temp(temp)) && temp2 == temp + 1
                }
            },
            None => false,
        },
        Opcode::Branch(d) => s2 == s && temp2 == temp && out == seq![Statement::Goto((next + d) as i64)],
        Opcode::BranchConditional { offset, comparison, .. } => temp2 == temp && if comparison.is_unary() {
            n >= 1 && s2 == below(s, 1) && out == seq![
                Statement::IfGoto {
                    condition: Expr::Compare { comparison, left: Box::new(s[n - 1]), right: None },
                    target: (next + offset) as i64,
                },
            ]
        } else {
            n >= 2 && s2 == below(s, 2) && out == seq![
                Statement::IfGoto {
                    condition: Expr::Compare {
                        comparison,
                        left: Box::new(s[n - 2]),
                        right: Some(Box::new(s[n - 1])),
                    },
                    target: (next + offset) as i64,
                },
            ]
        },
        _ => match (binary_op(op), convert_bits(op)) {
            (Some(b), _) => n >= 2 && temp2 == temp && out.len() == 0 && s2 == below(s, 2).push(
                Expr::Binary { op: b, left: Box::new(s[n - 2]), right: Box::new(s[n - 1]) },
            ),
            (_, Some(bits)) => n >= 1 && temp2 == temp && out.len() == 0 && s2 == below(s, 1).push(
                Expr::Convert { bits, value: Box::new(s[n - 1]) },
            ),
            _ => false,
        },
    }
}

/// The evaluator's state: the expression stack, the statements so far, and
/// the number of the next temporary.
pub struct Evaluator {
    pub stack: Vec<Expr>,
    pub statements: Vec<Statement>,
    pub next_temp: u64,
}

impl Evaluator {
    pub fn new() -> (r: Evaluator)
        ensures
            r.stack@.len() == 0,
            r.statements@.len() == 0,
            r.next_temp == 0,
    {
        Evaluator { stack: Vec::new(), statements: Vec::new(), next_temp: 0 }
    }

    fn pop(&mut self) -> (r: Expr)
        requires
            old(self).stack@.len() >= 1,
        ensures
            r == old(self).stack@.last(),
            final(self).stack@ == old(self).stack@.drop_last(),
            final(self).statements == old(self).statements,
            final(self).next_temp == old(self).next_temp,
    {
        self.stack.pop().unwrap()
    }

    fn push_binary(&mut self, op: BinaryOp)
        requires
            old(self).stack@.len() >= 2,
        ensures
            final(self).stack@ == below(old(self).stack@, 2).push(Expr::Binary {
                op,
                left: Box::new(old(self).stack@[old(self).stack@.len() - 2]),
                right: Box::new(old(self).stack@.last()),
            }),
            final(self).statements == old(self).statements,
            final(self).next_temp == old(self).next_temp,
    {
        let right = self.pop();
        let left = self.pop();
        self.stack.push(Expr::Binary { op, left: Box::new(left), right: Box::new(right) });
        assert(old(self).stack@.drop_last().drop_last() =~= below(old(self).stack@, 2));
    }

    fn push_convert(&mut self, bits: u8)
        requires
            old(self).stack@.len() >= 1,
        ensures
            final(self).stack@ == below(old(self).stack@, 1).push(Expr::Convert { bits, value: Box::new(old(self).stack@.last()) }),
            final(self).statements == old(self).statements,
            final(self).next_temp == old(self).next_temp,
    {
        let value = self.pop();
        self.stack.push(Expr::Convert { bits, value: Box::new(value) });
    }

    /// Evaluates one lowered operation of raw opcode `code`, whose
    /// instruction ends at byte `next`.
    pub fn step(&mut self, img: &CilImage, returns_void: bool, op: Opcode, code: u16, next: i64) -> (r: Result<(), Error>)
        requires
            old(self).next_temp < u64::MAX,
            i64::MIN <= next + i32::MIN,
            next + i32::MAX <= i64::MAX,
        ensures
            r is Err <==> step_error(img, returns_void, old(self).stack@, op, code) is Some,
            r matches Err(e) ==> step_error(img, returns_void, old(self).stack@, op, code) == Some(e),
            r is Ok ==> {
                &&& final(self).statements@.len() >= old(self).statements@.len()
                &&& final(self).statements@.subrange(0, old(self).statements@.len() as int) == old(self).statements@
                &&& step_ok(img, returns_void, old(self).stack@, old(self).next_temp, op, next as int,
                    final(self).stack@, final(self).next_temp,
                    final(self).statements@.subrange(old(self).statements@.len() as int, final(self).statements@.len() as int))
            },
    {
        let ghost s0 = self.stack@;
        let ghost out0 = self.statements@;
        match op {
            Opcode::Nop => {},
            Opcode::LoadConstantI4(v) => self.stack.push(Expr::Int(v)),
            Opcode::LoadArg(i) => self.stack.push(Expr::Arg(i)),
            Opcode::LoadLocal(i) => self.stack.push(Expr::Local(i)),
            Opcode::LoadLocalAddress(i) => self.stack.push(Expr::AddressOf(i)),
            Opcode::LoadString(t) => {
                if t.kind_raw() != 0x70 {
                    return Err(Error::UnresolvedToken(t));
                }
                match img.user_strings.get(t) {
                    Some(x) => {
                        self.stack.push(Expr::Str(x));
                        assert(self.stack@.drop_last() =~= s0);
                    },
                    None => return Err(Error::UnresolvedToken(t)),
                }
            },
            Opcode::StoreLocal(i) => {
                if self.stack.len() < 1 {
                    return Err(Error::StackUnderflow);
                }
                let value = self.pop();
                self.statements.push(Statement::Assign { local: i, value });
            },
            Opcode::Add(_) | Opcode::Subtract(_) | Opcode::Multiply(_) | Opcode::Divide { .. }
            | Opcode::Remainder { .. } | Opcode::And | Opcode::Or | Opcode::Xor | Opcode::ShiftLeft
            | Opcode::ShiftRight => {
                if self.stack.len() < 2 {
                    return Err(Error::StackUnderflow);
                }
                let b = match op {
                    Opcode::Add(_) => BinaryOp::Add,
                    Opcode::Subtract(_) => BinaryOp::Subtract,
                    Opcode::Multiply(_) => BinaryOp::Multiply,
                    Opcode::Divide { .. } => BinaryOp::Divide,
                    Opcode::Remainder { .. } => BinaryOp::Remainder,
                    Opcode::And => BinaryOp::And,
                    Opcode::Or => BinaryOp::Or,
                    Opcode::Xor => BinaryOp::Xor,
                    Opcode::ShiftLeft => BinaryOp::ShiftLeft,
                    _ => BinaryOp::ShiftRight,
                };
                self.push_binary(b);
            },
            Opcode::Compare { comparison, .. } => {
                if self.stack.len() < 2 {
                    return Err(Error::StackUnderflow);
                }
                let right = self.pop();
                let left = self.pop();
                self.stack.push(Expr::Compare { comparison, left: Box::new(left), right: Some(Box::new(right)) });
                assert(s0.drop_last().drop_last() =~= below(s0, 2));
            },
            Opcode::ConvertToI1 | Opcode::ConvertToI2 | Opcode::ConvertToI4 | Opcode::ConvertToI8 => {
                if self.stack.len() < 1 {
                    return Err(Error::StackUnderflow);
                }
                let bits: u8 = match op {
                    Opcode::ConvertToI1 => 8,
                    Opcode::ConvertToI2 => 16,
                    Opcode::ConvertToI4 => 32,
                    _ => 64,
                };
                self.push_convert(bits);
            },
            Opcode::Return => {
                if returns_void {
                    self.statements.push(Statement::Return(None));
                } else {
                    if self.stack.len() < 1 {
                        return Err(Error::StackUnderflow);
                    }
                    let value = self.pop();
                    self.statements.push(Statement::Return(Some(value)));
                }
            },
            Opcode::Call(t) => {
                let (callee_type, method, sig) = match img.resolve_method(t) {
                    Some(r) => r,
                    None => return Err(Error::UnresolvedToken(t)),
                };
                proof {
                    crate::signature::lemma_models(sig.parameters@);
                }
                let params = sig.parameters.len();
                let this = sig.header.has_this();
                if self.stack.len() < params || (this && self.stack.len() - params < 1) {
                    return Err(Error::StackUnderflow);
                }
                let k = if this { params + 1 } else { params };
                let at = self.stack.len() - k;
                let args = self.stack.split_off(at);
                if matches!(sig.return_type, crate::signature::Element::Void) {
                    self.statements.push(Statement::Call { callee_type, method, args, result: None });
                } else {
                    let n = self.next_temp;
                    self.statements.push(Statement::Call { callee_type, method, args, result: Some(n) });
                    self.stack.push(Expr::Temp(n));
                    self.next_temp = n + 1;
                }
            },
            Opcode::Branch(d) => {
                self.statements.push(Statement::Goto(next + d as i64));
            },
            Opcode::BranchConditional { offset, comparison, .. } => {
                let target = next + offset as i64;
                if comparison.is_true_false() {
                    if self.stack.len() < 1 {
                        return Err(Error::StackUnderflow);
                    }
                    let value = self.pop();
                    let condition = Expr::Compare { comparison, left: Box::new(value), right: None };
                    self.statements.push(Statement::IfGoto { condition, target });
                } else {
                    if self.stack.len() < 2 {
                        return Err(Error::StackUnderflow);
                    }
                    let right = self.pop();
                    let left = self.pop();
                    let condition = Expr::Compare { comparison, left: Box::new(left), right: Some(Box::new(right)) };
                    self.statements.push(Statement::IfGoto { condition, target });
                    assert(s0.drop_last().drop_last() =~= below(s0, 2));
                }
            },
            _ => return Err(Error::UnimplementedOpcode(code)),
        }
        proof {
            let out = self.statements@.subrange(out0.len() as int, self.statements@.len() as int);
            assert(self.statements@.subrange(0, out0.len() as int) =~= out0);
            if out.len() == 1 {
                assert(out =~= seq![self.statements@.last()]);
            }
        }
        Ok(())
    }
}

/// Where a branch entry `(offset, instruction)` jumps to.
pub open spec fn branch_target_of(e: (u32, RawOpcode)) -> int {
    e.0 + e.1.size_spec() + e.1.displacement()
}

/// Whether some branch of `body` jumps to byte `x`.
pub open spec fn is_label(body: Seq<(u32, RawOpcode)>, x: int) -> bool {
    exists|i: int| 0 <= i < body.len() && (#[trigger] body[i]).1.is_branch_spec() && x == branch_target_of(body[i])
}

/// The offsets that the branches of `body` target.
pub open spec fn label_set(body: Seq<(u32, RawOpcode)>) -> Set<int> {
    Set::new(|x: int| is_label(body, x))
}

/// Whether `r` lists exactly the branch targets of `body`.
pub open spec fn labels_of(body: Seq<(u32, RawOpcode)>, r: Seq<i64>) -> bool {
    &&& forall|j: int| 0 <= j < r.len() ==> is_label(body, #[trigger] r[j] as int)
    &&& forall|i: int| 0 <= i < body.len() && (#[trigger] body[i]).1.is_branch_spec() ==> exists|j: int|
        0 <= j < r.len() && r[j] as int == branch_target_of(body[i])
}

/// The targets of every branch of a method body, in instruction order.
pub fn label_offsets(body: &Vec<(u32, RawOpcode)>) -> (r: Vec<i64>)
    requires
        forall|i: int| 0 <= i < body@.len() ==> (#[trigger] body@[i]).1.wf(),
    ensures
        labels_of(body@, r@),
{
    let mut r: Vec<i64> = Vec::new();
    let mut i: usize = 0;
    while i < body.len()
        invariant
            i <= body@.len(),
            forall|k: int| 0 <= k < body@.len() ==> (#[trigger] body@[k]).1.wf(),
            forall|j: int| 0 <= j < r@.len() ==> is_label(body@, #[trigger] r@[j] as int),
            forall|k: int| 0 <= k < i && (#[trigger] body@[k]).1.is_branch_spec() ==> exists|j: int|
                0 <= j < r@.len() && r@[j] as int == branch_target_of(body@[k]),
        decreases body@.len() - i,
    {
        let (off, op) = &body[i];
        let ghost old_r = r@;
        if let Some(t) = op.branch_target(*off) {
            assert(is_label(body@, t as int)) by {
                assert(body@[i as int].1.is_branch_spec());
            }
            r.push(t);
            assert(r@[r@.len() - 1] == t);
        }
        assert forall|k: int| 0 <= k < i + 1 && (#[trigger] body@[k]).1.is_branch_spec() implies exists|j: int|
            0 <= j < r@.len() && r@[j] as int == branch_target_of(body@[k]) by {
            if k < i {
                let j = choose|j: int| 0 <= j < old_r.len() && old_r[j] as int == branch_target_of(body@[k]);
                assert(r@[j] == old_r[j]);
            } else {
                assert(r@[r@.len() - 1] as int == branch_target_of(body@[k]));
            }
        }
        i = i + 1;
    }
    r
}

/// The offsets that a list holds.
pub open spec fn listed(a: Seq<i64>) -> Set<int> {
    Set::new(|x: int| exists|j: int| 0 <= j < a.len() && a[j] as int == x)
}

/// Recomputing the labels of a method body gives the same set: any two
/// lists that hold exactly its branch targets hold the same offsets, those
/// of `label_set`.
pub proof fn lemma_labels_determined(body: Seq<(u32, RawOpcode)>, a: Seq<i64>, b: Seq<i64>)
    requires
        labels_of(body, a),
        labels_of(body, b),
    ensures
        listed(a) == label_set(body),
        listed(a) == listed(b),
{
    lemma_listed_labels(body, a);
    lemma_listed_labels(body, b);
}

proof fn lemma_listed_labels(body: Seq<(u32, RawOpcode)>, a: Seq<i64>)
    requires
        labels_of(body, a),
    ensures
        listed(a) == label_set(body),
{
    assert forall|x: int| listed(a).contains(x) <==> label_set(body).contains(x) by {
        if listed(a).contains(x) {
            let j = choose|j: int| 0 <= j < a.len() && a[j] as int == x;
            assert(is_label(body, a[j] as int));
        }
        if label_set(body).contains(x) {
            let i = choose|i: int| 0 <= i < body.len() && (#[trigger] body[i]).1.is_branch_spec() && x == branch_target_of(body[i]);
            assert(body[i].1.is_branch_spec());
        }
    }
    assert(listed(a) =~= label_set(body));
}

/// Whether `labels` lists offset `off`.
fn has_label(labels: &Vec<i64>, off: i64) -> (r: bool)
    ensures
        r == exists|j: int| 0 <= j < labels@.len() && labels@[j] == off,
{
    let mut j: usize = 0;
    while j < labels.len()
        invariant
            j <= labels@.len(),
            forall|k: int| 0 <= k < j ==> labels@[k] != off,
        decreases labels@.len() - j,
    {
        if labels[j] == off {
            return true;
        }
        j = j + 1;
    }
    false
}

/// The label emitted before the instruction at `off`: one where a branch
/// targets it, none otherwise.
pub open spec fn label_before(body: Seq<(u32, RawOpcode)>, off: u32) -> Seq<Statement> {
    if is_label(body, off as int) {
        seq![Statement::Label(off)]
    } else {
        seq![]
    }
}

/// The statements of a run, step after step.
pub open spec fn joined(outs: Seq<Seq<Statement>>) -> Seq<Statement>
    decreases outs.len(),
{
    if outs.len() == 0 {
        seq![]
    } else {
        joined(outs.drop_last()) + outs.last()
    }
}

/// Whether step `i` of a traced run is the evaluation of instruction `i`:
/// its label, then what its lowered operation emits.
pub open spec fn step_in_run(
    img: &CilImage,
    returns_void: bool,
    body: Seq<(u32, RawOpcode)>,
    stacks: Seq<Seq<Expr>>,
    temps: Seq<u64>,
    outs: Seq<Seq<Statement>>,
    i: int,
) -> bool {
    let (off, raw) = body[i];
    let lb = label_before(body, off);
    &&& lowered(raw) matches Some(op)
    &&& outs[i].len() >= lb.len()
    &&& outs[i].subrange(0, lb.len() as int) == lb
    &&& step_ok(img, returns_void, stacks[i], temps[i], op, off + raw.size_spec(), stacks[i + 1], temps[i + 1],
        outs[i].subrange(lb.len() as int, outs[i].len() as int))
}

/// Whether `stacks`, `temps` and `outs` trace the evaluation of the first
/// `outs.len()` instructions of `body`, from an empty stack.
pub open spec fn run_ok(
    img: &CilImage,
    returns_void: bool,
    body: Seq<(u32, RawOpcode)>,
    stacks: Seq<Seq<Expr>>,
    temps: Seq<u64>,
    outs: Seq<Seq<Statement>>,
) -> bool {
    &&& outs.len() <= body.len()
    &&& stacks.len() == outs.len() + 1
    &&& temps.len() == outs.len() + 1
    &&& stacks[0].len() == 0
    &&& temps[0] == 0
    &&& forall|i: int| 0 <= i < outs.len() ==> #[trigger] step_in_run(img, returns_void, body, stacks, temps, outs, i)
}

/// Why instruction `(off, raw)` fails on stack `s`, if it does.
pub open spec fn instruction_error(img: &CilImage, returns_void: bool, s: Seq<Expr>, raw: RawOpcode) -> Option<Error> {
    match lowered(raw) {
        Some(op) => step_error(img, returns_void, s, op, raw.code),
        None => Some(Error::UnimplementedOpcode(raw.code)),
    }
}

/// Whether `r` is what evaluating `body` gives: the statements of a run of
/// every instruction, or the error of the first instruction that fails after
/// a run of those before it.
pub open spec fn decompiled(
    img: &CilImage,
    returns_void: bool,
    body: Seq<(u32, RawOpcode)>,
    r: Result<Vec<Statement>, Error>,
) -> bool {
    match r {
        Ok(stmts) => exists|stacks: Seq<Seq<Expr>>, temps: Seq<u64>, outs: Seq<Seq<Statement>>|
            run_ok(img, returns_void, body, stacks, temps, outs) && outs.len() == body.len()
            && stmts@ == joined(outs),
        Err(e) => exists|stacks: Seq<Seq<Expr>>, temps: Seq<u64>, outs: Seq<Seq<Statement>>|
            run_ok(img, returns_void, body, stacks, temps, outs) && outs.len() < body.len()
            && instruction_error(img, returns_void, stacks.last(), body[outs.len() as int].1) == Some(e),
    }
}

/// Decompiles a method body into statements. `returns_void` tells whether
/// the method's return type is `void`. Fails at the first instruction that
/// cannot be evaluated.
pub fn decompile(img: &CilImage, returns_void: bool, body: &Vec<(u32, RawOpcode)>) -> (r: Result<Vec<Statement>, Error>)
    requires
        forall|i: int| 0 <= i < body@.len() ==> (#[trigger] body@[i]).1.wf(),
    ensures
        decompiled(img, returns_void, body@, r),
{
    let labels = label_offsets(body);
    let mut ev = Evaluator::new();
    let ghost mut stacks: Seq<Seq<Expr>> = seq![ev.stack@];
    let ghost mut temps: Seq<u64> = seq![0u64];
    let ghost mut outs: Seq<Seq<Statement>> = seq![];
    let mut i: usize = 0;
    while i < body.len()
        invariant
            i <= body@.len(),
            forall|k: int| 0 <= k < body@.len() ==> (#[trigger] body@[k]).1.wf(),
            labels_of(body@, labels@),
            run_ok(img, returns_void, body@, stacks, temps, outs),
            outs.len() == i,
            stacks.last() == ev.stack@,
            temps.last() == ev.next_temp,
            ev.statements@ == joined(outs),
            ev.next_temp <= i,
        decreases body@.len() - i,
    {
        let (off, raw) = &body[i];
        let off = *off;
        let ghost before = ev.statements@;
        let labelled = has_label(&labels, off as i64);
        if labelled {
            ev.statements.push(Statement::Label(off));
        }
        proof {
            if labelled {
                let j = choose|j: int| 0 <= j < labels@.len() && labels@[j] == off as i64;
                assert(is_label(body@, labels@[j] as int));
            } else if is_label(body@, off as int) {
                let k = choose|k: int| 0 <= k < body@.len() && (#[trigger] body@[k]).1.is_branch_spec() && off as int == branch_target_of(body@[k]);
                assert(body@[k].1.is_branch_spec());
            }
            assert(label_before(body@, off) =~= ev.statements@.subrange(before.len() as int, ev.statements@.len() as int));
        }
        let ghost mid = ev.statements@;
        if matches!(raw.operand, crate::opcodes::Operand::Switch(_)) {
            return Err(Error::UnimplementedOpcode(raw.code));
        }
        let op = match Opcode::lower(raw.copy_plain()) {
            Some(op) => op,
            None => return Err(Error::UnimplementedOpcode(raw.code)),
        };
        let next = off as i64 + raw.size() as i64;
        match ev.step(img, returns_void, op, raw.code, next) {
            Ok(()) => {},
            Err(e) => return Err(e),
        }
        proof {
            let out = ev.statements@.subrange(before.len() as int, ev.statements@.len() as int);
            let lb = label_before(body@, off);
            assert(out.subrange(0, lb.len() as int) =~= lb);
            assert(out.subrange(lb.len() as int, out.len() as int) =~= ev.statements@.subrange(mid.len() as int, ev.statements@.len() as int));
            let old_stacks = stacks;
            let old_temps = temps;
            let old_outs = outs;
            stacks = stacks.push(ev.stack@);
            temps = temps.push(ev.next_temp);
            outs = outs.push(out);
            assert(outs.drop_last() =~= old_outs);
            assert(mid.subrange(0, before.len() as int) =~= before);
            assert(ev.statements@.subrange(0, before.len() as int) =~= before);
            assert(ev.statements@ =~= joined(old_outs) + out);
            assert forall|k: int| 0 <= k < outs.len() implies #[trigger] step_in_run(img, returns_void, body@, stacks, temps, outs, k) by {
                if k < old_outs.len() {
                    assert(step_in_run(img, returns_void, body@, old_stacks, old_temps, old_outs, k));
                    assert(stacks[k] == old_stacks[k] && stacks[k + 1] == old_stacks[k + 1]);
                    assert(temps[k] == old_temps[k] && temps[k + 1] == old_temps[k + 1]);
                    assert(outs[k] == old_outs[k]);
                }
            }
        }
        i = i + 1;
    }
    Ok(ev.statements)
}

/// Stack balance at a return: a `void` method's return emits a bare return
/// and leaves the stack as it was; any other pops exactly the one value that
/// it returns. So a well-formed body that reaches its return with an empty
/// stack (`void`) or one value ends with an empty stack.
pub proof fn lemma_return_balance(
    img: &CilImage,
    returns_void: bool,
    s: Seq<Expr>,
    temp: u64,
    next: int,
    s2: Seq<Expr>,
    temp2: u64,
    out: Seq<Statement>,
)
    requires
        step_ok(img, returns_void, s, temp, Opcode::Return, next, s2, temp2, out),
    ensures
        returns_void ==> s2 == s && out == seq![Statement::Return(None)],
        !returns_void ==> s.len() >= 1 && s2.len() == s.len() - 1 && out == seq![Statement::Return(Some(s.last()))],
        s.len() == (if returns_void { 0int } else { 1int }) ==> s2.len() == 0,
{
}

/// Call arity: a call pops its parameters and, where the callee has one,
/// `this`; the popped values become the arguments in order, and a result
/// that is not `void` is pushed back as a fresh temporary.
pub proof fn lemma_call_arity(
    img: &CilImage,
    returns_void: bool,
    s: Seq<Expr>,
    temp: u64,
    t: Token,
    next: int,
    s2: Seq<Expr>,
    temp2: u64,
    out: Seq<Statement>,
)
    requires
        step_ok(img, returns_void, s, temp, Opcode::Call(t), next, s2, temp2, out),
    ensures
        callee_of(img, t) matches Some((_, _, _, sig)) && {
            let k = sig.parameters.len() + if has_this_bit(sig.header) { 1int } else { 0int };
            &&& s.len() >= k
            &&& out.len() == 1
            &&& out[0] matches Statement::Call { args, result, .. } && args@.len() == k
                && args@ == s.subrange(s.len() - k, s.len() as int)
                && (returns_nothing(sig.return_type) <==> result is None)
            &&& s2.len() == s.len() - k + if returns_nothing(sig.return_type) { 0int } else { 1int }
        },
{
}

/// Whether the method of row `i` of `MethodDef` returns nothing: its
/// signature blob is empty, or its return type is `void`. `None` where the
/// blob is missing or does not parse.
pub open spec fn method_returns_void(img: &CilImage, i: int) -> Option<bool> {
    let row = img.method_defs@[i].method;
    match crate::strings::blob_range(img.blobs.bytes(), row.signature_blob_index as int) {
        Some((s, e)) => if s == e {
            Some(true)
        } else {
            match blob_signature(img, row.signature_blob_index) {
                Some(sig) => Some(returns_nothing(sig.return_type)),
                None => None,
            }
        },
        None => None,
    }
}

/// Decompiles method `index` (0-based) of the image: its signature says
/// whether it returns a value, its body gives the instructions.
pub fn decompile_method(img: &CilImage, index: usize) -> (r: Result<Vec<Statement>, Error>)
    ensures
        index >= img.method_defs@.len() ==> r == Err::<Vec<Statement>, Error>(Error::MalformedMethod),
        index < img.method_defs@.len() ==> match (method_returns_void(img, index as int), img.method_defs@[index as int].body) {
            (Some(rv), Ok(b)) => if all_wf_spec(b.opcodes@) {
                decompiled(img, rv, b.opcodes@, r)
            } else {
                r == Err::<Vec<Statement>, Error>(Error::MalformedMethod)
            },
            _ => r == Err::<Vec<Statement>, Error>(Error::MalformedMethod),
        },
{
    if index >= img.method_defs.len() {
        return Err(Error::MalformedMethod);
    }
    let entry = &img.method_defs[index];
    let blob = match img.blobs.get(entry.method.signature_blob_index as u32) {
        Some(b) => b,
        None => return Err(Error::MalformedMethod),
    };
    let returns_void = if blob.len() == 0 {
        true
    } else {
        match crate::signature::StandaloneMethodSignature::parse(blob) {
            Ok(sig) => {
                proof {
                    crate::signature::lemma_void_model(sig.return_type);
                }
                matches!(sig.return_type, crate::signature::Element::Void)
            },
            Err(_) => return Err(Error::MalformedMethod),
        }
    };
    match &entry.body {
        Ok(b) => {
            if !all_wf(&b.opcodes) {
                return Err(Error::MalformedMethod);
            }
            let r = decompile(img, returns_void, &b.opcodes);
            assert(method_returns_void(img, index as int) == Some(returns_void));
            r
        },
        Err(_) => Err(Error::MalformedMethod),
    }
}

/// Whether every instruction of `body` is well formed.
pub open spec fn all_wf_spec(body: Seq<(u32, RawOpcode)>) -> bool {
    forall|i: int| 0 <= i < body.len() ==> (#[trigger] body[i]).1.wf()
}

/// Whether every instruction of `body` is well formed.
fn all_wf(body: &Vec<(u32, RawOpcode)>) -> (r: bool)
    ensures
        r == all_wf_spec(body@),
{
    let mut i: usize = 0;
    while i < body.len()
        invariant
            i <= body@.len(),
            forall|k: int| 0 <= k < i ==> (#[trigger] body@[k]).1.wf(),
        decreases body@.len() - i,
    {
        if !body[i].1.is_wf() {
            return false;
        }
        i = i + 1;
    }
    true
}

impl BinaryOp {
    /// The infix operator text.
    pub open spec fn symbol_spec(self) -> Seq<char> {
        match self {
            BinaryOp::Add => "+"@,
            BinaryOp::Subtract => "-"@,
            BinaryOp::Multiply => "*"@,
            BinaryOp::Divide => "/"@,
            BinaryOp::Remainder => "%"@,
            BinaryOp::And => "&"@,
            BinaryOp::Or => "|"@,
            BinaryOp::Xor => "^"@,
            BinaryOp::ShiftLeft => "<<"@,
            BinaryOp::ShiftRight => ">>"@,
        }
    }

    /// The infix operator text.
    pub fn symbol(&self) -> (r: &'static str)
        ensures
            r@ == self.symbol_spec(),
    {
        match self {
            BinaryOp::Add => "+",
            BinaryOp::Subtract => "-",
            BinaryOp::Multiply => "*",
            BinaryOp::Divide => "/",
            BinaryOp::Remainder => "%",
            BinaryOp::And => "&",
            BinaryOp::Or => "|",
            BinaryOp::Xor => "^",
            BinaryOp::ShiftLeft => "<<",
            BinaryOp::ShiftRight => ">>",
        }
    }
}

/// The source text of an expression: literals, `arg{n}`, `var{n}`,
/// `&var{n}`, quoted strings, `temp{n}`, parenthesized infix operations,
/// comparisons and `static_cast<int{bits}>(...)`.
pub open spec fn expr_text(e: Expr) -> Seq<char>
    decreases e,
{
    match e {
        Expr::Int(v) => signed_decimal(v as int),
        Expr::Arg(i) => "arg"@ + numeral(i as nat, 10),
        Expr::Local(i) => "var"@ + numeral(i as nat, 10),
        Expr::AddressOf(i) => "&var"@ + numeral(i as nat, 10),
        Expr::Str(x) => "\""@ + x@ + "\""@,
        Expr::Temp(n) => "temp"@ + numeral(n as nat, 10),
        Expr::Binary { op, left, right } => "("@ + expr_text(*left) + " "@ + op.symbol_spec() + " "@ + expr_text(*right) + ")"@,
        Expr::Compare { comparison, left, right } => match right {
            Some(r) => expr_text(*left) + " "@ + comparison.symbol_spec() + " "@ + expr_text(*r),
            None => expr_text(*left) + " "@ + comparison.symbol_spec(),
        },
        Expr::Convert { bits, value } => "static_cast<int"@ + numeral(bits as nat, 10) + ">("@ + expr_text(*value) + ")"@,
    }
}

/// `prefix` followed by the decimal numeral of `n`.
fn prefixed(prefix: &str, n: u64) -> (r: String)
    ensures
        r@ == prefix@ + numeral(n as nat, 10),
{
    let mut s = String::from_str(prefix);
    s.append(numeral_string(n, 10).as_str());
    s
}

impl Expr {
    /// The expression as source text.
    pub fn text(&self) -> (r: String)
        ensures
            r@ == expr_text(*self),
        decreases self,
    {
        match self {
            Expr::Int(v) => signed_decimal_string(*v as i64),
            Expr::Arg(i) => prefixed("arg", *i as u64),
            Expr::Local(i) => prefixed("var", *i as u64),
            Expr::AddressOf(i) => prefixed("&var", *i as u64),
            Expr::Str(x) => {
                let mut s = String::from_str("\"");
                s.append(x.as_str());
                s.append("\"");
                s
            },
            Expr::Temp(n) => prefixed("temp", *n),
            Expr::Binary { op, left, right } => {
                let mut s = String::from_str("(");
                s.append(left.text().as_str());
                s.append(" ");
                s.append(op.symbol());
                s.append(" ");
                s.append(right.text().as_str());
                s.append(")");
                s
            },
            Expr::Compare { comparison, left, right } => {
                let mut s = left.text();
                s.append(" ");
                s.append(comparison.symbol());
                if let Some(r) = right {
                    s.append(" ");
                    s.append(r.text().as_str());
                }
                s
            },
            Expr::Convert { bits, value } => {
                let mut s = prefixed("static_cast<int", *bits as u64);
                s.append(">(");
                s.append(value.text().as_str());
                s.append(")");
                s
            },
        }
    }
}

/// The arguments of a call, separated by `", "`.
pub open spec fn args_text(s: Seq<Expr>) -> Seq<char>
    decreases s.len(),
{
    if s.len() == 0 {
        seq![]
    } else if s.len() == 1 {
        expr_text(s[0])
    } else {
        args_text(s.drop_last()) + ", "@ + expr_text(s.last())
    }
}

/// Whether `s` ends with `t`.
pub open spec fn ends_with(s: Seq<char>, t: Seq<char>) -> bool {
    s.len() >= t.len() && s.subrange(s.len() - t.len(), s.len() as int) == t
}

/// How a call names its callee: a constructor (`.ctor`) as `Type::new`, any
/// other method as `Type::Method` with its dots written `::`; calls within the
/// enclosing type (type `this`) without a type.
pub open spec fn callee_path(t: TypeName, method: Seq<char>) -> Seq<char> {
    let member = if ends_with(method, ".ctor"@) { "new"@ } else { colon_path(method) };
    if t.namespace@.len() == 0 && t.name@ == "this"@ {
        member
    } else {
        colon_path(dotted_name(t.namespace@, t.name@)) + "::"@ + member
    }
}

/// The label text of a byte offset, `IL_` and four or more hex digits.
pub open spec fn label_text(off: u32) -> Seq<char> {
    "IL_"@ + padded_numeral(off as nat, 16, 4)
}

/// The source line of a statement.
pub open spec fn statement_text(s: Statement) -> Seq<char> {
    match s {
        Statement::Label(off) => label_text(off) + ":"@,
        Statement::Assign { local, value } => "    var"@ + numeral(local as nat, 10) + " = "@ + expr_text(value) + ";"@,
        Statement::Call { callee_type, method, args, result } => match result {
            Some(k) => "    auto temp"@ + numeral(k as nat, 10) + " = "@ + callee_path(callee_type, method@) + "("@
                + args_text(args@) + ");"@,
            None => "    "@ + callee_path(callee_type, method@) + "("@ + args_text(args@) + ");"@,
        },
        Statement::Return(v) => match v {
            Some(e) => "    return "@ + expr_text(e) + ";"@,
            None => "    return;"@,
        },
        Statement::Goto(t) => "    goto "@ + label_text(t as u32) + ";"@,
        Statement::IfGoto { condition, target } => "    if ("@ + expr_text(condition) + ") goto "@ + label_text(target as u32) + ";"@,
    }
}

/// The label text of an offset.
fn label_string(off: u32) -> (r: String)
    ensures
        r@ == label_text(off),
{
    let mut s = String::from_str("IL_");
    s.append(padded_numeral_string(off as u64, 16, 4).as_str());
    s
}

/// Whether `s` ends with `.ctor`.
fn is_constructor(s: &str) -> (r: bool)
    ensures
        r == ends_with(s@, ".ctor"@),
{
    proof {
        reveal_strlit(".ctor");
    }
    let n = s.unicode_len();
    if n < 5 {
        return false;
    }
    let tail = String::from_str(s.substring_char(n - 5, n));
    tail == String::from_str(".ctor")
}

impl TypeName {
    /// Whether this is the placeholder type `this` of a method of the
    /// enclosing type.
    fn is_this(&self) -> (r: bool)
        ensures
            r == (self.namespace@.len() == 0 && self.name@ == "this"@),
    {
        self.namespace.as_str().is_empty() && self.name == String::from_str("this")
    }
}

/// The callee of a call as a path.
fn callee_path_string(t: &TypeName, method: &String) -> (r: String)
    ensures
        r@ == callee_path(*t, method@),
{
    let member = if is_constructor(method.as_str()) {
        String::from_str("new")
    } else {
        crate::image::dots_to_colons(method.as_str())
    };
    if t.is_this() {
        member
    } else {
        let mut s = t.path_cxx();
        s.append("::");
        s.append(member.as_str());
        s
    }
}

/// The arguments of a call as text.
fn args_string(args: &Vec<Expr>) -> (r: String)
    ensures
        r@ == args_text(args@),
{
    let mut s = String::new();
    let mut i: usize = 0;
    while i < args.len()
        invariant
            i <= args@.len(),
            s@ == args_text(args@.subrange(0, i as int)),
        decreases args@.len() - i,
    {
        if i > 0 {
            s.append(", ");
        }
        s.append(args[i].text().as_str());
        proof {
            let next = args@.subrange(0, i + 1);
            assert(next.drop_last() =~= args@.subrange(0, i as int));
            assert(next.last() == args@[i as int]);
            if i == 0 {
                assert(s@ =~= args_text(next));
            }
        }
        i = i + 1;
    }
    assert(args@.subrange(0, args@.len() as int) =~= args@);
    s
}

impl Statement {
    /// The statement as a source line.
    pub fn text(&self) -> (r: String)
        ensures
            r@ == statement_text(*self),
    {
        match self {
            Statement::Label(off) => {
                let mut s = label_string(*off);
                s.append(":");
                s
            },
            Statement::Assign { local, value } => {
                let mut s = prefixed("    var", *local as u64);
                s.append(" = ");
                s.append(value.text().as_str());
                s.append(";");
                s
            },
            Statement::Call { callee_type, method, args, result } => {
                let mut s = match result {
                    Some(k) => {
                        let mut s = prefixed("    auto temp", *k);
                        s.append(" = ");
                        s
                    },
                    None => String::from_str("    "),
                };
                s.append(callee_path_string(callee_type, method).as_str());
                s.append("(");
                s.append(args_string(args).as_str());
                s.append(");");
                s
            },
            Statement::Return(v) => match v {
                Some(e) => {
                    let mut s = String::from_str("    return ");
                    s.append(e.text().as_str());
                    s.append(";");
                    s
                },
                None => String::from_str("    return;"),
            },
            Statement::Goto(t) => {
                let mut s = String::from_str("    goto ");
                s.append(label_string(*t as u32).as_str());
                s.append(";");
                s
            },
            Statement::IfGoto { condition, target } => {
                let mut s = String::from_str("    if (");
                s.append(condition.text().as_str());
                s.append(") goto ");
                s.append(label_string(*target as u32).as_str());
                s.append(";");
                s
            },
        }
    }
}

} // verus!
