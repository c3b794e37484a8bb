//! Signature blobs: the recursive grammar of element types and method
//! signatures.

use vstd::prelude::*;

use crate::coded::TypeDefOrRef;
use crate::error::Error;
use crate::image::{type_text, CilImage};
use crate::text::{numeral, numeral_string};
use crate::varint::{compressed_at, read_compressed_u32};

verus! {

broadcast use vstd::std_specs::vec::group_vec_axioms;

/// What a signature blob describes, by the low nibble of its first byte.
#[derive(Debug, Clone, Copy, PartialEq, Eq, Structural)]
pub enum SignatureKind {
    StandaloneMethod,
    Field,
    LocalVar,
    Property,
}

impl SignatureKind {
    /// Low nibble `0..=5` is a method, 6 a field, 7 locals, 8 a property.
    pub open spec fn from_byte_spec(b: u8) -> Option<SignatureKind> {
        let n = b % 16;
        if n <= 5 {
            Some(SignatureKind::StandaloneMethod)
        } else if n == 6 {
            Some(SignatureKind::Field)
        } else if n == 7 {
            Some(SignatureKind::LocalVar)
        } else if n == 8 {
            Some(SignatureKind::Property)
        } else {
            None
        }
    }

    /// The kind that a signature's first byte announces.
    pub fn from_byte(b: u8) -> (r: Option<SignatureKind>)
        ensures
            r == SignatureKind::from_byte_spec(b),
    {
        let n = b % 16;
        if n <= 5 {
            Some(SignatureKind::StandaloneMethod)
        } else if n == 6 {
            Some(SignatureKind::Field)
        } else if n == 7 {
            Some(SignatureKind::LocalVar)
        } else if n == 8 {
            Some(SignatureKind::Property)
        } else {
            None
        }
    }
}

/// An element type of the signature grammar.
#[derive(Debug, PartialEq)]
pub enum Element {
    End,
    Void,
    Boolean,
    Char,
    I1,
    U1,
    I2,
    U2,
    I4,
    U4,
    I8,
    U8,
    R4,
    R8,
    String,
    Ptr(Box<Element>),
    ByRef(Box<Element>),
    ValueType(TypeDefOrRef),
    Class(TypeDefOrRef),
    Var(u32),
    GenericInst { generic_type: Box<Element>, generic_args: Vec<Element> },
    IntPtr,
    UIntPtr,
    FnPtr(Box<StandaloneMethodSignature>),
    Object,
    SzArray(Box<Element>),
    MVar(u32),
    CModRequired(TypeDefOrRef),
    CModOptional(TypeDefOrRef),
    Pinned(Box<Element>),
}

/// How a method is called, from the low nibble of its signature's first byte.
#[derive(Debug, Clone, Copy, PartialEq, Eq, Structural)]
pub enum MethodCallType {
    Default,
    C,
    StdCall,
    ThisCall,
    FastCall,
    Vararg,
}

/// The first byte of a method signature.
#[derive(Debug, Clone, Copy, PartialEq, Eq, Structural)]
pub struct StandaloneMethodSigHeader(pub u8);

/// Whether bit `0x20` (an implicit `this`) is set in a signature's first byte.
pub open spec fn has_this_bit(b: u8) -> bool {
    (b / 0x20) % 2 == 1
}

impl StandaloneMethodSigHeader {
    /// Whether the method takes an implicit `this` before its parameters.
    pub fn has_this(&self) -> (r: bool)
        ensures
            r == has_this_bit(self.0),
    {
        (self.0 / 0x20) % 2 == 1
    }

    /// Whether `this` is also listed among the parameters (bit `0x40`).
    pub fn explicit_this(&self) -> (r: bool)
        ensures
            r == ((self.0 / 0x40) % 2 == 1),
    {
        (self.0 / 0x40) % 2 == 1
    }

    /// The calling convention of the low nibble; `None` above 5.
    pub fn call_type(&self) -> (r: Option<MethodCallType>)
        ensures
            self.0 % 16 == 0 <==> r == Some(MethodCallType::Default),
            self.0 % 16 == 1 <==> r == Some(MethodCallType::C),
            self.0 % 16 == 2 <==> r == Some(MethodCallType::StdCall),
            self.0 % 16 == 3 <==> r == Some(MethodCallType::ThisCall),
            self.0 % 16 == 4 <==> r == Some(MethodCallType::FastCall),
            self.0 % 16 == 5 <==> r == Some(MethodCallType::Vararg),
            self.0 % 16 > 5 <==> r is None,
    {
        match self.0 % 16 {
            0 => Some(MethodCallType::Default),
            1 => Some(MethodCallType::C),
            2 => Some(MethodCallType::StdCall),
            3 => Some(MethodCallType::ThisCall),
            4 => Some(MethodCallType::FastCall),
            5 => Some(MethodCallType::Vararg),
            _ => None,
        }
    }
}

/// A method signature: header byte, return type, parameter types.
#[derive(Debug, PartialEq)]
pub struct StandaloneMethodSignature {
    pub header: StandaloneMethodSigHeader,
    pub return_type: Element,
    pub parameters: Vec<Element>,
}

/// The mathematical shape of an element: its tag byte and what follows it.
pub enum ElementModel {
    /// A tag with nothing after it (the primitive types).
    Leaf(u8),
    /// A tag followed by one element (`Ptr`, `ByRef`, `SzArray`, `Pinned`).
    Wrapped(u8, Box<ElementModel>),
    /// A tag followed by a type reference (`ValueType`, `Class`, modifiers).
    Named(u8, TypeDefOrRef),
    /// A tag followed by a generic parameter number (`Var`, `MVar`).
    Index(u8, u32),
    GenericInst(Box<ElementModel>, Seq<ElementModel>),
    FnPtr(Box<SignatureModel>),
}

/// The mathematical shape of a method signature.
pub struct SignatureModel {
    pub header: u8,
    pub return_type: ElementModel,
    pub parameters: Seq<ElementModel>,
}

impl Element {
    pub open spec fn model(self) -> ElementModel
        decreases self,
    {
        match self {
            Element::End => ElementModel::Leaf(0x00),
            Element::Void => ElementModel::Leaf(0x01),
            Element::Boolean => ElementModel::Leaf(0x02),
            Element::Char => ElementModel::Leaf(0x03),
            Element::I1 => ElementModel::Leaf(0x04),
            Element::U1 => ElementModel::Leaf(0x05),
            Element::I2 => ElementModel::Leaf(0x06),
            Element::U2 => ElementModel::Leaf(0x07),
            Element::I4 => ElementModel::Leaf(0x08),
            Element::U4 => ElementModel::Leaf(0x09),
            Element::I8 => ElementModel::Leaf(0x0A),
            Element::U8 => ElementModel::Leaf(0x0B),
            Element::R4 => ElementModel::Leaf(0x0C),
            Element::R8 => ElementModel::Leaf(0x0D),
            Element::String => ElementModel::Leaf(0x0E),
            Element::Ptr(e) => ElementModel::Wrapped(0x0F, Box::new(e.model())),
            Element::ByRef(e) => ElementModel::Wrapped(0x10, Box::new(e.model())),
            Element::ValueType(t) => ElementModel::Named(0x11, t),
            Element::Class(t) => ElementModel::Named(0x12, t),
            Element::Var(n) => ElementModel::Index(0x13, n),
            Element::GenericInst { generic_type, generic_args } => ElementModel::GenericInst(
                Box::new(generic_type.model()),
                models(generic_args@),
            ),
            Element::IntPtr => ElementModel::Leaf(0x18),
            Element::UIntPtr => ElementModel::Leaf(0x19),
            Element::FnPtr(s) => ElementModel::FnPtr(Box::new(s.model())),
            Element::Object => ElementModel::Leaf(0x1C),
            Element::SzArray(e) => ElementModel::Wrapped(0x1D, Box::new(e.model())),
            Element::MVar(n) => ElementModel::Index(0x1E, n),
            Element::CModRequired(t) => ElementModel::Named(0x1F, t),
            Element::CModOptional(t) => ElementModel::Named(0x20, t),
            Element::Pinned(e) => ElementModel::Wrapped(0x45, Box::new(e.model())),
        }
    }
}

impl StandaloneMethodSignature {
    pub open spec fn model(self) -> SignatureModel
        decreases self,
    {
        SignatureModel {
            header: self.header.0,
            return_type: self.return_type.model(),
            parameters: models(self.parameters@),
        }
    }
}

/// The models of a sequence of elements, in order.
pub open spec fn models(s: Seq<Element>) -> Seq<ElementModel>
    decreases s,
{
    if s.len() == 0 {
        seq![]
    } else {
        seq![s[0].model()] + models(s.subrange(1, s.len() as int))
    }
}

/// Only `Void` has the model of tag `0x01`.
pub proof fn lemma_void_model(e: Element)
    ensures
        e.model() == ElementModel::Leaf(0x01) <==> e is Void,
{
}

/// `models` keeps the length and maps each element.
pub proof fn lemma_models(s: Seq<Element>)
    ensures
        models(s).len() == s.len(),
        forall|i: int| 0 <= i < s.len() ==> #[trigger] models(s)[i] == s[i].model(),
    decreases s.len(),
{
    if s.len() > 0 {
        lemma_models(s.subrange(1, s.len() as int));
        assert forall|i: int| 0 <= i < s.len() implies #[trigger] models(s)[i] == s[i].model() by {
            if i > 0 {
                assert(models(s)[i] == models(s.subrange(1, s.len() as int))[i - 1]);
            }
        }
    }
}

/// Tags with nothing after them.
pub open spec fn is_leaf_tag(t: u8) -> bool {
    t <= 0x0E || t == 0x18 || t == 0x19 || t == 0x1C
}

/// Tags followed by one element.
pub open spec fn is_wrapper_tag(t: u8) -> bool {
    t == 0x0F || t == 0x10 || t == 0x1D || t == 0x45
}

/// Tags followed by a compressed `TypeDefOrRef`.
pub open spec fn is_named_tag(t: u8) -> bool {
    t == 0x11 || t == 0x12 || t == 0x1F || t == 0x20
}

/// Tags followed by a compressed generic parameter number.
pub open spec fn is_index_tag(t: u8) -> bool {
    t == 0x13 || t == 0x1E
}

/// Why a compressed integer could not be read at `p`: a bad first byte, or
/// the end of the blob.
pub open spec fn compressed_error(d: Seq<u8>, p: int) -> Error {
    if 0 <= p < d.len() && d[p] >= 0xE0 {
        Error::MalformedBlob
    } else {
        Error::TruncatedSignature
    }
}

/// The element encoded at `p` and the position after it.
pub open spec fn parse_element(d: Seq<u8>, p: int) -> Result<(ElementModel, int), Error>
    decreases d.len() - p, 0int,
{
    if p < 0 || p >= d.len() {
        Err(Error::TruncatedSignature)
    } else {
        let t = d[p];
        if is_leaf_tag(t) {
            Ok((ElementModel::Leaf(t), p + 1))
        } else if is_wrapper_tag(t) {
            match parse_element(d, p + 1) {
                Ok((e, q)) => Ok((ElementModel::Wrapped(t, Box::new(e)), q)),
                Err(x) => Err(x),
            }
        } else if is_named_tag(t) {
            match compressed_at(d, p + 1) {
                Some((v, q)) => match TypeDefOrRef::decode_spec(v) {
                    Some(r) => Ok((ElementModel::Named(t, r), q)),
                    None => Err(Error::Malformed),
                },
                None => Err(compressed_error(d, p + 1)),
            }
        } else if is_index_tag(t) {
            match compressed_at(d, p + 1) {
                Some((v, q)) => Ok((ElementModel::Index(t, v), q)),
                None => Err(compressed_error(d, p + 1)),
            }
        } else if t == 0x15 {
            match parse_element(d, p + 1) {
                Ok((head, m)) => if p < m < d.len() {
                    match parse_elements(d, m + 1, d[m] as nat) {
                        Ok((args, q)) => Ok((ElementModel::GenericInst(Box::new(head), args), q)),
                        Err(x) => Err(x),
                    }
                } else {
                    Err(Error::TruncatedSignature)
                },
                Err(x) => Err(x),
            }
        } else if t == 0x1B {
            match parse_signature(d, p + 1) {
                Ok((s, q)) => Ok((ElementModel::FnPtr(Box::new(s)), q)),
                Err(x) => Err(x),
            }
        } else {
            Err(Error::UnknownElementTag(t))
        }
    }
}

/// `n` elements encoded one after another from `p`, and the position after
/// the last.
pub open spec fn parse_elements(d: Seq<u8>, p: int, n: nat) -> Result<(Seq<ElementModel>, int), Error>
    decreases d.len() - p, n + 1,
{
    if n == 0 {
        Ok((seq![], p))
    } else if p < 0 || p >= d.len() {
        Err(Error::TruncatedSignature)
    } else {
        match parse_element(d, p) {
            Ok((e, q)) => if p < q <= d.len() {
                match parse_elements(d, q, (n - 1) as nat) {
                    Ok((rest, r)) => Ok((seq![e] + rest, r)),
                    Err(x) => Err(x),
                }
            } else {
                Err(Error::TruncatedSignature)
            },
            Err(x) => Err(x),
        }
    }
}

/// The method signature encoded at `p`: header byte, compressed parameter
/// count, return type, parameters.
pub open spec fn parse_signature(d: Seq<u8>, p: int) -> Result<(SignatureModel, int), Error>
    decreases d.len() - p, 1int,
{
    if p < 0 || p >= d.len() {
        Err(Error::TruncatedSignature)
    } else {
        match compressed_at(d, p + 1) {
            Some((n, q)) => match parse_element(d, q) {
                Ok((ret, r)) => if q < r <= d.len() {
                    match parse_elements(d, r, n as nat) {
                        Ok((params, e)) => Ok(
                            (SignatureModel { header: d[p], return_type: ret, parameters: params }, e),
                        ),
                        Err(x) => Err(x),
                    }
                } else {
                    Err(Error::TruncatedSignature)
                },
                Err(x) => Err(x),
            },
            None => Err(compressed_error(d, p + 1)),
        }
    }
}

/// The primitive element of a tag with nothing after it.
fn leaf_element(t: u8) -> (r: Option<Element>)
    ensures
        r is Some <==> is_leaf_tag(t),
        r matches Some(e) ==> e.model() == ElementModel::Leaf(t),
{
    match t {
        0x00 => Some(Element::End),
        0x01 => Some(Element::Void),
        0x02 => Some(Element::Boolean),
        0x03 => Some(Element::Char),
        0x04 => Some(Element::I1),
        0x05 => Some(Element::U1),
        0x06 => Some(Element::I2),
        0x07 => Some(Element::U2),
        0x08 => Some(Element::I4),
        0x09 => Some(Element::U4),
        0x0A => Some(Element::I8),
        0x0B => Some(Element::U8),
        0x0C => Some(Element::R4),
        0x0D => Some(Element::R8),
        0x0E => Some(Element::String),
        0x18 => Some(Element::IntPtr),
        0x19 => Some(Element::UIntPtr),
        0x1C => Some(Element::Object),
        _ => None,
    }
}

/// The element of a wrapper tag around `inner`.
fn wrapped_element(t: u8, inner: Element) -> (r: Element)
    requires
        is_wrapper_tag(t),
    ensures
        r.model() == ElementModel::Wrapped(t, Box::new(inner.model())),
{
    let b = Box::new(inner);
    if t == 0x0F {
        Element::Ptr(b)
    } else if t == 0x10 {
        Element::ByRef(b)
    } else if t == 0x1D {
        Element::SzArray(b)
    } else {
        Element::Pinned(b)
    }
}

/// The element of a named tag and its type reference.
fn named_element(t: u8, r: TypeDefOrRef) -> (e: Element)
    requires
        is_named_tag(t),
    ensures
        e.model() == ElementModel::Named(t, r),
{
    if t == 0x11 {
        Element::ValueType(r)
    } else if t == 0x12 {
        Element::Class(r)
    } else if t == 0x1F {
        Element::CModRequired(r)
    } else {
        Element::CModOptional(r)
    }
}

/// Why a compressed integer could not be read at `p`.
fn compressed_failure(d: &[u8], p: usize) -> (e: Error)
    ensures
        e == compressed_error(d@, p as int),
{
    if p < d.len() && d[p] >= 0xE0 {
        Error::MalformedBlob
    } else {
        Error::TruncatedSignature
    }
}

/// Reads the element encoded at `p`; returns it and the position after it.
pub fn read_element(d: &[u8], p: usize) -> (r: Result<(Element, usize), Error>)
    ensures
        match r {
            Ok((e, q)) => parse_element(d@, p as int) == Ok::<(ElementModel, int), Error>((e.model(), q as int)),
            Err(x) => parse_element(d@, p as int) == Err::<(ElementModel, int), Error>(x),
        },
    decreases d@.len() - p, 0int,
{
    if p >= d.len() {
        return Err(Error::TruncatedSignature);
    }
    let t = d[p];
    if let Some(e) = leaf_element(t) {
        return Ok((e, p + 1));
    }
    if t == 0x0F || t == 0x10 || t == 0x1D || t == 0x45 {
        match read_element(d, p + 1) {
            Ok((inner, q)) => Ok((wrapped_element(t, inner), q)),
            Err(x) => Err(x),
        }
    } else if t == 0x11 || t == 0x12 || t == 0x1F || t == 0x20 {
        match read_compressed_u32(d, p + 1) {
            Some((v, q)) => match TypeDefOrRef::decode(v) {
                Some(r) => Ok((named_element(t, r), q)),
                None => Err(Error::Malformed),
            },
            None => Err(compressed_failure(d, p + 1)),
        }
    } else if t == 0x13 || t == 0x1E {
        match read_compressed_u32(d, p + 1) {
            Some((v, q)) => if t == 0x13 {
                Ok((Element::Var(v), q))
            } else {
                Ok((Element::MVar(v), q))
            },
            None => Err(compressed_failure(d, p + 1)),
        }
    } else if t == 0x15 {
        match read_element(d, p + 1) {
            Ok((head, m)) => {
                if !(p < m && m < d.len()) {
                    return Err(Error::TruncatedSignature);
                }
                match read_elements(d, m + 1, d[m] as u32) {
                    Ok((args, q)) => Ok(
                        (Element::GenericInst { generic_type: Box::new(head), generic_args: args }, q),
                    ),
                    Err(x) => Err(x),
                }
            },
            Err(x) => Err(x),
        }
    } else if t == 0x1B {
        match read_signature(d, p + 1) {
            Ok((s, q)) => Ok((Element::FnPtr(Box::new(s)), q)),
            Err(x) => Err(x),
        }
    } else {
        Err(Error::UnknownElementTag(t))
    }
}

/// Reads `n` consecutive elements from `p`.
pub fn read_elements(d: &[u8], p: usize, n: u32) -> (r: Result<(Vec<Element>, usize), Error>)
    ensures
        match r {
            Ok((v, q)) => parse_elements(d@, p as int, n as nat) == Ok::<(Seq<ElementModel>, int), Error>((models(v@), q as int)),
            Err(x) => parse_elements(d@, p as int, n as nat) == Err::<(Seq<ElementModel>, int), Error>(x),
        },
    decreases d@.len() - p, n + 1,
{
    if n == 0 {
        let v: Vec<Element> = Vec::new();
        assert(models(v@) =~= seq![]);
        return Ok((v, p));
    }
    if p >= d.len() {
        return Err(Error::TruncatedSignature);
    }
    match read_element(d, p) {
        Ok((e, q)) => {
            if !(p < q && q <= d.len()) {
                return Err(Error::TruncatedSignature);
            }
            match read_elements(d, q, n - 1) {
                Ok((rest, r)) => {
                    let ghost old_rest = rest@;
                    let mut v = rest;
                    v.insert(0, e);
                    proof {
                        assert(v@[0] == e);
                        assert(v@.subrange(1, v@.len() as int) =~= old_rest);
                        assert(models(v@) == seq![e.model()] + models(old_rest));
                    }
                    Ok((v, r))
                },
                Err(x) => Err(x),
            }
        },
        Err(x) => Err(x),
    }
}

/// Reads the method signature encoded at `p`.
pub fn read_signature(d: &[u8], p: usize) -> (r: Result<(StandaloneMethodSignature, usize), Error>)
    ensures
        match r {
            Ok((s, q)) => parse_signature(d@, p as int) == Ok::<(SignatureModel, int), Error>((s.model(), q as int)),
            Err(x) => parse_signature(d@, p as int) == Err::<(SignatureModel, int), Error>(x),
        },
    decreases d@.len() - p, 1int,
{
    if p >= d.len() {
        return Err(Error::TruncatedSignature);
    }
    let header = d[p];
    match read_compressed_u32(d, p + 1) {
        Some((n, q)) => match read_element(d, q) {
            Ok((ret, r)) => {
                if !(q < r && r <= d.len()) {
                    return Err(Error::TruncatedSignature);
                }
                match read_elements(d, r, n) {
                    Ok((params, e)) => Ok(
                        (
                            StandaloneMethodSignature {
                                header: StandaloneMethodSigHeader(header),
                                return_type: ret,
                                parameters: params,
                            },
                            e,
                        ),
                    ),
                    Err(x) => Err(x),
                }
            },
            Err(x) => Err(x),
        },
        None => Err(compressed_failure(d, p + 1)),
    }
}

impl StandaloneMethodSignature {
    /// Parses a method signature blob.
    pub fn parse(blob: &[u8]) -> (r: Result<StandaloneMethodSignature, Error>)
        ensures
            match r {
                Ok(s) => parse_signature(blob@, 0) matches Ok((m, _)) && m == s.model(),
                Err(x) => parse_signature(blob@, 0) == Err::<(SignatureModel, int), Error>(x),
            },
    {
        match read_signature(blob, 0) {
            Ok((s, _)) => Ok(s),
            Err(x) => Err(x),
        }
    }

    /// The signature of a method that takes and returns nothing.
    pub fn empty() -> (r: StandaloneMethodSignature)
        ensures
            r.model() == (SignatureModel { header: 0, return_type: ElementModel::Leaf(0x01), parameters: seq![] }),
    {
        let r = StandaloneMethodSignature {
            header: StandaloneMethodSigHeader(0),
            return_type: Element::Void,
            parameters: Vec::new(),
        };
        assert(models(r.parameters@) =~= seq![]);
        r
    }
}

/// What `Debug` makes of a string: the text between double quotes, with
/// quotes, backslashes and control characters escaped.
pub uninterp spec fn debug_quoted(s: Seq<char>) -> Seq<char>;

/// Relies on the `Debug` formatting of `str`: the result depends on the
/// characters alone.
#[verifier::external_body]
fn quoted(s: &str) -> (r: String)
    ensures
        r@ == debug_quoted(s@),
{
    format!("{:?}", s)
}

/// The `Debug` text of a type reference, such as `TypeRef(3)`.
pub open spec fn coded_debug(t: TypeDefOrRef) -> Seq<char> {
    match t {
        TypeDefOrRef::TypeDef(i) => "TypeDef("@ + numeral(i as nat, 10) + ")"@,
        TypeDefOrRef::TypeRef(i) => "TypeRef("@ + numeral(i as nat, 10) + ")"@,
        TypeDefOrRef::TypeSpec(i) => "TypeSpec("@ + numeral(i as nat, 10) + ")"@,
    }
}

/// The `Debug` text of an optional type name.
pub open spec fn optional_debug(n: Option<Seq<char>>) -> Seq<char> {
    match n {
        Some(x) => "Some("@ + debug_quoted(x) + ")"@,
        None => "None"@,
    }
}

/// The name of a primitive element.
pub open spec fn leaf_name(t: u8) -> Seq<char> {
    if t == 0x00 {
        "<end>"@
    } else if t == 0x01 {
        "void"@
    } else if t == 0x02 {
        "bool"@
    } else if t == 0x03 {
        "char"@
    } else if t == 0x04 {
        "int8"@
    } else if t == 0x05 {
        "uint8"@
    } else if t == 0x06 {
        "int16"@
    } else if t == 0x07 {
        "uint16"@
    } else if t == 0x08 {
        "int32"@
    } else if t == 0x09 {
        "uint32"@
    } else if t == 0x0A {
        "int64"@
    } else if t == 0x0B {
        "uint64"@
    } else if t == 0x0C {
        "float32"@
    } else if t == 0x0D {
        "float64"@
    } else if t == 0x0E {
        "string"@
    } else if t == 0x18 {
        "nint"@
    } else if t == 0x19 {
        "nuint"@
    } else {
        "object"@
    }
}

/// How an element reads: primitives by name, `*T`, `ref T`, `T[]`,
/// `pinned T`, named types as `Namespace.Name` (`<unk:...>` where the image
/// lacks the row), `var{n}`, `mvar{n}`, `T<A, B>`, modifiers, and function
/// pointers as their signatures.
pub open spec fn element_text(img: &CilImage, e: Element) -> Seq<char>
    decreases e,
{
    match e {
        Element::Ptr(i) => "*"@ + element_text(img, *i),
        Element::ByRef(i) => "ref "@ + element_text(img, *i),
        Element::SzArray(i) => element_text(img, *i) + "[]"@,
        Element::Pinned(i) => "pinned "@ + element_text(img, *i),
        Element::ValueType(t) | Element::Class(t) => match type_text(img, t) {
            Some(n) => n,
            None => "<unk:"@ + coded_debug(t) + ">"@,
        },
        Element::Var(n) => "var"@ + numeral(n as nat, 10),
        Element::MVar(n) => "mvar"@ + numeral(n as nat, 10),
        Element::GenericInst { generic_type, generic_args } => element_text(img, *generic_type) + "<"@
            + elements_text(img, generic_args@) + ">"@,
        Element::FnPtr(s) => signature_text(img, *s),
        Element::CModRequired(t) => "cmodreq("@ + optional_debug(type_text(img, t)) + ")"@,
        Element::CModOptional(t) => "cmodopt("@ + optional_debug(type_text(img, t)) + ")"@,
        _ => match e.model() {
            ElementModel::Leaf(t) => leaf_name(t),
            _ => seq![],
        },
    }
}

/// Elements separated by `", "`.
pub open spec fn elements_text(img: &CilImage, s: Seq<Element>) -> Seq<char>
    decreases s,
{
    if s.len() == 0 {
        seq![]
    } else if s.len() == 1 {
        element_text(img, s[0])
    } else {
        elements_text(img, s.subrange(0, s.len() - 1)) + ", "@ + element_text(img, s[s.len() - 1])
    }
}

/// How a signature reads: `this fn(A, B) -> R`, `this ` only where it has one.
pub open spec fn signature_text(img: &CilImage, s: StandaloneMethodSignature) -> Seq<char>
    decreases s,
{
    (if has_this_bit(s.header.0) { "this "@ } else { seq![] }) + "fn("@ + elements_text(img, s.parameters@) + ") -> "@
        + element_text(img, s.return_type)
}

/// The `Debug` text of a type reference.
fn coded_debug_string(t: &TypeDefOrRef) -> (r: String)
    ensures
        r@ == coded_debug(*t),
{
    let (prefix, i) = match t {
        TypeDefOrRef::TypeDef(i) => ("TypeDef(", *i),
        TypeDefOrRef::TypeRef(i) => ("TypeRef(", *i),
        TypeDefOrRef::TypeSpec(i) => ("TypeSpec(", *i),
    };
    let mut s = String::from_str(prefix);
    s.append(numeral_string(i as u64, 10).as_str());
    s.append(")");
    s
}

/// The `Debug` text of the optional name of a type reference.
fn optional_debug_string(n: Option<String>) -> (r: String)
    ensures
        r@ == optional_debug(match n {
            Some(x) => Some(x@),
            None => None,
        }),
{
    match n {
        Some(x) => {
            let mut s = String::from_str("Some(");
            s.append(quoted(x.as_str()).as_str());
            s.append(")");
            s
        },
        None => String::from_str("None"),
    }
}

/// The name of a primitive element.
fn leaf_name_str(t: u8) -> (r: &'static str)
    ensures
        r@ == leaf_name(t),
{
    if t == 0x00 {
        "<end>"
    } else if t == 0x01 {
        "void"
    } else if t == 0x02 {
        "bool"
    } else if t == 0x03 {
        "char"
    } else if t == 0x04 {
        "int8"
    } else if t == 0x05 {
        "uint8"
    } else if t == 0x06 {
        "int16"
    } else if t == 0x07 {
        "uint16"
    } else if t == 0x08 {
        "int32"
    } else if t == 0x09 {
        "uint32"
    } else if t == 0x0A {
        "int64"
    } else if t == 0x0B {
        "uint64"
    } else if t == 0x0C {
        "float32"
    } else if t == 0x0D {
        "float64"
    } else if t == 0x0E {
        "string"
    } else if t == 0x18 {
        "nint"
    } else if t == 0x19 {
        "nuint"
    } else {
        "object"
    }
}

/// The text of a type reference used as an element.
fn named_text(image: &CilImage, t: &TypeDefOrRef) -> (r: String)
    ensures
        r@ == match type_text(image, *t) {
            Some(n) => n,
            None => "<unk:"@ + coded_debug(*t) + ">"@,
        },
{
    match t.name_with_namespace(image) {
        Some(n) => n,
        None => {
            let mut s = String::from_str("<unk:");
            s.append(coded_debug_string(t).as_str());
            s.append(">");
            s
        },
    }
}

/// Elements separated by `", "`.
fn elements_string(image: &CilImage, v: &Vec<Element>) -> (r: String)
    ensures
        r@ == elements_text(image, v@),
    decreases v,
{
    let mut s = String::new();
    let mut i: usize = 0;
    while i < v.len()
        invariant
            i <= v@.len(),
            s@ == elements_text(image, v@.subrange(0, i as int)),
        decreases v@.len() - i,
    {
        if i > 0 {
            s.append(", ");
        }
        s.append(v[i].debug_print(image).as_str());
        proof {
            let next = v@.subrange(0, i + 1);
            assert(next.subrange(0, next.len() - 1) =~= v@.subrange(0, i as int));
            assert(next[next.len() - 1] == v@[i as int]);
            if i == 0 {
                assert(s@ =~= elements_text(image, next));
            }
        }
        i = i + 1;
    }
    assert(v@.subrange(0, v@.len() as int) =~= v@);
    s
}

impl Element {
    /// The element as it reads in a declaration.
    pub fn debug_print(&self, image: &CilImage) -> (r: String)
        ensures
            r@ == element_text(image, *self),
        decreases self,
    {
        match self {
            Element::Ptr(i) => {
                let mut s = String::from_str("*");
                s.append(i.debug_print(image).as_str());
                s
            },
            Element::ByRef(i) => {
                let mut s = String::from_str("ref ");
                s.append(i.debug_print(image).as_str());
                s
            },
            Element::SzArray(i) => {
                let mut s = i.debug_print(image);
                s.append("[]");
                s
            },
            Element::Pinned(i) => {
                let mut s = String::from_str("pinned ");
                s.append(i.debug_print(image).as_str());
                s
            },
            Element::ValueType(t) | Element::Class(t) => named_text(image, t),
            Element::Var(n) => {
                let mut s = String::from_str("var");
                s.append(numeral_string(*n as u64, 10).as_str());
                s
            },
            Element::MVar(n) => {
                let mut s = String::from_str("mvar");
                s.append(numeral_string(*n as u64, 10).as_str());
                s
            },
            Element::GenericInst { generic_type, generic_args } => {
                let mut s = generic_type.debug_print(image);
                s.append("<");
                s.append(elements_string(image, generic_args).as_str());
                s.append(">");
                s
            },
            Element::FnPtr(sig) => sig.debug_print(image),
            Element::CModRequired(t) => {
                let mut s = String::from_str("cmodreq(");
                s.append(optional_debug_string(t.name_with_namespace(image)).as_str());
                s.append(")");
                s
            },
            Element::CModOptional(t) => {
                let mut s = String::from_str("cmodopt(");
                s.append(optional_debug_string(t.name_with_namespace(image)).as_str());
                s.append(")");
                s
            },
            Element::End => String::from_str(leaf_name_str(0x00)),
            Element::Void => String::from_str(leaf_name_str(0x01)),
            Element::Boolean => String::from_str(leaf_name_str(0x02)),
            Element::Char => String::from_str(leaf_name_str(0x03)),
            Element::I1 => String::from_str(leaf_name_str(0x04)),
            Element::U1 => String::from_str(leaf_name_str(0x05)),
            Element::I2 => String::from_str(leaf_name_str(0x06)),
            Element::U2 => String::from_str(leaf_name_str(0x07)),
            Element::I4 => String::from_str(leaf_name_str(0x08)),
            Element::U4 => String::from_str(leaf_name_str(0x09)),
            Element::I8 => String::from_str(leaf_name_str(0x0A)),
            Element::U8 => String::from_str(leaf_name_str(0x0B)),
            Element::R4 => String::from_str(leaf_name_str(0x0C)),
            Element::R8 => String::from_str(leaf_name_str(0x0D)),
            Element::String => String::from_str(leaf_name_str(0x0E)),
            Element::IntPtr => String::from_str(leaf_name_str(0x18)),
            Element::UIntPtr => String::from_str(leaf_name_str(0x19)),
            Element::Object => String::from_str(leaf_name_str(0x1C)),
        }
    }
}

impl StandaloneMethodSignature {
    /// The signature as it reads: `this fn(A, B) -> R`.
    pub fn debug_print(&self, image: &CilImage) -> (r: String)
        ensures
            r@ == signature_text(image, *self),
        decreases self,
    {
        let mut s = if self.header.has_this() {
            String::from_str("this fn(")
        } else {
            String::from_str("fn(")
        };
        s.append(elements_string(image, &self.parameters).as_str());
        s.append(") -> ");
        s.append(self.return_type.debug_print(image).as_str());
        proof {
            reveal_strlit("this fn(");
            reveal_strlit("this ");
            reveal_strlit("fn(");
            assert("this fn("@ =~= "this "@ + "fn("@);
        }
        s
    }
}

/// The local variable types of a `LocalVar` signature blob: the kind byte
/// (low nibble 7), a compressed count, then that many elements.
pub open spec fn parse_locals_spec(d: Seq<u8>) -> Result<Seq<ElementModel>, Error> {
    if d.len() == 0 || SignatureKind::from_byte_spec(d[0]) != Some(SignatureKind::LocalVar) {
        Err(Error::Malformed)
    } else {
        match compressed_at(d, 1) {
            Some((n, q)) => match parse_elements(d, q, n as nat) {
                Ok((v, _)) => Ok(v),
                Err(x) => Err(x),
            },
            None => Err(compressed_error(d, 1)),
        }
    }
}

/// Parses a local variable signature blob into the types of the locals.
pub fn parse_locals(blob: &[u8]) -> (r: Result<Vec<Element>, Error>)
    ensures
        match r {
            Ok(v) => parse_locals_spec(blob@) == Ok::<Seq<ElementModel>, Error>(models(v@)),
            Err(x) => parse_locals_spec(blob@) == Err::<Seq<ElementModel>, Error>(x),
        },
{
    if blob.len() == 0 {
        return Err(Error::Malformed);
    }
    match SignatureKind::from_byte(blob[0]) {
        Some(SignatureKind::LocalVar) => {},
        _ => return Err(Error::Malformed),
    }
    match read_compressed_u32(blob, 1) {
        Some((n, q)) => match read_elements(blob, q, n) {
            Ok((v, _)) => Ok(v),
            Err(x) => Err(x),
        },
        None => Err(compressed_failure(blob, 1)),
    }
}

impl Default for StandaloneMethodSigHeader {
    /// The header of a static method with the default calling convention.
    fn default() -> (r: StandaloneMethodSigHeader)
        ensures
            r.0 == 0,
    {
        StandaloneMethodSigHeader(0)
    }
}

impl Default for StandaloneMethodSignature {
    /// The signature of a static method that takes and returns nothing.
    fn default() -> (r: StandaloneMethodSignature)
        ensures
            r.model() == (SignatureModel { header: 0, return_type: ElementModel::Leaf(0x01), parameters: seq![] }),
    {
        StandaloneMethodSignature::empty()
    }
}

} // verus!
