use cil::coded::TypeDefOrRef;
use cil::decompiler::{BinaryOp, Expr, Statement};
use cil::image::{CilImage, TypeName};
use cil::lowering::Comparison;
use cil::signature::{parse_locals, Element, StandaloneMethodSignature};
use cil::text::{numeral_string, padded_numeral_string, signed_decimal_string};

#[test]
fn numerals() {
    assert_eq!(numeral_string(0, 10), "0");
    assert_eq!(numeral_string(1234567, 10), "1234567");
    assert_eq!(numeral_string(255, 16), "ff");
    assert_eq!(padded_numeral_string(6, 16, 4), "0006");
    assert_eq!(padded_numeral_string(0x12345, 16, 4), "12345");
    assert_eq!(signed_decimal_string(-42), "-42");
    assert_eq!(signed_decimal_string(i64::MIN), "-9223372036854775808");
}

#[test]
fn statement_lines() {
    let sum = Expr::Binary { op: BinaryOp::Add, left: Box::new(Expr::Int(3)), right: Box::new(Expr::Int(4)) };
    assert_eq!(Statement::Return(Some(sum)).text(), "    return (3 + 4);");
    assert_eq!(Statement::Return(None).text(), "    return;");
    assert_eq!(Statement::Assign { local: 0, value: Expr::Int(5) }.text(), "    var0 = 5;");
    assert_eq!(Statement::Return(Some(Expr::Local(0))).text(), "    return var0;");
    assert_eq!(Statement::Label(6).text(), "IL_0006:");
    assert_eq!(Statement::Goto(0x1a).text(), "    goto IL_001a;");
    let cond = Expr::Compare {
        comparison: Comparison::Equal,
        left: Box::new(Expr::Arg(0)),
        right: Some(Box::new(Expr::Arg(1))),
    };
    assert_eq!(Statement::IfGoto { condition: cond, target: 6 }.text(), "    if (arg0 == arg1) goto IL_0006;");
    let unary = Expr::Compare { comparison: Comparison::Zero, left: Box::new(Expr::Temp(2)), right: None };
    assert_eq!(unary.text(), "temp2 == false");
    assert_eq!(Expr::Convert { bits: 16, value: Box::new(Expr::AddressOf(1)) }.text(), "static_cast<int16>(&var1)");
    assert_eq!(Expr::Int(-1).text(), "-1");
}

#[test]
fn call_lines() {
    let console = TypeName { namespace: "System".to_string(), name: "Console".to_string() };
    let call = Statement::Call {
        callee_type: console,
        method: "WriteLine".to_string(),
        args: vec![Expr::Str("Hi".to_string())],
        result: None,
    };
    assert_eq!(call.text(), "    System::Console::WriteLine(\"Hi\");");
    let this = TypeName { namespace: "".to_string(), name: "this".to_string() };
    let call = Statement::Call {
        callee_type: this,
        method: "Helper".to_string(),
        args: vec![Expr::Arg(0), Expr::Int(2)],
        result: Some(3),
    };
    assert_eq!(call.text(), "    auto temp3 = Helper(arg0, 2);");
    let list = TypeName { namespace: "Collections".to_string(), name: "List".to_string() };
    let ctor = Statement::Call { callee_type: list, method: ".ctor".to_string(), args: vec![], result: None };
    assert_eq!(ctor.text(), "    Collections::List::new();");
}

fn bare_image() -> CilImage {
    let text = {
        // The smallest code section that loads: see the loader tests for the layout.
        let mut t = vec![0u8; 8];
        t.extend_from_slice(&72u32.to_le_bytes());
        t.extend_from_slice(&[2, 0, 5, 0]);
        t.extend_from_slice(&0x2050u32.to_le_bytes());
        t.extend_from_slice(&[0u8; 60]);
        let mut root = vec![];
        root.extend_from_slice(&0x424A_5342u32.to_le_bytes());
        root.extend_from_slice(&[1, 0, 1, 0, 0, 0, 0, 0]);
        root.extend_from_slice(&4u32.to_le_bytes());
        root.extend_from_slice(b"v4\0\0");
        root.extend_from_slice(&[0, 0, 5, 0]);
        let names: [&[u8]; 5] = [b"#~\0\0", b"#Strings\0\0\0\0", b"#US\0", b"#GUID\0\0\0", b"#Blob\0\0\0"];
        let header_len: usize = names.iter().map(|n| 8 + n.len()).sum();
        let base = root.len() + header_len;
        let tables: Vec<u8> = {
            let mut d = vec![0, 0, 0, 0, 2, 0, 0, 1];
            d.extend_from_slice(&(1u64 << 1).to_le_bytes());
            d.extend_from_slice(&0u64.to_le_bytes());
            d.extend_from_slice(&1u32.to_le_bytes());
            d.extend_from_slice(&[0, 0, 1, 0, 6, 0]);
            d
        };
        let strings = b"\0List\0Collections\0\0\0".to_vec();
        let sizes = [tables.len(), strings.len(), 4, 0, 4];
        let mut offset = base;
        for (name, size) in names.iter().zip(sizes.iter()) {
            root.extend_from_slice(&(offset as u32).to_le_bytes());
            root.extend_from_slice(&(*size as u32).to_le_bytes());
            root.extend_from_slice(name);
            offset += (size + 3) / 4 * 4;
        }
        let mut data = tables.clone();
        while data.len() % 4 != 0 {
            data.push(0);
        }
        root.extend_from_slice(&data);
        root.extend_from_slice(&strings);
        root.extend_from_slice(&[0, 0, 0, 0]);
        root.extend_from_slice(&[0, 0, 0, 0]);
        t.extend_from_slice(&root);
        t
    };
    CilImage::from_layout(0x2000, 0x2008, text).unwrap()
}

#[test]
fn element_and_signature_text() {
    let img = bare_image();
    assert_eq!(img.type_refs.len(), 1);
    let list = TypeDefOrRef::TypeRef(1);
    assert_eq!(list.name_with_namespace(&img), Some("Collections.List".to_string()));
    assert_eq!(TypeDefOrRef::TypeRef(2).name_with_namespace(&img), None);
    assert_eq!(TypeDefOrRef::TypeSpec(1).name_with_namespace(&img), None);
    let generic = Element::GenericInst { generic_type: Box::new(Element::Class(list)), generic_args: vec![Element::I4, Element::MVar(0)] };
    assert_eq!(generic.debug_print(&img), "Collections.List<int32, mvar0>");
    assert_eq!(Element::Ptr(Box::new(Element::U1)).debug_print(&img), "*uint8");
    assert_eq!(Element::SzArray(Box::new(Element::String)).debug_print(&img), "string[]");
    assert_eq!(Element::ValueType(TypeDefOrRef::TypeSpec(4)).debug_print(&img), "<unk:TypeSpec(4)>");
    assert_eq!(Element::CModOptional(list).debug_print(&img), "cmodopt(Some(\"Collections.List\"))");
    assert_eq!(Element::CModRequired(TypeDefOrRef::TypeDef(9)).debug_print(&img), "cmodreq(None)");
    let sig = StandaloneMethodSignature::parse(&[0x20, 0x02, 0x01, 0x08, 0x1D, 0x0E]).unwrap();
    assert_eq!(sig.debug_print(&img), "this fn(int32, string[]) -> void");
    assert_eq!(StandaloneMethodSignature::empty().debug_print(&img), "fn() -> void");
}

#[test]
fn local_variable_signatures() {
    let locals = parse_locals(&[0x07, 0x02, 0x08, 0x0E]).unwrap();
    assert_eq!(locals, vec![Element::I4, Element::String]);
    assert!(parse_locals(&[0x06, 0x01, 0x08]).is_err());
    assert!(parse_locals(&[0x07, 0x02, 0x08]).is_err());
}
