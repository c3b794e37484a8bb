use cil::decompiler::{decompile, decompile_method, BinaryOp, Error, Expr, Statement};
use cil::header::{CliHeader, RuntimeFlags, RvaSize};
use cil::image::{CilImage, MethodBody, MethodEntry, MethodHeader, TypeName};
use cil::lowering::Comparison;
use cil::meta::Token;
use cil::opcodes::decode_body;
use cil::strings::{BlobHeap, StringHeap, UserStringHeap};
use cil::tables::member::MemberRef;
use cil::tables::method::{Method, MethodAttributes, MethodImplAttributes};
use cil::tables::TypeRef;

fn zero_rva() -> RvaSize {
    RvaSize { rva: 0, size: 0 }
}

/// An image with the given heaps and rows and no other content.
fn image(user_strings: Vec<u8>, blobs: Vec<u8>, type_refs: Vec<TypeRef>, member_refs: Vec<MemberRef>, method_defs: Vec<MethodEntry>) -> CilImage {
    CilImage {
        code_base: 0x2000,
        header: CliHeader {
            size: 72,
            major_version: 2,
            minor_version: 5,
            physical_metadata: zero_rva(),
            flags: RuntimeFlags(1),
            entry_point_token: 0,
            resources: zero_rva(),
            strong_name_signature: zero_rva(),
            code_manager_table: zero_rva(),
            vtable_fixups: zero_rva(),
            export_address_table_jumps: zero_rva(),
            managed_native_header: zero_rva(),
        },
        guids: vec![],
        strings: StringHeap::new(vec![0]),
        user_strings: UserStringHeap::new(user_strings),
        blobs: BlobHeap::new(blobs),
        modules: vec![],
        type_refs,
        type_defs: vec![],
        fields: vec![],
        params: vec![],
        interface_impls: vec![],
        member_refs,
        constants: vec![],
        custom_attributes: vec![],
        decl_security: vec![],
        class_layouts: vec![],
        field_layouts: vec![],
        stand_alone_sigs: vec![],
        property_maps: vec![],
        properties: vec![],
        method_semantics: vec![],
        method_impls: vec![],
        type_specs: vec![],
        impl_maps: vec![],
        field_rvas: vec![],
        assemblies: vec![],
        assembly_refs: vec![],
        nested_classes: vec![],
        generic_params: vec![],
        method_specs: vec![],
        generic_param_constraints: vec![],
        method_defs,
    }
}

fn empty_image() -> CilImage {
    image(vec![0], vec![0], vec![], vec![], vec![])
}

fn method_entry(name: &str, sig_blob: u16, code: &[u8]) -> MethodEntry {
    let body = decode_body(code).map(|opcodes| MethodBody {
        header: MethodHeader { max_stack: 8, code_size: code.len() as u32, local_var_sig_token: None },
        opcodes,
    });
    MethodEntry {
        method: Method {
            rva: 0x2050,
            impl_flags: MethodImplAttributes(0),
            flags: MethodAttributes(0x0096),
            name: name.to_string(),
            signature_blob_index: sig_blob,
            param_list: 1,
        },
        body,
    }
}

fn run(img: &CilImage, returns_void: bool, code: &[u8]) -> Result<Vec<Statement>, Error> {
    let body = decode_body(code).expect("body decodes");
    decompile(img, returns_void, &body)
}

#[test]
fn tiny_ret_emits_bare_return() {
    let img = empty_image();
    let out = run(&img, true, &[0x2A]).unwrap();
    assert_eq!(out, vec![Statement::Return(None)]);
}

#[test]
fn tiny_ret_has_no_labels() {
    let body = decode_body(&[0x2A]).unwrap();
    assert!(cil::decompiler::label_offsets(&body).is_empty());
}

#[test]
fn constant_addition_returns_sum() {
    let img = empty_image();
    let out = run(&img, false, &[0x19, 0x1A, 0x58, 0x2A]).unwrap();
    assert_eq!(
        out,
        vec![Statement::Return(Some(Expr::Binary {
            op: BinaryOp::Add,
            left: Box::new(Expr::Int(3)),
            right: Box::new(Expr::Int(4)),
        }))]
    );
}

#[test]
fn conditional_branch_gets_one_label_and_two_returns() {
    let img = empty_image();
    // ldarg.0; ldarg.1; beq.s 2; ldc.i4.0; ret; ldc.i4.1; ret
    let code = [0x02, 0x03, 0x2E, 0x02, 0x16, 0x2A, 0x17, 0x2A];
    let body = decode_body(&code).unwrap();
    assert_eq!(cil::decompiler::label_offsets(&body), vec![6]);
    let out = decompile(&img, false, &body).unwrap();
    assert_eq!(
        out,
        vec![
            Statement::IfGoto {
                condition: Expr::Compare {
                    comparison: Comparison::Equal,
                    left: Box::new(Expr::Arg(0)),
                    right: Some(Box::new(Expr::Arg(1))),
                },
                target: 6,
            },
            Statement::Return(Some(Expr::Int(0))),
            Statement::Label(6),
            Statement::Return(Some(Expr::Int(1))),
        ]
    );
    let returns = out.iter().filter(|s| matches!(s, Statement::Return(_))).count();
    assert_eq!(returns, 2);
}

fn console_image() -> CilImage {
    // "Hi" as UTF-16 with its trailing flag byte, at index 1.
    let user_strings = vec![0, 5, b'H', 0, b'i', 0, 0];
    // void (string), default calling convention, at index 1.
    let blobs = vec![0, 4, 0x00, 0x01, 0x01, 0x0E];
    let type_refs = vec![TypeRef { resolution_scope: 0, name: "Console".to_string(), namespace: "System".to_string() }];
    // Parent coded as TypeRef row 1: (1 << 3) | 1.
    let member_refs = vec![MemberRef { class_index: 9, name: "WriteLine".to_string(), signature_blob_index: 1 }];
    image(user_strings, blobs, type_refs, member_refs, vec![])
}

#[test]
fn string_call_has_one_argument_and_no_temporary() {
    let img = console_image();
    // ldstr 0x70000001; call 0x0A000001; ret
    let code = [0x72, 0x01, 0x00, 0x00, 0x70, 0x28, 0x01, 0x00, 0x00, 0x0A, 0x2A];
    let out = run(&img, true, &code).unwrap();
    assert_eq!(
        out,
        vec![
            Statement::Call {
                callee_type: TypeName { namespace: "System".to_string(), name: "Console".to_string() },
                method: "WriteLine".to_string(),
                args: vec![Expr::Str("Hi".to_string())],
                result: None,
            },
            Statement::Return(None),
        ]
    );
}

#[test]
fn call_with_result_allocates_a_temporary() {
    // int32 (int32, int32) at blob index 1.
    let blobs = vec![0, 5, 0x00, 0x02, 0x08, 0x08, 0x08];
    let type_refs = vec![TypeRef { resolution_scope: 0, name: "Math".to_string(), namespace: "System".to_string() }];
    let member_refs = vec![MemberRef { class_index: 9, name: "Max".to_string(), signature_blob_index: 1 }];
    let img = image(vec![0], blobs, type_refs, member_refs, vec![]);
    // ldc.i4.1; ldc.i4.2; call Max; ret
    let code = [0x17, 0x18, 0x28, 0x01, 0x00, 0x00, 0x0A, 0x2A];
    let out = run(&img, false, &code).unwrap();
    assert_eq!(out.len(), 2);
    match &out[0] {
        Statement::Call { args, result, .. } => {
            assert_eq!(args, &vec![Expr::Int(1), Expr::Int(2)]);
            assert_eq!(*result, Some(0));
        }
        other => panic!("unexpected {:?}", other),
    }
    assert_eq!(out[1], Statement::Return(Some(Expr::Temp(0))));
}

#[test]
fn instance_call_pops_this_first() {
    // instance void (int32): header 0x20 (has this).
    let blobs = vec![0, 4, 0x20, 0x01, 0x01, 0x08];
    let type_refs = vec![TypeRef { resolution_scope: 0, name: "List".to_string(), namespace: "".to_string() }];
    let member_refs = vec![MemberRef { class_index: 9, name: "Add".to_string(), signature_blob_index: 1 }];
    let img = image(vec![0], blobs, type_refs, member_refs, vec![]);
    // ldarg.0; ldc.i4.7; call Add; ret
    let code = [0x02, 0x1D, 0x28, 0x01, 0x00, 0x00, 0x0A, 0x2A];
    let out = run(&img, true, &code).unwrap();
    match &out[0] {
        Statement::Call { args, result, .. } => {
            assert_eq!(args, &vec![Expr::Arg(0), Expr::Int(7)]);
            assert_eq!(*result, None);
        }
        other => panic!("unexpected {:?}", other),
    }
}

#[test]
fn store_then_load_local() {
    let img = empty_image();
    let out = run(&img, false, &[0x1B, 0x0A, 0x06, 0x2A]).unwrap();
    assert_eq!(
        out,
        vec![
            Statement::Assign { local: 0, value: Expr::Int(5) },
            Statement::Return(Some(Expr::Local(0))),
        ]
    );
}

#[test]
fn unsupported_opcode_fails_without_touching_other_methods() {
    // Blob 1: void (); blob 3: int32 ().
    let blobs = vec![0, 3, 0x00, 0x00, 0x01, 3, 0x00, 0x00, 0x08];
    let methods = vec![
        method_entry("First", 1, &[0x2A]),
        method_entry("Second", 1, &[0x25, 0x2A]),
        method_entry("Third", 5, &[0x1F, 0x09, 0x2A]),
    ];
    let img = image(vec![0], blobs, vec![], vec![], methods);
    let first = decompile_method(&img, 0).unwrap();
    assert_eq!(first, vec![Statement::Return(None)]);
    assert_eq!(decompile_method(&img, 1), Err(Error::UnimplementedOpcode(0x25)));
    assert_eq!(decompile_method(&img, 0).unwrap(), first);
    assert_eq!(decompile_method(&img, 2).unwrap(), vec![Statement::Return(Some(Expr::Int(9)))]);
}

#[test]
fn stack_underflow_is_reported() {
    let img = empty_image();
    assert_eq!(run(&img, false, &[0x58, 0x2A]), Err(Error::StackUnderflow));
    assert_eq!(run(&img, false, &[0x2A]), Err(Error::StackUnderflow));
}

#[test]
fn unknown_string_token_is_reported() {
    let img = empty_image();
    let code = [0x72, 0x09, 0x00, 0x00, 0x70, 0x2A];
    assert_eq!(run(&img, true, &code), Err(Error::UnresolvedToken(Token(0x7000_0009))));
}

#[test]
fn unconditional_branch_and_true_test() {
    let img = empty_image();
    // ldarg.0; brtrue.s 1; nop; br.s -5 (back to offset 0)... then ret
    let code = [0x02, 0x2D, 0x01, 0x00, 0x2B, 0xFA, 0x2A];
    let out = run(&img, true, &code).unwrap();
    assert_eq!(
        out,
        vec![
            Statement::Label(0),
            Statement::IfGoto {
                condition: Expr::Compare { comparison: Comparison::One, left: Box::new(Expr::Arg(0)), right: None },
                target: 4,
            },
            Statement::Label(4),
            Statement::Goto(0),
            Statement::Return(None),
        ]
    );
}

#[test]
fn conversions_and_bitwise_operators() {
    let img = empty_image();
    // ldarg.0; conv.i8; ldarg.1; shl; ldarg.2; xor; ret
    let code = [0x02, 0x6A, 0x03, 0x62, 0x04, 0x61, 0x2A];
    let out = run(&img, false, &code).unwrap();
    assert_eq!(
        out,
        vec![Statement::Return(Some(Expr::Binary {
            op: BinaryOp::Xor,
            left: Box::new(Expr::Binary {
                op: BinaryOp::ShiftLeft,
                left: Box::new(Expr::Convert { bits: 64, value: Box::new(Expr::Arg(0)) }),
                right: Box::new(Expr::Arg(1)),
            }),
            right: Box::new(Expr::Arg(2)),
        }))]
    );
}

#[test]
fn compare_pops_right_then_left() {
    let img = empty_image();
    // ldarg.0; ldarg.1; clt; ret
    let out = run(&img, false, &[0x02, 0x03, 0xFE, 0x04, 0x2A]).unwrap();
    assert_eq!(
        out,
        vec![Statement::Return(Some(Expr::Compare {
            comparison: Comparison::Less,
            left: Box::new(Expr::Arg(0)),
            right: Some(Box::new(Expr::Arg(1))),
        }))]
    );
}

#[test]
fn method_def_call_uses_this_type() {
    let blobs = vec![0, 3, 0x00, 0x00, 0x01];
    let methods = vec![method_entry("Helper", 1, &[0x2A])];
    let img = image(vec![0], blobs, vec![], vec![], methods);
    let resolved = img.resolve_method(Token(0x0600_0001)).unwrap();
    assert_eq!(resolved.0, TypeName { namespace: "".to_string(), name: "this".to_string() });
    assert_eq!(resolved.1, "Helper");
    assert!(img.resolve_method(Token(0x0200_0001)).is_none());
    assert!(img.resolve_method(Token(0x0600_0002)).is_none());
}

#[test]
fn type_name_paths() {
    let t = TypeName { namespace: "System.Collections".to_string(), name: "List".to_string() };
    assert_eq!(t.full_name(), "System.Collections.List");
    assert_eq!(t.path_cxx(), "System::Collections::List");
    let g = TypeName { namespace: "".to_string(), name: "Program".to_string() };
    assert_eq!(g.path_cxx(), "Program");
}

#[test]
fn class_name_of_member_parent() {
    let img = console_image();
    let t = img.class_name(9).unwrap().unwrap();
    assert_eq!(t.name, "Console");
    assert!(img.class_name(2 << 3 | 1).unwrap().is_none());
    assert!(img.class_name(7).is_err());
}

#[test]
fn labels_are_recomputed_identically() {
    // ldarg.0; brfalse.s 2; ldc.i4.1; ret; ldc.i4.0; br.s -5; ret
    let code = [0x02, 0x2C, 0x02, 0x17, 0x2A, 0x16, 0x2B, 0xFB, 0x2A];
    let body = decode_body(&code).unwrap();
    let first = cil::decompiler::label_offsets(&body);
    let second = cil::decompiler::label_offsets(&decode_body(&code).unwrap());
    assert_eq!(first, second);
    assert_eq!(first, vec![5, 3]);
}

#[test]
fn methods_that_cannot_be_read_are_reported() {
    // Blob 1 holds an unknown element tag.
    let blobs = vec![0, 3, 0x00, 0x00, 0x99];
    let mut broken_body = method_entry("Broken", 1, &[0x2A]);
    broken_body.body = Err(cil::error::Error::Malformed);
    let methods = vec![method_entry("BadSig", 1, &[0x2A]), broken_body];
    let img = image(vec![0], blobs, vec![], vec![], methods);
    assert_eq!(decompile_method(&img, 0), Err(Error::MalformedMethod));
    assert_eq!(decompile_method(&img, 1), Err(Error::MalformedMethod));
    assert_eq!(decompile_method(&img, 2), Err(Error::MalformedMethod));
}
