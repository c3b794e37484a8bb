use cil::coded::{MemberRefParent, TypeDefOrRef};
use cil::error::Error;
use cil::header::CliHeader;
use cil::lowering::{Comparison, Opcode, OverflowCheck};
use cil::meta::{Guid, GuidIndex, LogicalMetadataTables, PhysicalMetadata, StringIndex, Token, TokenKind};
use cil::opcodes::{decode_at, decode_body, Operand, RawOpcode};
use cil::signature::{Element, MethodCallType, SignatureKind, StandaloneMethodSignature};
use cil::strings::{guid_at_index, read_guids, BlobHeap, StringHeap, UserStringHeap};
use cil::varint::{read_compressed_u32, write_compressed_u32};

#[test]
fn compressed_values_round_trip() {
    for n in [0u32, 1, 0x7F, 0x80, 0x3FFF, 0x4000, 0x12345, 0x1FFF_FFFF] {
        let bytes = write_compressed_u32(n);
        assert_eq!(read_compressed_u32(&bytes, 0), Some((n, bytes.len())));
    }
    assert_eq!(write_compressed_u32(0x80), vec![0x80, 0x80]);
    assert_eq!(write_compressed_u32(0x4000), vec![0xC0, 0x00, 0x40, 0x00]);
}

#[test]
fn compressed_fourth_quadrant_fails() {
    assert_eq!(read_compressed_u32(&[0xE0, 0, 0, 0], 0), None);
    assert_eq!(read_compressed_u32(&[0xFF], 0), None);
    assert_eq!(read_compressed_u32(&[0x81], 0), None);
    assert_eq!(read_compressed_u32(&[0xC0, 1, 2], 0), None);
}

#[test]
fn compressed_two_and_four_byte_forms() {
    assert_eq!(read_compressed_u32(&[0xAE, 0x57], 0), Some((0x2E57, 2)));
    assert_eq!(read_compressed_u32(&[0xDF, 0xFF, 0xFF, 0xFF], 0), Some((0x1FFF_FFFF, 4)));
    assert_eq!(read_compressed_u32(&[0x00, 0x03], 1), Some((3, 2)));
}

#[test]
fn token_parts() {
    let t = Token(0x0A00_0123);
    assert_eq!(t.index(), 0x123);
    assert_eq!(t.kind_raw(), 0x0A);
    assert_eq!(t.kind(), TokenKind::MemberRef);
    assert_eq!(Token(0x7000_0001).kind(), TokenKind::UserString);
    assert_eq!(Token(0x6600_0001).kind(), TokenKind::Unknown);
    assert_eq!(Token(0xFFFF_FFFF).index(), 0xFF_FFFF);
    assert_eq!(TokenKind::from_tag(0x2C), TokenKind::GenericParamConstraint);
    assert_eq!(TokenKind::TypeDef.tag(), 0x02);
}

#[test]
fn string_heap_lookups() {
    let heap = StringHeap::new(b"\0Foo\0Bar\0\xFF\0".to_vec());
    assert_eq!(heap.get(StringIndex(0)), Some(String::new()));
    assert_eq!(heap.get(StringIndex(1)), Some("Foo".to_string()));
    assert_eq!(heap.get(StringIndex(2)), Some("oo".to_string()));
    assert_eq!(heap.get(StringIndex(5)), Some("Bar".to_string()));
    assert_eq!(heap.get(StringIndex(9)), None);
    assert_eq!(heap.get(StringIndex(200)), None);
    assert_eq!(heap.try_get(StringIndex(9)), Err(Error::Malformed));
    assert_eq!(StringHeap::new(vec![]).get(StringIndex(0)), Some(String::new()));
}

#[test]
fn string_heap_unterminated_run_ends_at_heap_end() {
    let heap = StringHeap::new(b"\0abc".to_vec());
    assert_eq!(heap.get(StringIndex(1)), Some("abc".to_string()));
}

#[test]
fn blob_heap_lookups() {
    let heap = BlobHeap::new(vec![0, 3, 1, 2, 3, 0x80, 0x02, 9, 9, 5, 1]);
    assert_eq!(heap.get(0), Some(&[][..]));
    assert_eq!(heap.get(1), Some(&[1u8, 2, 3][..]));
    assert_eq!(heap.get(5), Some(&[9u8, 9][..]));
    assert_eq!(heap.get(9), None);
    assert_eq!(heap.get(100), None);
}

#[test]
fn user_string_heap_decodes_utf16() {
    let heap = UserStringHeap::new(vec![0, 7, b'a', 0, 0xE9, 0, b'z', 0, 1, 2, 0xFF]);
    assert_eq!(heap.get(Token(0x7000_0001)), Some("a\u{e9}z".to_string()));
    assert_eq!(heap.get(Token(0x7000_0009)), None);
    assert_eq!(heap.get(Token(0x7000_0000)), Some(String::new()));
}

#[test]
fn guid_records() {
    let mut data: Vec<u8> = (1..=16).collect();
    data.extend_from_slice(&[0xAA; 20]);
    let guids = read_guids(&data);
    assert_eq!(guids.len(), 2);
    assert_eq!(guids[0].data1, 0x0403_0201);
    assert_eq!(guids[0].data2, 0x0605);
    assert_eq!(guids[0].data3, 0x0807);
    assert_eq!(guids[0].data4, [9, 10, 11, 12, 13, 14, 15, 16]);
    let first: Option<Guid> = guid_at_index(&guids, GuidIndex(1));
    assert_eq!(first.map(|g| g.data1), Some(0x0403_0201));
    assert!(guid_at_index(&guids, GuidIndex(0)).is_none());
    assert!(guid_at_index(&guids, GuidIndex(3)).is_none());
}

#[test]
fn coded_indices() {
    assert_eq!(TypeDefOrRef::decode(0x0D), Some(TypeDefOrRef::TypeRef(3)));
    assert_eq!(TypeDefOrRef::decode(0x08), Some(TypeDefOrRef::TypeDef(2)));
    assert_eq!(TypeDefOrRef::decode(0x06), Some(TypeDefOrRef::TypeSpec(1)));
    assert_eq!(TypeDefOrRef::decode(0x07), None);
    assert_eq!(MemberRefParent::decode(0x11), Some(MemberRefParent::TypeRef(2)));
    assert_eq!(MemberRefParent::decode(0x0C), Some(MemberRefParent::TypeSpec(1)));
    assert_eq!(MemberRefParent::decode(0x0D), None);
}

#[test]
fn decode_instructions_with_operands() {
    let op = decode_at(&[0x20, 0x78, 0x56, 0x34, 0x12], 0).unwrap();
    assert_eq!(op, RawOpcode { code: 0x20, operand: Operand::I32(0x1234_5678) });
    assert_eq!(op.size(), 5);
    let op = decode_at(&[0xFE, 0x0C, 0x02, 0x01], 0).unwrap();
    assert_eq!(op, RawOpcode { code: 0xFE0C, operand: Operand::U16(0x0102) });
    assert_eq!(op.size(), 4);
    let sw = decode_at(&[0x45, 2, 0, 0, 0, 1, 0, 0, 0, 0xFF, 0xFF, 0xFF, 0xFF], 0).unwrap();
    assert_eq!(sw.operand, Operand::Switch(vec![1, -1]));
    assert_eq!(sw.size(), 13);
    assert!(decode_at(&[0x45, 2, 0, 0, 0, 1, 0, 0, 0], 0).is_none());
    assert!(decode_at(&[0x24], 0).is_none());
    assert!(decode_at(&[0xFE], 0).is_none());
    assert!(decode_at(&[0x28, 1, 0], 0).is_none());
}

#[test]
fn decode_body_offsets_and_errors() {
    let ops = decode_body(&[0x00, 0x1F, 0xFE, 0x2B, 0x00, 0x2A]).unwrap();
    let offsets: Vec<u32> = ops.iter().map(|(o, _)| *o).collect();
    assert_eq!(offsets, vec![0, 1, 3, 5]);
    assert_eq!(ops[1].1.operand, Operand::I8(-2));
    assert_eq!(decode_body(&[0x00, 0x77]), Err(Error::Malformed));
    assert_eq!(decode_body(&[0x20, 0x01]), Err(Error::Malformed));
    assert_eq!(decode_body(&[]), Ok(vec![]));
}

#[test]
fn branch_targets() {
    let short = RawOpcode { code: 0x2E, operand: Operand::I8(2) };
    assert!(short.is_branch());
    assert_eq!(short.branch_offset(), Some(4));
    assert_eq!(short.branch_target(2), Some(6));
    let long = RawOpcode { code: 0x38, operand: Operand::I32(-10) };
    assert_eq!(long.branch_target(20), Some(15));
    let not_branch = RawOpcode { code: 0x2A, operand: Operand::Empty };
    assert!(!not_branch.is_branch());
    assert_eq!(not_branch.branch_offset(), None);
    let leave = RawOpcode { code: 0xDE, operand: Operand::I8(3) };
    assert!(!leave.is_branch());
}

#[test]
fn lowering_rules() {
    let raw = |code: u16, operand: Operand| RawOpcode { code, operand };
    assert_eq!(Opcode::lower(raw(0x03, Operand::Empty)), Some(Opcode::LoadArg(1)));
    assert_eq!(Opcode::lower(raw(0x0E, Operand::U8(7))), Some(Opcode::LoadArg(7)));
    assert_eq!(Opcode::lower(raw(0xFE09, Operand::U16(300))), Some(Opcode::LoadArg(300)));
    assert_eq!(Opcode::lower(raw(0x09, Operand::Empty)), Some(Opcode::LoadLocal(3)));
    assert_eq!(Opcode::lower(raw(0x0C, Operand::Empty)), Some(Opcode::StoreLocal(2)));
    assert_eq!(Opcode::lower(raw(0x15, Operand::Empty)), Some(Opcode::LoadConstantI4(-1)));
    assert_eq!(Opcode::lower(raw(0x1E, Operand::Empty)), Some(Opcode::LoadConstantI4(8)));
    assert_eq!(Opcode::lower(raw(0x1F, Operand::I8(-3))), Some(Opcode::LoadConstantI4(-3)));
    assert_eq!(Opcode::lower(raw(0xD7, Operand::Empty)), Some(Opcode::Add(OverflowCheck::Unsigned)));
    assert_eq!(Opcode::lower(raw(0xDA, Operand::Empty)), Some(Opcode::Subtract(OverflowCheck::Signed)));
    assert_eq!(Opcode::lower(raw(0x5C, Operand::Empty)), Some(Opcode::Divide { unsigned: true }));
    assert_eq!(
        Opcode::lower(raw(0x34, Operand::I8(5))),
        Some(Opcode::BranchConditional { offset: 5, comparison: Comparison::GreaterOrEqual, unsigned: true })
    );
    assert_eq!(
        Opcode::lower(raw(0x40, Operand::I32(-7))),
        Some(Opcode::BranchConditional { offset: -7, comparison: Comparison::NotEqual, unsigned: true })
    );
    assert_eq!(
        Opcode::lower(raw(0x39, Operand::I32(9))),
        Some(Opcode::BranchConditional { offset: 9, comparison: Comparison::Zero, unsigned: false })
    );
    assert_eq!(Opcode::lower(raw(0x2B, Operand::I8(-2))), Some(Opcode::Branch(-2)));
    assert_eq!(
        Opcode::lower(raw(0xFE03, Operand::Empty)),
        Some(Opcode::Compare { comparison: Comparison::Greater, unsigned: true })
    );
    assert_eq!(Opcode::lower(raw(0x45, Operand::Switch(vec![3, 4]))), Some(Opcode::Switch { targets: vec![3, 4] }));
    assert_eq!(Opcode::lower(raw(0x25, Operand::Empty)), None);
    assert_eq!(Opcode::lower(raw(0x6F, Operand::Token(Token(0x0A00_0001)))), None);
}

#[test]
fn comparison_operator_text() {
    assert!(Comparison::One.is_true_false());
    assert!(!Comparison::Less.is_true_false());
    assert_eq!(Comparison::LessOrEqual.operator("a", Some("b")), "a <= b");
    assert_eq!(Comparison::Zero.operator("x", None), "x == false");
}

#[test]
fn parse_method_signatures() {
    let sig = StandaloneMethodSignature::parse(&[0x20, 0x02, 0x01, 0x08, 0x0E]).unwrap();
    assert!(sig.header.has_this());
    assert!(!sig.header.explicit_this());
    assert_eq!(sig.header.call_type(), Some(MethodCallType::Default));
    assert_eq!(sig.return_type, Element::Void);
    assert_eq!(sig.parameters, vec![Element::I4, Element::String]);
    let generic = StandaloneMethodSignature::parse(&[0x00, 0x01, 0x15, 0x12, 0x09, 0x02, 0x08, 0x1E, 0x00, 0x1D, 0x13, 0x01]).unwrap();
    assert_eq!(
        generic.return_type,
        Element::GenericInst {
            generic_type: Box::new(Element::Class(TypeDefOrRef::TypeRef(2))),
            generic_args: vec![Element::I4, Element::MVar(0)],
        }
    );
    assert_eq!(generic.parameters, vec![Element::SzArray(Box::new(Element::Var(1)))]);
}

#[test]
fn signature_errors() {
    assert_eq!(StandaloneMethodSignature::parse(&[0x00, 0x01, 0x01]).err(), Some(Error::TruncatedSignature));
    assert_eq!(StandaloneMethodSignature::parse(&[0x00, 0x00, 0x99]).err(), Some(Error::UnknownElementTag(0x99)));
    assert_eq!(StandaloneMethodSignature::parse(&[0x00, 0xE0, 0x01]).err(), Some(Error::MalformedBlob));
    assert_eq!(StandaloneMethodSignature::parse(&[]).err(), Some(Error::TruncatedSignature));
    assert_eq!(StandaloneMethodSignature::parse(&[0x00, 0x00, 0x11, 0x03]).err(), Some(Error::Malformed));
}

#[test]
fn function_pointer_and_modifiers() {
    let sig = StandaloneMethodSignature::parse(&[0x00, 0x01, 0x01, 0x1B, 0x00, 0x00, 0x08]).unwrap();
    match &sig.parameters[0] {
        Element::FnPtr(inner) => {
            assert_eq!(inner.return_type, Element::I4);
            assert!(inner.parameters.is_empty());
        }
        other => panic!("unexpected {:?}", other),
    }
    let modded = StandaloneMethodSignature::parse(&[0x00, 0x00, 0x1F, 0x05, 0x0F, 0x45, 0x01]).unwrap();
    assert_eq!(modded.return_type, Element::CModRequired(TypeDefOrRef::TypeRef(1)));
}

#[test]
fn signature_kinds() {
    assert_eq!(SignatureKind::from_byte(0x20), Some(SignatureKind::StandaloneMethod));
    assert_eq!(SignatureKind::from_byte(0x06), Some(SignatureKind::Field));
    assert_eq!(SignatureKind::from_byte(0x07), Some(SignatureKind::LocalVar));
    assert_eq!(SignatureKind::from_byte(0x08), Some(SignatureKind::Property));
    assert_eq!(SignatureKind::from_byte(0x0A), None);
}

#[test]
fn cli_header_record() {
    let mut d = vec![0u8; 4];
    d.extend_from_slice(&72u32.to_le_bytes());
    d.extend_from_slice(&2u16.to_le_bytes());
    d.extend_from_slice(&5u16.to_le_bytes());
    d.extend_from_slice(&0x2080u32.to_le_bytes());
    d.extend_from_slice(&0x300u32.to_le_bytes());
    d.extend_from_slice(&0xFFFF_FFFFu32.to_le_bytes());
    d.extend_from_slice(&0x0600_0001u32.to_le_bytes());
    d.extend_from_slice(&[0u8; 48]);
    let h = CliHeader::read(&d, 4).unwrap();
    assert_eq!(h.major_version, 2);
    assert_eq!(h.physical_metadata.rva, 0x2080);
    assert_eq!(h.physical_metadata.size, 0x300);
    assert_eq!(h.flags.0, 0x0001_001B);
    assert_eq!(h.entry_point_token, 0x0600_0001);
    assert_eq!(CliHeader::read(&d, 5).err(), Some(Error::Malformed));
}

#[test]
fn metadata_root_and_streams() {
    let mut d = vec![];
    d.extend_from_slice(&0x424A_5342u32.to_le_bytes());
    d.extend_from_slice(&1u16.to_le_bytes());
    d.extend_from_slice(&1u16.to_le_bytes());
    d.extend_from_slice(&0u32.to_le_bytes());
    d.extend_from_slice(&12u32.to_le_bytes());
    d.extend_from_slice(b"v4.0.30319\0\0");
    d.extend_from_slice(&0u16.to_le_bytes());
    d.extend_from_slice(&2u16.to_le_bytes());
    d.extend_from_slice(&0x6Cu32.to_le_bytes());
    d.extend_from_slice(&0x10u32.to_le_bytes());
    d.extend_from_slice(b"#~\0\0");
    d.extend_from_slice(&0x7Cu32.to_le_bytes());
    d.extend_from_slice(&0x20u32.to_le_bytes());
    d.extend_from_slice(b"#Strings\0\0\0\0");
    let m = PhysicalMetadata::read(&d, 0).unwrap();
    assert_eq!(m.version, "v4.0.30319");
    assert_eq!(m.streams.len(), 2);
    assert_eq!(m.streams[0].name, "#~");
    assert_eq!(m.streams[1].name, "#Strings");
    assert_eq!(m.streams[1].offset, 0x7C);
    assert_eq!(m.stream("#Strings").map(|s| s.size), Some(0x20));
    assert!(m.stream("#GUID").is_none());
    let mut bad = d.clone();
    bad[0] = 0;
    assert_eq!(PhysicalMetadata::read(&bad, 0).err(), Some(Error::Malformed));
    assert_eq!(PhysicalMetadata::read(&d[..d.len() - 6], 0).err(), Some(Error::Malformed));
}

#[test]
fn table_stream_header() {
    let mut d = vec![0, 0, 0, 0, 2, 0, 0, 1];
    d.extend_from_slice(&0x0000_0000_0000_0045u64.to_le_bytes());
    d.extend_from_slice(&0u64.to_le_bytes());
    d.extend_from_slice(&1u32.to_le_bytes());
    d.extend_from_slice(&3u32.to_le_bytes());
    d.extend_from_slice(&7u32.to_le_bytes());
    let t = LogicalMetadataTables::read(&d).unwrap();
    assert_eq!(t.major_version, 2);
    assert_eq!(t.valid, 0x45);
    assert_eq!(t.rows_per_table, vec![1, 3, 7]);
    assert_eq!(LogicalMetadataTables::read(&d[..30]).err(), Some(Error::Malformed));
}

#[test]
fn mnemonics() {
    let name = |code: u16, operand: Operand| RawOpcode { code, operand }.asm_name();
    assert_eq!(name(0x00, Operand::Empty), "nop");
    assert_eq!(name(0x02, Operand::Empty), "ldarg.0");
    assert_eq!(name(0x2B, Operand::I8(0)), "br.s");
    assert_eq!(name(0x45, Operand::Switch(vec![])), "switch");
    assert_eq!(name(0xFE01, Operand::Empty), "ceq");
    assert_eq!(name(0xFE1C, Operand::Token(Token(0x0200_0001))), "sizeof");
}

#[test]
fn token_and_guid_text() {
    assert_eq!(Token(0x0A00_0001).text(), "Token(MemberRef, 1)");
    assert_eq!(Token(0x6600_002A).text(), "Token(Unknown(102), 42)");
    let g = Guid { data1: 0x1234_ABCD, data2: 0x0A0B, data3: 0xC, data4: [0, 1, 0xAB, 0xCD, 0xEF, 0x10, 0x20, 0xFF] };
    assert_eq!(g.text(), "{1234ABCD-0A0B-000C-0001-ABCDEF1020FF}");
}

#[test]
fn default_signature_is_void_without_parameters() {
    let sig = StandaloneMethodSignature::default();
    assert_eq!(sig.header.0, 0);
    assert_eq!(sig.return_type, Element::Void);
    assert!(sig.parameters.is_empty());
}

#[test]
fn well_formedness_ties_operand_to_opcode() {
    assert!(RawOpcode { code: 0x2B, operand: Operand::I8(1) }.is_wf());
    assert!(!RawOpcode { code: 0x2B, operand: Operand::Empty }.is_wf());
    assert!(!RawOpcode { code: 0x24, operand: Operand::Empty }.is_wf());
}
