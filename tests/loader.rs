use cil::decompiler::{decompile_method, BinaryOp, Expr, Statement};
use cil::error::Error;
use cil::image::{CilImage, MethodBody};
use cil::tables::method::{Method, MethodAttributes, MethodImplAttributes};
use cil::meta::Token;
use cil::tables::Visibility;

fn u16le(v: &mut Vec<u8>, x: u16) {
    v.extend_from_slice(&x.to_le_bytes());
}

fn u32le(v: &mut Vec<u8>, x: u32) {
    v.extend_from_slice(&x.to_le_bytes());
}

fn pad4(v: &mut Vec<u8>) {
    while v.len() % 4 != 0 {
        v.push(0);
    }
}

/// The table stream of a module `Program` with one type and one method.
fn table_stream(valid: u64, heap_sizes: u8) -> Vec<u8> {
    table_stream_with_counts(valid, heap_sizes, &vec![1; valid.count_ones() as usize])
}

/// As `table_stream`, with the row counts given.
fn table_stream_with_counts(valid: u64, heap_sizes: u8, counts: &[u32]) -> Vec<u8> {
    let mut t = vec![0, 0, 0, 0, 2, 0, heap_sizes, 1];
    t.extend_from_slice(&valid.to_le_bytes());
    t.extend_from_slice(&0u64.to_le_bytes());
    for c in counts {
        u32le(&mut t, *c);
    }
    // Module: generation, name, mvid, enc id, enc base id.
    u16le(&mut t, 0);
    u16le(&mut t, 1);
    u16le(&mut t, 1);
    u16le(&mut t, 0);
    u16le(&mut t, 0);
    // TypeDef: flags, name, namespace, extends, field list, method list.
    u32le(&mut t, 1);
    u16le(&mut t, 1);
    u16le(&mut t, 0);
    u16le(&mut t, 0);
    u16le(&mut t, 1);
    u16le(&mut t, 1);
    // MethodDef: rva, impl flags, flags, name, signature, param list.
    u32le(&mut t, 0x2000);
    u16le(&mut t, 0);
    u16le(&mut t, 0x0096);
    u16le(&mut t, 9);
    u16le(&mut t, 1);
    u16le(&mut t, 1);
    t
}

/// A code section at RVA 0x2000: a tiny method body at 0, the CLI header at
/// 8, the metadata root at 80.
fn text_section(tables: Vec<u8>) -> Vec<u8> {
    let mut text = vec![0x12, 0x19, 0x1A, 0x58, 0x2A, 0, 0, 0];
    // CLI header.
    u32le(&mut text, 72);
    u16le(&mut text, 2);
    u16le(&mut text, 5);
    u32le(&mut text, 0x2050);
    u32le(&mut text, 0x200);
    u32le(&mut text, 1);
    u32le(&mut text, 0x0600_0001);
    text.extend_from_slice(&[0u8; 48]);
    assert_eq!(text.len(), 80);
    let streams: Vec<(&str, Vec<u8>)> = vec![
        ("#~", tables),
        ("#Strings", b"\0Program\0Main\0".to_vec()),
        ("#US", vec![0]),
        ("#GUID", (1..=16).collect()),
        ("#Blob", vec![0, 3, 0x00, 0x00, 0x08]),
    ];
    let mut root = vec![];
    u32le(&mut root, 0x424A_5342);
    u16le(&mut root, 1);
    u16le(&mut root, 1);
    u32le(&mut root, 0);
    u32le(&mut root, 4);
    root.extend_from_slice(b"v4\0\0");
    u16le(&mut root, 0);
    u16le(&mut root, streams.len() as u16);
    let mut header_len = 0;
    for (name, _) in &streams {
        header_len += 8 + (name.len() + 1 + 3) / 4 * 4;
    }
    let mut offset = root.len() + header_len;
    let mut bodies = vec![];
    for (name, data) in &streams {
        u32le(&mut root, offset as u32);
        u32le(&mut root, data.len() as u32);
        root.extend_from_slice(name.as_bytes());
        root.push(0);
        pad4(&mut root);
        let mut body = data.clone();
        pad4(&mut body);
        offset += body.len();
        bodies.push(body);
    }
    for b in bodies {
        root.extend_from_slice(&b);
    }
    text.extend_from_slice(&root);
    text
}

#[test]
fn loads_a_small_image() {
    let text = text_section(table_stream(0x45, 0));
    let img = CilImage::from_layout(0x2000, 0x2008, text).unwrap();
    assert_eq!(img.code_base, 0x2000);
    assert_eq!(img.header.physical_metadata.rva, 0x2050);
    assert_eq!(img.header.entry_point_token, 0x0600_0001);
    assert_eq!(img.modules.len(), 1);
    assert_eq!(img.modules[0].name, "Program");
    assert_eq!(img.modules[0].mvid.0, 1);
    assert_eq!(img.guids.len(), 1);
    assert_eq!(img.type_defs.len(), 1);
    assert_eq!(img.type_defs[0].name, "Program");
    assert_eq!(img.type_defs[0].namespace, "");
    assert_eq!(img.type_defs[0].flags.visibility(), Visibility::Public);
    assert_eq!(img.method_defs.len(), 1);
    let entry = &img.method_defs[0];
    assert_eq!(entry.method.name, "Main");
    assert!(entry.method.flags.is_static());
    assert!(!entry.method.flags.is_abstract());
    let body = entry.body.as_ref().unwrap();
    assert_eq!(body.header.code_size, 4);
    assert_eq!(body.header.max_stack, 8);
    assert_eq!(body.opcodes.len(), 4);
    let resolved = img.resolve_method(Token(0x0600_0001)).unwrap();
    assert_eq!(resolved.1, "Main");
    let out = decompile_method(&img, 0).unwrap();
    assert_eq!(
        out,
        vec![Statement::Return(Some(Expr::Binary {
            op: BinaryOp::Add,
            left: Box::new(Expr::Int(3)),
            right: Box::new(Expr::Int(4)),
        }))]
    );
}

#[test]
fn unsupported_and_unknown_tables_fail() {
    let text = text_section(table_stream(0x45 | (1 << 0x12), 0));
    assert_eq!(CilImage::from_layout(0x2000, 0x2008, text).err(), Some(Error::UnsupportedTable(0x12)));
    let text = text_section(table_stream(0x45 | (1 << 0x03), 0));
    assert_eq!(CilImage::from_layout(0x2000, 0x2008, text).err(), Some(Error::UnknownTable(0x03)));
}

#[test]
fn wide_heap_indices_fail() {
    let text = text_section(table_stream(0x45, 1));
    assert_eq!(CilImage::from_layout(0x2000, 0x2008, text).err(), Some(Error::WideIndexUnsupported));
}

#[test]
fn header_outside_the_section_fails() {
    let text = text_section(table_stream(0x45, 0));
    assert_eq!(CilImage::from_layout(0x2000, 0x1000, text.clone()).err(), Some(Error::Malformed));
    assert_eq!(CilImage::from_layout(0x2000, 0x9000, text).err(), Some(Error::Malformed));
}

#[test]
fn missing_stream_is_reported() {
    let mut text = text_section(table_stream(0x45, 0));
    // Rename "#GUID" so that it is no longer found.
    let pos = text.windows(5).position(|w| w == b"#GUID").unwrap();
    text[pos + 1] = b'X';
    assert_eq!(CilImage::from_layout(0x2000, 0x2008, text).err(), Some(Error::MissingStream));
}

#[test]
fn bytes_that_are_not_a_pe_file() {
    assert_eq!(CilImage::read(b"not a portable executable").err(), Some(Error::NotACliImage));
}

/// A minimal PE32 file whose `.text` section (RVA 0x2000, file offset 0x200)
/// holds `text`, with the COM descriptor directory pointing at RVA 0x2008.
fn pe_file(text: &[u8]) -> Vec<u8> {
    let mut f = vec![0u8; 0x200];
    f[0] = b'M';
    f[1] = b'Z';
    f[0x3C..0x40].copy_from_slice(&0x40u32.to_le_bytes());
    let nt = 0x40;
    f[nt..nt + 4].copy_from_slice(b"PE\0\0");
    let fh = nt + 4;
    f[fh..fh + 2].copy_from_slice(&0x014Cu16.to_le_bytes());
    f[fh + 2..fh + 4].copy_from_slice(&1u16.to_le_bytes());
    f[fh + 16..fh + 18].copy_from_slice(&0xE0u16.to_le_bytes());
    f[fh + 18..fh + 20].copy_from_slice(&0x0102u16.to_le_bytes());
    let oh = fh + 20;
    let raw_size = ((text.len() + 0x1FF) / 0x200 * 0x200) as u32;
    f[oh..oh + 2].copy_from_slice(&0x010Bu16.to_le_bytes());
    f[oh + 4..oh + 8].copy_from_slice(&raw_size.to_le_bytes());
    f[oh + 20..oh + 24].copy_from_slice(&0x2000u32.to_le_bytes());
    f[oh + 28..oh + 32].copy_from_slice(&0x0040_0000u32.to_le_bytes());
    f[oh + 32..oh + 36].copy_from_slice(&0x2000u32.to_le_bytes());
    f[oh + 36..oh + 40].copy_from_slice(&0x200u32.to_le_bytes());
    f[oh + 40..oh + 42].copy_from_slice(&4u16.to_le_bytes());
    f[oh + 48..oh + 50].copy_from_slice(&4u16.to_le_bytes());
    f[oh + 56..oh + 60].copy_from_slice(&(0x2000 + raw_size).to_le_bytes());
    f[oh + 60..oh + 64].copy_from_slice(&0x200u32.to_le_bytes());
    f[oh + 68..oh + 70].copy_from_slice(&3u16.to_le_bytes());
    f[oh + 92..oh + 96].copy_from_slice(&16u32.to_le_bytes());
    let com = oh + 96 + 14 * 8;
    f[com..com + 4].copy_from_slice(&0x2008u32.to_le_bytes());
    f[com + 4..com + 8].copy_from_slice(&72u32.to_le_bytes());
    let sh = oh + 0xE0;
    f[sh..sh + 5].copy_from_slice(b".text");
    f[sh + 8..sh + 12].copy_from_slice(&(text.len() as u32).to_le_bytes());
    f[sh + 12..sh + 16].copy_from_slice(&0x2000u32.to_le_bytes());
    f[sh + 16..sh + 20].copy_from_slice(&raw_size.to_le_bytes());
    f[sh + 20..sh + 24].copy_from_slice(&0x200u32.to_le_bytes());
    f[sh + 36..sh + 40].copy_from_slice(&0x6000_0020u32.to_le_bytes());
    let mut data = text.to_vec();
    data.resize(raw_size as usize, 0);
    f.extend_from_slice(&data);
    f
}

#[test]
fn loads_through_the_pe_container() {
    let text = text_section(table_stream(0x45, 0));
    let file = pe_file(&text);
    let img = CilImage::read(&file).unwrap();
    assert_eq!(img.code_base, 0x2000);
    assert_eq!(img.method_defs.len(), 1);
    assert_eq!(img.method_defs[0].method.name, "Main");
    assert_eq!(decompile_method(&img, 0).unwrap().len(), 1);
}

#[test]
fn pe_without_cli_directory_is_not_a_cli_image() {
    let text = text_section(table_stream(0x45, 0));
    let mut file = pe_file(&text);
    let com = 0x40 + 4 + 20 + 96 + 14 * 8;
    file[com..com + 8].copy_from_slice(&[0u8; 8]);
    assert_eq!(CilImage::read(&file).err(), Some(Error::NotACliImage));
}

#[test]
fn unsupported_table_without_rows_loads() {
    let text = text_section(table_stream_with_counts(0x45 | (1 << 0x12), 0, &[1, 1, 1, 0]));
    let img = CilImage::from_layout(0x2000, 0x2008, text).unwrap();
    assert_eq!(img.method_defs.len(), 1);
}

#[test]
fn rows_cut_short_fail() {
    let mut tables = table_stream(0x45, 0);
    tables.truncate(tables.len() - 4);
    let text = text_section(tables);
    assert_eq!(CilImage::from_layout(0x2000, 0x2008, text).err(), Some(Error::Malformed));
}

#[test]
fn bad_metadata_magic_fails() {
    let mut text = text_section(table_stream(0x45, 0));
    text[80] = 0;
    assert_eq!(CilImage::from_layout(0x2000, 0x2008, text).err(), Some(Error::Malformed));
}

#[test]
fn fat_method_header_is_read() {
    // Fat header: flags 0x3013 (three dwords), max stack 2, code size 2, locals token.
    let mut text = vec![0x13, 0x30, 0x02, 0x00, 0x02, 0x00, 0x00, 0x00, 0x01, 0x00, 0x00, 0x11, 0x16, 0x2A];
    let method = Method {
        rva: 0x2000,
        impl_flags: MethodImplAttributes(0),
        flags: MethodAttributes(0x0096),
        name: "F".to_string(),
        signature_blob_index: 1,
        param_list: 1,
    };
    let body = MethodBody::read(&text, 0x2000, &method).unwrap();
    assert_eq!(body.header.max_stack, 2);
    assert_eq!(body.header.code_size, 2);
    assert_eq!(body.header.local_var_sig_token, Some(Token(0x1100_0001)));
    assert_eq!(body.opcodes.len(), 2);
    text[0] = 0x10;
    assert_eq!(MethodBody::read(&text, 0x2000, &method).err(), Some(Error::Malformed));
}
