use henrylang::ast::Type;
use henrylang::wasmtypes::{
    concat_all, encode_string, function_body, function_type, memcopy, meminit, section_from_chunks,
    section_from_values, signed_leb128, unsigned_leb128, vector, ExportType, FuncTypeSignature, Numtype, Opcode,
    SectionType,
};

#[test]
fn leb128_small_values() {
    assert_eq!(unsigned_leb128(0), vec![0x00]);
    assert_eq!(unsigned_leb128(127), vec![0x7f]);
    assert_eq!(unsigned_leb128(128), vec![0x80, 0x01]);
    assert_eq!(unsigned_leb128(624485), vec![0xe5, 0x8e, 0x26]);
    assert_eq!(unsigned_leb128(u32::MAX), vec![0xff, 0xff, 0xff, 0xff, 0x0f]);
}

#[test]
fn leb128_signed_encodings() {
    assert_eq!(signed_leb128(-1), vec![0x7f]);
    assert_eq!(signed_leb128(5), vec![0x05]);
    assert_eq!(signed_leb128(63), vec![0x3f]);
    assert_eq!(signed_leb128(64), vec![0xc0, 0x00]);
    assert_eq!(signed_leb128(100), vec![0xe4, 0x00]);
    assert_eq!(signed_leb128(-64), vec![0x40]);
    assert_eq!(signed_leb128(-65), vec![0xbf, 0x7f]);
    assert_eq!(signed_leb128(-123456), vec![0xc0, 0xbb, 0x78]);
    assert_eq!(signed_leb128(i32::MAX), vec![0xff, 0xff, 0xff, 0xff, 0x07]);
    assert_eq!(signed_leb128(i32::MIN), vec![0x80, 0x80, 0x80, 0x80, 0x78]);
}

fn decode_signed(bytes: &[u8]) -> i64 {
    let mut result: i64 = 0;
    let mut shift = 0;
    for &b in bytes {
        result |= ((b & 0x7f) as i64) << shift;
        shift += 7;
        if b & 0x80 == 0 {
            if b & 0x40 != 0 {
                result |= -1i64 << shift;
            }
            break;
        }
    }
    result
}

#[test]
fn leb128_signed_roundtrip() {
    for value in [0, 1, -1, 63, 64, -64, -65, 127, 128, -128, -129, 8191, 8192, -8192, -8193, i32::MAX, i32::MIN] {
        assert_eq!(decode_signed(&signed_leb128(value)), value as i64);
    }
}

#[test]
fn leb128_decodes_back() {
    for value in [0u32, 1, 63, 64, 127, 128, 300, 16383, 16384, 1 << 21, u32::MAX - 1, u32::MAX] {
        let bytes = unsigned_leb128(value);
        let mut decoded: u64 = 0;
        for (i, b) in bytes.iter().enumerate() {
            decoded |= ((b & 0x7f) as u64) << (7 * i);
            assert_eq!(b & 0x80 != 0, i + 1 < bytes.len());
        }
        assert_eq!(decoded, value as u64);
        assert!(bytes.len() <= 5);
    }
}

#[test]
fn vectors_and_strings_are_prefixed_by_length() {
    assert_eq!(vector(vec![]), vec![0x00]);
    assert_eq!(vector(vec![9, 8, 7]), vec![0x03, 9, 8, 7]);
    assert_eq!(encode_string("memory"), vec![0x06, b'm', b'e', b'm', b'o', b'r', b'y']);
    assert_eq!(encode_string("é"), vec![0x02, 0xc3, 0xa9]);
}

#[test]
fn sections_count_their_entries() {
    let chunks = vec![vec![1u8, 2], vec![3u8]];
    assert_eq!(concat_all(&chunks), vec![1, 2, 3]);
    assert_eq!(section_from_chunks(SectionType::Code, &chunks), vec![0x0a, 0x04, 0x02, 1, 2, 3]);
    assert_eq!(section_from_chunks(SectionType::Type, &[]), vec![0x01, 0x01, 0x00]);
    assert_eq!(section_from_values(SectionType::Function, &[0, 200]), vec![0x03, 0x04, 0x02, 0x00, 0xc8, 0x01]);
}

#[test]
fn function_types_and_bodies() {
    assert_eq!(function_type(vec![0x7f, 0x7f], vec![0x7f]), vec![0x60, 0x02, 0x7f, 0x7f, 0x01, 0x7f]);
    assert_eq!(function_body(vec![], vec![0x0b]), vec![0x02, 0x00, 0x0b]);
    assert_eq!(function_body(vec![0x7f, 0x7e], vec![0x0b]), vec![0x06, 0x02, 0x01, 0x7f, 0x01, 0x7e, 0x0b]);
}

#[test]
fn signature_encodings() {
    let sig = FuncTypeSignature::new(vec![Numtype::I32, Numtype::F32], Some(Numtype::I64));
    assert_eq!(sig.as_functype(), vec![0x60, 0x02, 0x7f, 0x7d, 0x01, 0x7e]);
    let none = FuncTypeSignature::new(vec![], None);
    assert_eq!(none.as_functype(), vec![0x60, 0x00, 0x00]);
    assert!(sig.same_as(&sig.duplicate()));
    assert!(!sig.same_as(&none));
    let d = FuncTypeSignature::default();
    assert!(d.same_as(&none));
}

#[test]
fn signatures_of_language_function_types() {
    let f = Type::Func(vec![Type::Int, Type::Str], Box::new(Type::Float));
    let sig = FuncTypeSignature::from_ast_type(&f).unwrap();
    assert_eq!(sig.args, vec![Numtype::I32, Numtype::I64]);
    assert_eq!(sig.ret, Some(Numtype::F32));
    assert_eq!(
        FuncTypeSignature::from_ast_type(&Type::Int).unwrap_err(),
        "Cannot convert type Int to WASM FuncTypeSignature"
    );
}

#[test]
fn numtypes_of_language_types() {
    assert_eq!(Numtype::from_ast_type(&Type::Int).unwrap(), Numtype::I32);
    assert_eq!(Numtype::from_ast_type(&Type::Bool).unwrap(), Numtype::I32);
    assert_eq!(Numtype::from_ast_type(&Type::Float).unwrap(), Numtype::F32);
    assert_eq!(Numtype::from_ast_type(&Type::Str).unwrap(), Numtype::I64);
    assert_eq!(Numtype::from_ast_type(&Type::Arr(Box::new(Type::Int))).unwrap(), Numtype::I64);
    assert_eq!(
        Numtype::from_ast_type(&Type::Func(vec![], Box::new(Type::Int))).unwrap(),
        Numtype::I32
    );
    let td = Type::TypeDef(vec![Type::Int], Box::new(Type::Int));
    assert_eq!(Numtype::from_ast_type(&td).unwrap_err(), "Cannot convert type TypeDef([Int], Int) to WASM Numtype");
}

#[test]
fn numtype_sizes_and_instructions() {
    assert_eq!(Numtype::I32.size(), 4);
    assert_eq!(Numtype::I64.size(), 8);
    assert_eq!(Numtype::F32.size(), 4);
    assert_eq!(Numtype::Void.size(), 0);
    assert_eq!(Numtype::I64.const_op(), Opcode::I64Const);
    assert_eq!(Numtype::F32.load_op(), Opcode::F32Load);
    assert_eq!(Numtype::I32.store_op(), Opcode::I32Store);
    assert_eq!(Numtype::Void.to_byte(), 0x40);
    assert_eq!(ExportType::Memory.to_byte(), 0x02);
    assert_eq!(SectionType::DataCount.to_byte(), 0x0c);
    assert_eq!(Opcode::CallIndirect.to_byte(), 0x11);
}

#[test]
fn bulk_memory_instructions() {
    assert_eq!(meminit(), vec![0xfc, 0x08]);
    assert_eq!(memcopy(), vec![0xfc, 0x0a, 0x00, 0x00]);
}
