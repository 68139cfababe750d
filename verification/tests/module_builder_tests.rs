use henrylang::builtin_funcs::define_builtin_mod;
use henrylang::env::Import;
use henrylang::module_builder::{Global, ModuleBuilder};
use henrylang::wasmtypes::{FuncTypeSignature, Numtype};

fn contains(haystack: &[u8], needle: &[u8]) -> bool {
    haystack.windows(needle.len()).any(|w| w == needle)
}

fn sig(args: Vec<Numtype>, ret: Numtype) -> FuncTypeSignature {
    FuncTypeSignature::new(args, Some(ret))
}

#[test]
fn empty_module_bytes() {
    let m = ModuleBuilder::default();
    let expected: Vec<u8> = vec![
        0x00, 0x61, 0x73, 0x6d, 0x01, 0x00, 0x00, 0x00, // magic and version
        0x01, 0x01, 0x00, // types
        0x02, 0x01, 0x00, // imports
        0x03, 0x01, 0x00, // functions
        0x04, 0x04, 0x01, 0x70, 0x00, 0x00, // table
        0x05, 0x03, 0x01, 0x00, 0x01, // memory
        0x06, 0x0b, 0x02, 0x7f, 0x01, 0x41, 0x00, 0x0b, 0x7f, 0x01, 0x41, 0x01, 0x0b, // globals
        0x07, 0x0a, 0x01, 0x06, b'm', b'e', b'm', b'o', b'r', b'y', 0x02, 0x00, // exports
        0x09, 0x01, 0x00, // elements
        0x0c, 0x01, 0x00, // data count
        0x0a, 0x01, 0x00, // code
        0x0b, 0x01, 0x00, // data
    ];
    assert_eq!(m.program(), expected);
}

#[test]
fn equal_signatures_share_an_index() {
    let mut m = ModuleBuilder::default();
    let a = m.get_functype_idx(&sig(vec![Numtype::I32], Numtype::I32));
    let b = m.get_functype_idx(&sig(vec![Numtype::F32], Numtype::F32));
    let c = m.get_functype_idx(&sig(vec![Numtype::I32], Numtype::I32));
    assert_eq!((a, b, c), (0, 1, 0));
    assert_eq!(m.functypes.len(), 2);
}

#[test]
fn equal_data_shares_a_segment() {
    let mut m = ModuleBuilder::default();
    assert_eq!(m.add_data(b"hello".to_vec()), Ok(0));
    assert_eq!(m.add_data(b"world".to_vec()), Ok(1));
    assert_eq!(m.add_data(b"hello".to_vec()), Ok(0));
    let bytes = m.program();
    // the data count and the two passive segments
    assert!(contains(&bytes, &[0x0c, 0x01, 0x02]));
    assert!(contains(&bytes, &[0x0b, 0x0f, 0x02, 0x01, 0x05, b'h', b'e', b'l', b'l', b'o', 0x01, 0x05, b'w']));
}

#[test]
fn functions_count_after_imports() {
    let mut m = ModuleBuilder::default();
    let import = Import::new("env", "print[Int]", sig(vec![Numtype::I32], Numtype::I32));
    assert_eq!(m.add_import(&import), 0);
    assert_eq!(m.n_imports(), 1);
    let idx = m
        .add_function(&sig(vec![Numtype::I32], Numtype::I32), vec![], vec![0x20, 0x00, 0x0b], Some("main".to_string()))
        .unwrap();
    assert_eq!(idx, 1);
    assert_eq!(m.n_funcs(), 1);
    // the import and the function share one signature
    assert_eq!(m.functypes.len(), 1);
    assert_eq!(m.funcs, vec![0]);
    let bytes = m.program();
    assert!(contains(&bytes, &[0x04, 0x00, 0x20, 0x00, 0x0b]));
    assert!(contains(&bytes, &[0x04, b'm', b'a', b'i', b'n', 0x00, 0x01]));
    // the element segment puts the function in the table at position 0
    assert!(contains(&bytes, &[0x09, 0x07, 0x01, 0x00, 0x41, 0x00, 0x0b, 0x01, 0x01]));
}

#[test]
fn import_entry_names_module_field_and_signature() {
    let mut m = ModuleBuilder::default();
    let import = Import::new("env", "f", sig(vec![], Numtype::F32));
    m.add_import(&import);
    assert_eq!(m.imports[0], vec![0x03, b'e', b'n', b'v', 0x01, b'f', 0x00, 0x00]);
}

#[test]
fn builtin_functions_are_added_with_their_locals() {
    let mut m = ModuleBuilder::default();
    let idx = m.add_builtin(&define_builtin_mod()).unwrap();
    assert_eq!(idx, 0);
    assert_eq!(m.func_bodies.len(), 1);
    assert_eq!(
        m.func_bodies[0],
        vec![
            39, 1, 1, 0x7f, 0x20, 0, 0x20, 1, 0x6f, 0x22, 2, 0x41, 0, 0x48, 0x04, 0x7f, 0x20, 1, 0x41, 0, 0x48, 0x04,
            0x7f, 0x20, 2, 0x20, 1, 0x6b, 0x05, 0x20, 2, 0x20, 1, 0x6a, 0x0b, 0x05, 0x20, 2, 0x0b, 0x0b
        ]
    );
}

#[test]
fn globals_are_added_after_the_memory_globals() {
    let mut m = ModuleBuilder::default();
    let idx = m.add_global(Global::new(Numtype::I64, false, 7));
    assert_eq!(idx, 2);
    let bytes = m.program();
    assert!(contains(&bytes, &[0x06, 0x10, 0x03]));
    assert!(contains(&bytes, &[0x7e, 0x00, 0x42, 0x07, 0x0b]));
}

#[test]
fn table_size_is_a_full_count() {
    let mut m = ModuleBuilder::default();
    let f = define_builtin_mod();
    for _ in 0..200 {
        m.add_builtin(&f).unwrap();
    }
    let bytes = m.program();
    // table section: id 4, size 5, one table of funcref, limits flag 0, minimum 200 in LEB128
    assert!(contains(&bytes, &[0x04, 0x05, 0x01, 0x70, 0x00, 0xc8, 0x01]));
}
