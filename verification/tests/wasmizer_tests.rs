use henrylang::ast::Type;
use henrylang::env::Env;
use henrylang::structs::Struct;
use henrylang::wasmizer::{parse_bool, parse_i32, LocalData, Param, WasmFunc, Wasmizer};
use henrylang::wasmtypes::{FuncTypeSignature, Numtype};

fn contains(haystack: &[u8], needle: &[u8]) -> bool {
    haystack.windows(needle.len()).any(|w| w == needle)
}

fn start_main() -> Wasmizer {
    let mut w = Wasmizer::new(Env::default()).unwrap();
    w.init_func("main".to_string(), &[], &Type::Int, true).unwrap();
    w
}

#[test]
fn constant_function_is_compiled_after_the_builtins() {
    let mut w = start_main();
    w.write_const("42", &Type::Int).unwrap();
    let idx = w.finish_func().unwrap();
    // four imports and six builtin functions come first
    assert_eq!(idx, 10);
    let bytes = w.to_bytes();
    assert_eq!(&bytes[..8], &[0x00, 0x61, 0x73, 0x6d, 0x01, 0x00, 0x00, 0x00]);
    assert!(contains(&bytes, &[0x04, 0x00, 0x41, 0x2a, 0x0b]));
    assert!(contains(&bytes, &[0x04, b'm', b'a', b'i', b'n', 0x00, 0x0a]));
    assert!(contains(&bytes, &[0x03, b'e', b'n', b'v', 0x0a, b'p', b'r', b'i', b'n', b't', b'[', b'I', b'n', b't', b']']));
}

#[test]
fn arithmetic_on_integers() {
    let mut w = start_main();
    w.write_const("2", &Type::Int).unwrap();
    w.write_const("3", &Type::Int).unwrap();
    w.write_add(&Type::Int).unwrap();
    w.write_const("4", &Type::Int).unwrap();
    w.write_mul(&Type::Int).unwrap();
    w.finish_func().unwrap();
    let bytes = w.to_bytes();
    assert!(contains(&bytes, &[0x0a, 0x00, 0x41, 0x02, 0x41, 0x03, 0x6a, 0x41, 0x04, 0x6c, 0x0b]));
}

#[test]
fn negative_constants_are_written_signed() {
    let mut w = start_main();
    w.write_const("-1", &Type::Int).unwrap();
    w.write_negate(&Type::Int).unwrap();
    w.finish_func().unwrap();
    let bytes = w.to_bytes();
    // -1 in signed LEB128, then multiplied by -1
    assert!(contains(&bytes, &[0x41, 0x7f, 0x41, 0x7f, 0x6c, 0x0b]));
}

#[test]
fn large_constants_are_written_signed() {
    let mut w = start_main();
    w.write_const("100", &Type::Int).unwrap();
    w.finish_func().unwrap();
    let bytes = w.to_bytes();
    assert!(contains(&bytes, &[0x41, 0xe4, 0x00, 0x0b]));
}

#[test]
fn float_constants_take_their_bits() {
    let mut w = start_main();
    w.write_float_const(1.5f32.to_bits());
    w.finish_func().unwrap();
    let bytes = w.to_bytes();
    let mut expected = vec![0x43];
    expected.extend_from_slice(&1.5f32.to_le_bytes());
    expected.push(0x0b);
    assert!(contains(&bytes, &expected));
}

#[test]
fn operators_reject_types_they_do_not_take() {
    let mut w = start_main();
    assert_eq!(w.write_add(&Type::Bool).unwrap_err(), "Cannot add values of type Bool");
    assert_eq!(w.write_len(&Type::Int).unwrap_err(), "Cannot get length of type Int");
    assert_eq!(w.call_builtin("nope").unwrap_err(), "Unknown builtin function: nope");
    assert_eq!(w.write_const("abc", &Type::Int).unwrap_err(), "invalid digit found in string");
    assert_eq!(w.write_const("maybe", &Type::Bool).unwrap_err(), "provided string was not `true` or `false`");
    assert_eq!(w.write_const("1", &Type::Arr(Box::new(Type::Int))).unwrap_err(), "unsupported literal of type: Arr(Int)");
}

#[test]
fn string_literals_become_data_segments() {
    let mut w = start_main();
    w.write_const("\"hi\"", &Type::Str).unwrap();
    w.write_const("\"hi\"", &Type::Str).unwrap();
    w.finish_func().unwrap();
    let bytes = w.to_bytes();
    // one passive segment with the bytes between the quotes
    assert!(contains(&bytes, &[0x0b, 0x05, 0x01, 0x01, 0x02, b'h', b'i']));
    assert!(contains(&bytes, &[0x0c, 0x01, 0x01]));
}

#[test]
fn lengths_of_arrays_and_strings() {
    let mut w = start_main();
    w.write_len(&Type::Arr(Box::new(Type::Float))).unwrap();
    w.write_len(&Type::Str).unwrap();
    w.write_len(&Type::Str).unwrap();
    let idx = w.finish_func().unwrap();
    // the string length function was added once, before the main function
    assert_eq!(idx, 11);
    let bytes = w.to_bytes();
    assert!(contains(&bytes, &[0xa7, 0x41, 0x04, 0x6e, 0x10, 0x0a, 0x10, 0x0a, 0x0b]));
}

#[test]
fn struct_fields_are_read_through_the_getters() {
    let mut w = start_main();
    let point = Struct::new(vec![("x".to_string(), Numtype::I32), ("y".to_string(), Numtype::F32)]);
    let ctor = w.create_struct("Point".to_string(), point, false).unwrap();
    assert_eq!(ctor, 10);
    let typ = Type::Object("Point".to_string(), vec![("x".to_string(), Type::Int), ("y".to_string(), Type::Float)]);
    w.get_field(typ, "y").unwrap();
    let idx = w.finish_func().unwrap();
    assert_eq!(idx, 11);
    let bytes = w.to_bytes();
    // offset 4, then the float field getter, the fifth builtin after the imports
    assert!(contains(&bytes, &[0x06, 0x00, 0x41, 0x04, 0x10, 0x08, 0x0b]));
}

#[test]
fn variables_of_a_function_are_numbered_in_order() {
    let mut w = start_main();
    assert_eq!(w.create_variable("a".to_string(), &Type::Int), Ok(0));
    assert_eq!(w.create_variable("b".to_string(), &Type::Float), Ok(1));
    w.write_const("5", &Type::Int).unwrap();
    w.set_variable(0, &Type::Int).unwrap();
    w.finish_func().unwrap();
    let bytes = w.to_bytes();
    // two locals, one of each type
    assert!(contains(&bytes, &[0x02, 0x01, 0x7f, 0x01, 0x7d, 0x41, 0x05]));
}

#[test]
fn integer_literals_parse_as_std_does() {
    for s in ["0", "+7", "-12", "2147483647", "-2147483648", "2147483648", "-2147483649", "", "-", "+", "1a", "ab", " 1"] {
        let expected = s.parse::<i32>().map_err(|e| e.to_string());
        assert_eq!(parse_i32(s), expected, "parsing {:?}", s);
    }
}

#[test]
fn boolean_literals_parse_as_std_does() {
    for s in ["true", "false", "True", "", "1"] {
        let expected = s.parse::<bool>().map_err(|e| e.to_string());
        assert_eq!(parse_bool(s), expected, "parsing {:?}", s);
    }
}

#[test]
fn function_locals_come_after_params() {
    let mut f = WasmFunc::new(
        "f".to_string(),
        FuncTypeSignature::new(vec![Numtype::I32], Some(Numtype::I32)),
        false,
    );
    f.params.push(Param::new("p".to_string()));
    assert_eq!(f.n_params(), 1);
    assert_eq!(f.get_param_idx("p"), Some(0));
    assert_eq!(f.get_param_idx("q"), None);
    f.locals.add_local("x".to_string(), 0x7f);
    assert_eq!(f.get_local_idx("x"), Some(1));
    assert_eq!(f.get_local_idx("p"), None);
}

#[test]
fn global_shadows_of_locals_and_params() {
    let mut f = WasmFunc::new("g".to_string(), FuncTypeSignature::new(vec![], Some(Numtype::I32)), false);
    f.locals.add_local("x".to_string(), 0x7f);
    f.locals.add_local("y".to_string(), 0x7f);
    assert_eq!(f.get_idx_and_global_shadow("y"), Some((1, None)));
    f.add_global_shadow("y", 3);
    assert_eq!(f.get_idx_and_global_shadow("y"), Some((1, Some(3))));
    assert_eq!(f.get_idx_and_global_shadow("x"), Some((0, None)));
    f.params.push(Param::new("p".to_string()));
    f.add_global_shadow("p", 5);
    assert_eq!(f.get_idx_and_global_shadow("p"), Some((0, Some(5))));
    assert_eq!(f.get_idx_and_global_shadow("z"), None);
}

#[test]
fn wasm_locals_find_the_last_of_a_name() {
    let mut d = LocalData::default();
    assert_eq!(d.add_local("a".to_string(), 0x7f), 0);
    assert_eq!(d.add_local("a".to_string(), 0x7e), 1);
    assert_eq!(d.get_idx("a"), Some(1));
    assert_eq!(d.get_idx("b"), None);
}

#[test]
fn local_indices_are_never_reused() {
    let mut d = LocalData::default();
    d.scope_depth = 1;
    assert_eq!(d.add_local("a".to_string(), 0x7f), 0);
    assert_eq!(d.add_local("b".to_string(), 0x7f), 1);
    // leaving the scope drops the locals but not the count
    d.locals.clear();
    d.scope_depth = 0;
    assert_eq!(d.add_local("a".to_string(), 0x7e), 2);
    assert_eq!(d.types, vec![0x7f, 0x7f, 0x7e]);
    assert_eq!(d.get_idx("a"), Some(2));
    assert_eq!(d.n_locals, 3);
}
