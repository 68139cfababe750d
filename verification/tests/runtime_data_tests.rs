use std::rc::Rc;
use henrylang::ast::Type;
use henrylang::compiler::{Local, LocalData, Upvalue};
use henrylang::env::{powi, Env};
use henrylang::lazy_iter::{ArrayIter, LazyIter, RangeIter, ReverseRangeIter};
use henrylang::structs::Struct;
use henrylang::wasmtypes::Numtype;

#[test]
fn default_environment_has_the_host_functions() {
    let env = Env::default();
    let fields: Vec<&str> = env.imports.iter().map(|i| i.field).collect();
    assert_eq!(fields, vec!["print[Int]", "print[Float]", "pow[Int, Int]", "pow[Float, Float]"]);
    assert!(env.imports.iter().all(|i| i.module == "env"));
    assert_eq!(env.imports[2].sig.args, vec![Numtype::I32, Numtype::I32]);
    assert_eq!(env.imports[1].sig.ret, Some(Numtype::F32));
    assert_eq!(
        env.global_vars,
        vec![
            ("print[Int]".to_string(), 0),
            ("print[Float]".to_string(), 1),
            ("pow[Int, Int]".to_string(), 2),
            ("pow[Float, Float]".to_string(), 3),
        ]
    );
}

#[test]
fn default_environment_types_the_builtins() {
    let env = Env::default();
    assert_eq!(env.global_types.len(), 16);
    let find = |name: &str| env.global_types.iter().find(|v| v.name == name).unwrap().typ.debug_string();
    assert_eq!(find("mod[Int, Int]"), "Func([Int, Int], Int)");
    assert_eq!(find("int[Float]"), "Func([Float], Int)");
    assert_eq!(find("sum[Iter(Float)]"), "Func([Iter(Float)], Float)");
    assert_eq!(find("any[Iter(Bool)]"), "Func([Iter(Bool)], Bool)");
}

#[test]
fn environment_keeps_given_globals() {
    let env = Env::new(vec![("x".to_string(), 9)], vec![]);
    assert_eq!(env.global_vars, vec![("x".to_string(), 9)]);
    assert!(env.global_types.is_empty());
    assert_eq!(env.imports.len(), 4);
}

#[test]
fn integer_power() {
    assert_eq!(powi(2, 10), 1024);
    assert_eq!(powi(-3, 3), -27);
    assert_eq!(powi(7, 0), 1);
    assert_eq!(powi(1, -1), 1);
    assert_eq!(powi(-1, -1), -1);
    assert_eq!(powi(0, 0), 1);
    assert_eq!(powi(0, 5), 0);
    assert_eq!(powi(-1, 4), 1);
    assert_eq!(powi(-2, 31), i32::MIN);
    assert_eq!(powi(46340, 2), 2147395600);
}

#[test]
fn range_counts_up_to_its_end() {
    let mut it = RangeIter::new(3, 6);
    assert_eq!(it.next(), Some(3));
    assert_eq!(*it.into_array(), vec![4, 5]);
    assert_eq!(it.next(), None);
    assert_eq!(*RangeIter::new(2, 2).into_array(), Vec::<i64>::new());
}

#[test]
fn reverse_range_counts_down_to_its_end() {
    let mut it = ReverseRangeIter::new(3, 0);
    assert_eq!(it.next(), Some(3));
    assert_eq!(it.next(), Some(2));
    assert_eq!(*it.into_array(), vec![1]);
    assert_eq!(it.next(), None);
}

#[test]
fn array_iterator_hands_out_clones() {
    let shared = Rc::new(vec!["a".to_string(), "b".to_string()]);
    let mut it = ArrayIter::new(Rc::clone(&shared));
    assert_eq!(it.next(), Some("a".to_string()));
    let arr = it.into_array();
    assert!(Rc::ptr_eq(&arr, &shared));
    assert_eq!(*arr, vec!["a".to_string(), "b".to_string()]);
    assert_eq!(it.next(), Some("b".to_string()));
    assert_eq!(it.next(), None);
}

#[test]
fn bytecode_locals_find_the_innermost() {
    let mut d = LocalData::default();
    assert_eq!(d.scope_depth, -1);
    d.push(Local { name: "x".to_string(), depth: 0 }, false).unwrap();
    d.push(Local { name: "s".to_string(), depth: 0 }, true).unwrap();
    d.push(Local { name: "x".to_string(), depth: 1 }, false).unwrap();
    assert_eq!(d.get_idx("x", false), Some(1));
    assert_eq!(d.get_idx("s", true), Some(0));
    assert_eq!(d.get_idx("s", false), None);
    assert_eq!(d.get_idx("y", true), None);
}

#[test]
fn too_many_bytecode_locals() {
    let mut d = LocalData::default();
    for i in 0..65534 {
        d.push(Local { name: format!("v{}", i), depth: 0 }, false).unwrap();
    }
    let r = d.push(Local { name: "last".to_string(), depth: 0 }, false);
    assert_eq!(r, Err("Too many locals declared in current function"));
    assert_eq!(d.locals.len(), 65535);
    let h = d.push(Local { name: "h".to_string(), depth: 0 }, true);
    assert_eq!(h, Ok(()));
}

#[test]
fn upvalues_compare_by_fields() {
    let a = Upvalue { index: 3, is_local: true };
    assert_eq!(a, Upvalue { index: 3, is_local: true });
    assert_ne!(a, Upvalue { index: 3, is_local: false });
}

#[test]
fn struct_fields_follow_one_another() {
    let s = Struct::new(vec![
        ("a".to_string(), Numtype::I32),
        ("b".to_string(), Numtype::I64),
        ("c".to_string(), Numtype::F32),
    ]);
    let offsets: Vec<u32> = s.fields.iter().map(|f| f.1.offset).collect();
    assert_eq!(offsets, vec![0, 4, 12]);
    assert_eq!(s.size, 16);
    assert_eq!(s.fields[1].0, "b");
    assert_eq!(s.fields[1].1.nt, Numtype::I64);
}

#[test]
fn struct_from_language_types() {
    let s = Struct::from_ast_types(vec![
        ("name".to_string(), Type::Str),
        ("age".to_string(), Type::Int),
        ("ok".to_string(), Type::Bool),
    ]);
    let kinds: Vec<Numtype> = s.fields.iter().map(|f| f.1.nt).collect();
    assert_eq!(kinds, vec![Numtype::I64, Numtype::I32, Numtype::I32]);
    assert_eq!(s.size, 16);
}
