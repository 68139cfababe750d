use henrylang::builtin_func::BuiltinFunc;
use henrylang::builtin_funcs::{
    define_builtin_abs_float, define_builtin_abs_int, define_builtin_alloc, define_builtin_ftoi, define_builtin_itof,
    define_builtin_mod, define_builtin_sqrt_float, define_builtin_str_len, define_builtin_struct_constructor,
    define_builtin_unwrap,
};
use henrylang::structs::Struct;
use henrylang::wasmtypes::{FuncTypeSignature, Numtype, Opcode};

fn two_params() -> BuiltinFunc {
    BuiltinFunc::new(
        FuncTypeSignature::new(vec![Numtype::I32, Numtype::I32], Some(Numtype::I64)),
        vec!["offset".to_string(), "size".to_string()],
    )
}

#[test]
fn variables_are_numbered_params_first() {
    let mut f = two_params();
    assert_eq!(f.get_var_idx("offset"), Some(vec![0]));
    assert_eq!(f.get_var_idx("size"), Some(vec![1]));
    assert_eq!(f.get_var_idx("tmp"), None);
    f.add_local("tmp", Numtype::F32);
    assert_eq!(f.get_var_idx("tmp"), Some(vec![2]));
    assert_eq!(f.get_local_types(), vec![0x7d]);
    assert_eq!(f.get_signature().args, vec![Numtype::I32, Numtype::I32]);
    assert_eq!(f.get_signature().ret, Some(Numtype::I64));
}

#[test]
fn written_code_is_kept_in_order() {
    let mut f = two_params();
    f.write_opcode(Opcode::LocalGet);
    f.write_var("size");
    f.write_byte(0x01);
    f.write_slice(&[0x02, 0x03]);
    assert_eq!(f.get_bytes(), &[0x20, 0x01, 0x01, 0x02, 0x03]);
}

#[test]
fn fat_pointer_from_offset_and_size() {
    let mut f = two_params();
    f.create_fatptr("offset", "size");
    assert_eq!(f.get_bytes(), &[0x20, 0x00, 0xad, 0x42, 0x20, 0x86, 0x20, 0x01, 0xad, 0x7c]);
}

#[test]
fn memory_pointer_alignment_code() {
    let mut f = two_params();
    f.align_memptr();
    assert_eq!(
        f.get_bytes(),
        &[0x23, 0x00, 0x41, 0x03, 0x6a, 0x23, 0x00, 0x41, 0x03, 0x6a, 0x41, 0x04, 0x70, 0x6b, 0x24, 0x00]
    );
}

#[test]
fn mod_code_bytes() {
    let f = define_builtin_mod();
    assert_eq!(f.get_signature().args, vec![Numtype::I32, Numtype::I32]);
    assert_eq!(f.get_signature().ret, Some(Numtype::I32));
    assert_eq!(
        f.get_bytes(),
        &[
            0x20, 0x00, 0x20, 0x01, 0x6f, 0x22, 0x02, 0x41, 0x00, 0x48, 0x04, 0x7f, 0x20, 0x01, 0x41, 0x00, 0x48,
            0x04, 0x7f, 0x20, 0x02, 0x20, 0x01, 0x6b, 0x05, 0x20, 0x02, 0x20, 0x01, 0x6a, 0x0b, 0x05, 0x20, 0x02,
            0x0b, 0x0b
        ]
    );
    assert_eq!(f.get_local_types(), vec![0x7f]);
}

/// Runs straight-line and if/else i32 code of the kinds `mod` uses, on the
/// given locals, and gives the value left on the stack.
fn run_i32(code: &[u8], locals: &mut Vec<i32>) -> i32 {
    let mut stack: Vec<i32> = Vec::new();
    let mut pc = 0;
    // how deep we are in ifs whose other branch we skip
    while pc < code.len() {
        let op = code[pc];
        pc += 1;
        match op {
            0x20 => { let i = code[pc] as usize; pc += 1; stack.push(locals[i]); }
            0x22 => { let i = code[pc] as usize; pc += 1; locals[i] = *stack.last().unwrap(); }
            0x41 => { let v = code[pc] as i8 as i32; pc += 1; stack.push(v); }
            0x48 => { let b = stack.pop().unwrap(); let a = stack.pop().unwrap(); stack.push((a < b) as i32); }
            0x6a => { let b = stack.pop().unwrap(); let a = stack.pop().unwrap(); stack.push(a.wrapping_add(b)); }
            0x6b => { let b = stack.pop().unwrap(); let a = stack.pop().unwrap(); stack.push(a.wrapping_sub(b)); }
            0x6f => { let b = stack.pop().unwrap(); let a = stack.pop().unwrap(); stack.push(a.wrapping_rem(b)); }
            0x04 => {
                pc += 1; // block type
                let c = stack.pop().unwrap();
                if c == 0 {
                    // skip to the matching else (or end)
                    let mut depth = 0;
                    loop {
                        let o = code[pc];
                        pc += 1;
                        match o {
                            0x04 => { depth += 1; pc += 1; }
                            0x05 if depth == 0 => break,
                            0x0b if depth == 0 => break,
                            0x0b => depth -= 1,
                            0x20 | 0x22 | 0x41 => pc += 1,
                            _ => {}
                        }
                    }
                }
            }
            0x05 => {
                // end of a taken branch: skip the else branch to its end
                let mut depth = 0;
                loop {
                    let o = code[pc];
                    pc += 1;
                    match o {
                        0x04 => { depth += 1; pc += 1; }
                        0x0b if depth == 0 => break,
                        0x0b => depth -= 1,
                        0x20 | 0x22 | 0x41 => pc += 1,
                        _ => {}
                    }
                }
            }
            0x0b => {}
            _ => panic!("unexpected opcode {:#x}", op),
        }
    }
    stack.pop().unwrap()
}

#[test]
fn mod_is_the_euclidean_remainder() {
    let f = define_builtin_mod();
    let cases: [(i32, i32); 11] = [
        (5, 3), (-5, 3), (5, -3), (-5, -3), (6, 3), (-6, -3), (0, 7),
        ((1 << 30) + 5, (1 << 30) + 10), (i32::MIN, 7), (i32::MAX, -2), (-1, i32::MIN),
    ];
    for (x, y) in cases {
        let mut locals = vec![x, y, 0];
        assert_eq!(run_i32(f.get_bytes(), &mut locals), x.rem_euclid(y), "mod({}, {})", x, y);
    }
    let mut locals = vec![5, 3, 0];
    assert_eq!(run_i32(f.get_bytes(), &mut locals), 2);
    let mut locals = vec![-5, 3, 0];
    assert_eq!(run_i32(f.get_bytes(), &mut locals), 1);
    let mut locals = vec![5, -3, 0];
    assert_eq!(run_i32(f.get_bytes(), &mut locals), 2);
}

#[test]
fn abs_of_an_integer_uses_a_mask() {
    let f = define_builtin_abs_int();
    assert_eq!(f.get_local_types(), vec![0x7f]);
    assert_eq!(
        f.get_bytes(),
        &[0x20, 0x00, 0x41, 31, 0x75, 0x22, 0x01, 0x20, 0x00, 0x73, 0x20, 0x01, 0x6b, 0x0b]
    );
}

#[test]
fn float_conversions_are_single_instructions() {
    assert_eq!(define_builtin_abs_float().get_bytes(), &[0x20, 0x00, 0x8b, 0x0b]);
    assert_eq!(define_builtin_itof().get_bytes(), &[0x20, 0x00, 0xb2, 0x0b]);
    assert_eq!(define_builtin_ftoi().get_bytes(), &[0x20, 0x00, 0xa8, 0x0b]);
    assert_eq!(define_builtin_sqrt_float().get_bytes(), &[0x20, 0x00, 0x91, 0x0b]);
    assert_eq!(define_builtin_itof().get_signature().ret, Some(Numtype::F32));
    assert_eq!(define_builtin_ftoi().get_signature().ret, Some(Numtype::I32));
}

#[test]
fn larger_builtins_end_their_code() {
    for f in [define_builtin_alloc(), define_builtin_str_len(), define_builtin_unwrap(Numtype::I64)] {
        assert_eq!(*f.get_bytes().last().unwrap(), 0x0b);
    }
    assert_eq!(define_builtin_alloc().get_signature().args, vec![Numtype::I32]);
    assert_eq!(define_builtin_str_len().get_signature().args, vec![Numtype::I64]);
}

#[test]
fn struct_constructor_stores_each_field() {
    let s = Struct::new(vec![("x".to_string(), Numtype::I32), ("y".to_string(), Numtype::F32)]);
    let f = define_builtin_struct_constructor(&s, 0);
    assert_eq!(f.get_signature().args, vec![Numtype::I32, Numtype::F32]);
    assert_eq!(f.get_signature().ret, Some(Numtype::I64));
    let code = f.get_bytes();
    assert_eq!(*code.last().unwrap(), 0x0b);
    // the size of the struct is allocated first
    assert_eq!(&code[..6], &[0x41, 0x08, 0x22, 0x03, 0x10, 0x00]);
}

/// Runs straight-line code over 64-bit locals, with the instructions that
/// fat pointers are built and split with.
fn run_fatptr_code(code: &[u8], locals: &mut Vec<u64>) {
    let mut stack: Vec<u64> = Vec::new();
    let mut pc = 0;
    while pc < code.len() {
        let op = code[pc];
        pc += 1;
        match op {
            0x20 => { let i = code[pc] as usize; pc += 1; stack.push(locals[i]); }
            0x21 => { let i = code[pc] as usize; pc += 1; locals[i] = stack.pop().unwrap(); }
            0x42 => { let v = code[pc] as u64; pc += 1; stack.push(v); }
            0xad => { let v = stack.pop().unwrap(); stack.push(v as u32 as u64); }
            0xa7 => { let v = stack.pop().unwrap(); stack.push(v as u32 as u64); }
            0x86 => { let b = stack.pop().unwrap(); let a = stack.pop().unwrap(); stack.push(a << b); }
            0x88 => { let b = stack.pop().unwrap(); let a = stack.pop().unwrap(); stack.push(a >> b); }
            0x7c => { let b = stack.pop().unwrap(); let a = stack.pop().unwrap(); stack.push(a.wrapping_add(b)); }
            _ => panic!("unexpected opcode {:#x}", op),
        }
    }
    assert!(stack.is_empty());
}

#[test]
fn splitting_a_fat_pointer_undoes_making_it() {
    let mut f = two_params();
    f.add_local("fp", Numtype::I64);
    f.add_local("o2", Numtype::I32);
    f.add_local("s2", Numtype::I32);
    f.create_fatptr("offset", "size");
    f.write_opcode(Opcode::LocalSet);
    f.write_var("fp");
    f.set_offset_and_size("fp", "o2", "s2");
    for (o, s) in [(0u64, 0u64), (12, 34), (0xffff_ffff, 0xffff_ffff), (0x8000_0000, 1)] {
        let mut locals = vec![o, s, 0, 0, 0];
        run_fatptr_code(f.get_bytes(), &mut locals);
        assert_eq!(locals[2], (o << 32) | s);
        assert_eq!((locals[3], locals[4]), (o, s));
    }
}
