use vstd::prelude::*;

use crate::builtin_func::{
    spec_var_index,
    imm, lemma_has_var, lemma_local_at, lemma_no_var, lemma_param_at, memarg, op, spec_copy_mem, spec_create_fatptr,
    spec_align_memptr, spec_iter_call_advance, spec_iter_call_advance_on_inner, spec_iter_call_map_fn,
    spec_set_offset_and_size, spec_zero_const, BuiltinFunc,
};
use crate::scanner::string_push;
use crate::structs::{Struct, StructField};
use crate::wasmtypes::{
    concat_chunks,
    memcopy, signed_leb128, spec_memcopy, spec_sleb128, spec_uleb128, const_imm, i32_const_imm, unsigned_leb128, FuncTypeSignature, Numtype, Opcode,
};
use vstd::string::StringExecFns;

verus! {

/// A list of names.
fn names1(a: &str) -> (v: Vec<String>)
    ensures
        v@.len() == 1,
        v@.map_values(|s: String| s@) == seq![a@],
{
    let mut v: Vec<String> = Vec::new();
    v.push(String::from_str(a));
    assert(v@.map_values(|s: String| s@) =~= seq![a@]);
    v
}

/// A list of names.
fn names2(a: &str, b: &str) -> (v: Vec<String>)
    ensures
        v@.len() == 2,
        v@.map_values(|s: String| s@) == seq![a@, b@],
{
    let mut v: Vec<String> = Vec::new();
    v.push(String::from_str(a));
    v.push(String::from_str(b));
    assert(v@.map_values(|s: String| s@) =~= seq![a@, b@]);
    v
}

/// A list of names.
fn names3(a: &str, b: &str, c: &str) -> (v: Vec<String>)
    ensures
        v@.len() == 3,
        v@.map_values(|s: String| s@) == seq![a@, b@, c@],
{
    let mut v: Vec<String> = Vec::new();
    v.push(String::from_str(a));
    v.push(String::from_str(b));
    v.push(String::from_str(c));
    assert(v@.map_values(|s: String| s@) =~= seq![a@, b@, c@]);
    v
}

/// A list of value types.
fn types3(a: Numtype, b: Numtype, c: Numtype) -> (v: Vec<Numtype>)
    ensures
        v@ == seq![a, b, c],
{
    let mut v: Vec<Numtype> = Vec::new();
    v.push(a);
    v.push(b);
    v.push(c);
    assert(v@ =~= seq![a, b, c]);
    v
}

/// A list of value types.
fn types1(a: Numtype) -> (v: Vec<Numtype>)
    ensures
        v@ == seq![a],
{
    let mut v: Vec<Numtype> = Vec::new();
    v.push(a);
    assert(v@ =~= seq![a]);
    v
}

/// A list of value types.
fn types2(a: Numtype, b: Numtype) -> (v: Vec<Numtype>)
    ensures
        v@ == seq![a, b],
{
    let mut v: Vec<Numtype> = Vec::new();
    v.push(a);
    v.push(b);
    assert(v@ =~= seq![a, b]);
    v
}


/// Code of `define_builtin_alloc`.
#[verifier::opaque]
pub open spec fn spec_alloc_code() -> Seq<u8> {
    op(Opcode::GlobalGet)
        + seq![0x00u8]
        + op(Opcode::LocalSet)
        + seq![1u8]
        + op(Opcode::GlobalGet)
        + seq![0x00u8]
        + op(Opcode::LocalGet)
        + seq![0u8]
        + op(Opcode::I32Add)
        + op(Opcode::GlobalSet)
        + seq![0x00u8]
        + op(Opcode::MemorySize)
        + seq![0x00u8]
        + op(Opcode::I32Const)
        + const_imm(65536)
        + op(Opcode::I32Mul)
        + op(Opcode::LocalTee)
        + seq![2u8]
        + op(Opcode::GlobalGet)
        + seq![0x00u8]
        + op(Opcode::I32LeU)
        + op(Opcode::If)
        + seq![Numtype::Void.spec_byte()]
        + op(Opcode::GlobalGet)
        + seq![0x00u8]
        + op(Opcode::LocalGet)
        + seq![2u8]
        + op(Opcode::I32Sub)
        + op(Opcode::I32Const)
        + const_imm(65536)
        + op(Opcode::I32Add)
        + op(Opcode::I32Const)
        + const_imm(65536)
        + op(Opcode::I32DivU)
        + op(Opcode::MemoryGrow)
        + seq![0x00u8]
        + op(Opcode::Drop)
        + op(Opcode::End)
        + op(Opcode::LocalGet)
        + seq![1u8]
        + op(Opcode::End)
}

/// Grows the memory pointer by `size` bytes, growing memory when it runs
/// out, and returns where the new chunk starts.
#[verifier::spinoff_prover]
#[verifier::rlimit(30)]
pub fn define_builtin_alloc() -> (f: BuiltinFunc)
    ensures
        f.wf(),
        f.sig_args() == seq![Numtype::I32],
        f.sig_ret() == Option::Some(Numtype::I32),
        f.param_names() == seq!["size"@],
        f.local_names() == seq!["offset"@, "current_capacity"@],
        f.spec_local_types() == seq![Numtype::I32, Numtype::I32],
        f.code() == spec_alloc_code(),
{
    let mut func = BuiltinFunc::new(
        FuncTypeSignature::new(types1(Numtype::I32), Option::Some(Numtype::I32)),
        names1("size"),
    );
    proof {
        assert("offset"@ != "size"@) by {
            reveal_strlit("offset");
            reveal_strlit("size");
            assert("offset"@.len() == 6 && "size"@.len() == 4);
        }
        assert("current_capacity"@ != "size"@) by {
            reveal_strlit("current_capacity");
            reveal_strlit("size");
            assert("current_capacity"@.len() == 16 && "size"@.len() == 4);
        }
        assert("current_capacity"@ != "offset"@) by {
            reveal_strlit("current_capacity");
            reveal_strlit("offset");
            assert("current_capacity"@.len() == 16 && "offset"@.len() == 6);
        }
    }
    proof {
        lemma_no_var(func, "offset"@);
    }
    func.add_local("offset", Numtype::I32);
    proof {
        lemma_no_var(func, "current_capacity"@);
    }
    func.add_local("current_capacity", Numtype::I32);
    func.write_opcode(Opcode::GlobalGet);
    assert(func.code() =~= op(Opcode::GlobalGet));
    func.write_byte(0x00);
    func.write_opcode(Opcode::LocalSet);
    proof {
        lemma_param_at(func, "size"@, 0);
        lemma_local_at(func, "offset"@, 0);
        lemma_local_at(func, "current_capacity"@, 1);
    }
    func.write_var("offset");
    func.write_opcode(Opcode::GlobalGet);
    func.write_byte(0x00);
    func.write_opcode(Opcode::LocalGet);
    func.write_var("size");
    func.write_opcode(Opcode::I32Add);
    func.write_opcode(Opcode::GlobalSet);
    assert(func.code() == op(Opcode::GlobalGet)
        + seq![0x00u8]
        + op(Opcode::LocalSet)
        + seq![1u8]
        + op(Opcode::GlobalGet)
        + seq![0x00u8]
        + op(Opcode::LocalGet)
        + seq![0u8]
        + op(Opcode::I32Add)
        + op(Opcode::GlobalSet));
    func.write_byte(0x00);
    func.write_opcode(Opcode::MemorySize);
    func.write_byte(0x00);
    func.write_opcode(Opcode::I32Const);
    let imm_bytes = i32_const_imm(65536);
    func.write_slice(imm_bytes.as_slice());
    func.write_opcode(Opcode::I32Mul);
    func.write_opcode(Opcode::LocalTee);
    func.write_var("current_capacity");
    func.write_opcode(Opcode::GlobalGet);
    func.write_byte(0x00);
    assert(func.code() == op(Opcode::GlobalGet)
        + seq![0x00u8]
        + op(Opcode::LocalSet)
        + seq![1u8]
        + op(Opcode::GlobalGet)
        + seq![0x00u8]
        + op(Opcode::LocalGet)
        + seq![0u8]
        + op(Opcode::I32Add)
        + op(Opcode::GlobalSet)
        + seq![0x00u8]
        + op(Opcode::MemorySize)
        + seq![0x00u8]
        + op(Opcode::I32Const)
        + const_imm(65536)
        + op(Opcode::I32Mul)
        + op(Opcode::LocalTee)
        + seq![2u8]
        + op(Opcode::GlobalGet)
        + seq![0x00u8]);
    func.write_opcode(Opcode::I32LeU);
    func.write_opcode(Opcode::If);
    func.write_byte(Numtype::Void.to_byte());
    func.write_opcode(Opcode::GlobalGet);
    func.write_byte(0x00);
    func.write_opcode(Opcode::LocalGet);
    func.write_var("current_capacity");
    func.write_opcode(Opcode::I32Sub);
    func.write_opcode(Opcode::I32Const);
    let imm_bytes = i32_const_imm(65536);
    func.write_slice(imm_bytes.as_slice());
    assert(func.code() == op(Opcode::GlobalGet)
        + seq![0x00u8]
        + op(Opcode::LocalSet)
        + seq![1u8]
        + op(Opcode::GlobalGet)
        + seq![0x00u8]
        + op(Opcode::LocalGet)
        + seq![0u8]
        + op(Opcode::I32Add)
        + op(Opcode::GlobalSet)
        + seq![0x00u8]
        + op(Opcode::MemorySize)
        + seq![0x00u8]
        + op(Opcode::I32Const)
        + const_imm(65536)
        + op(Opcode::I32Mul)
        + op(Opcode::LocalTee)
        + seq![2u8]
        + op(Opcode::GlobalGet)
        + seq![0x00u8]
        + op(Opcode::I32LeU)
        + op(Opcode::If)
        + seq![Numtype::Void.spec_byte()]
        + op(Opcode::GlobalGet)
        + seq![0x00u8]
        + op(Opcode::LocalGet)
        + seq![2u8]
        + op(Opcode::I32Sub)
        + op(Opcode::I32Const)
        + const_imm(65536));
    func.write_opcode(Opcode::I32Add);
    func.write_opcode(Opcode::I32Const);
    let imm_bytes = i32_const_imm(65536);
    func.write_slice(imm_bytes.as_slice());
    func.write_opcode(Opcode::I32DivU);
    func.write_opcode(Opcode::MemoryGrow);
    func.write_byte(0x00);
    func.write_opcode(Opcode::Drop);
    func.write_opcode(Opcode::End);
    func.write_opcode(Opcode::LocalGet);
    func.write_var("offset");
    assert(func.code() == op(Opcode::GlobalGet)
        + seq![0x00u8]
        + op(Opcode::LocalSet)
        + seq![1u8]
        + op(Opcode::GlobalGet)
        + seq![0x00u8]
        + op(Opcode::LocalGet)
        + seq![0u8]
        + op(Opcode::I32Add)
        + op(Opcode::GlobalSet)
        + seq![0x00u8]
        + op(Opcode::MemorySize)
        + seq![0x00u8]
        + op(Opcode::I32Const)
        + const_imm(65536)
        + op(Opcode::I32Mul)
        + op(Opcode::LocalTee)
        + seq![2u8]
        + op(Opcode::GlobalGet)
        + seq![0x00u8]
        + op(Opcode::I32LeU)
        + op(Opcode::If)
        + seq![Numtype::Void.spec_byte()]
        + op(Opcode::GlobalGet)
        + seq![0x00u8]
        + op(Opcode::LocalGet)
        + seq![2u8]
        + op(Opcode::I32Sub)
        + op(Opcode::I32Const)
        + const_imm(65536)
        + op(Opcode::I32Add)
        + op(Opcode::I32Const)
        + const_imm(65536)
        + op(Opcode::I32DivU)
        + op(Opcode::MemoryGrow)
        + seq![0x00u8]
        + op(Opcode::Drop)
        + op(Opcode::End)
        + op(Opcode::LocalGet)
        + seq![1u8]);
    func.write_opcode(Opcode::End);
    proof {
        reveal(spec_alloc_code);
    }
    assert(func.code() == spec_alloc_code());
    func
}

/// Code of `define_builtin_concat_heap_objs`.
#[verifier::opaque]
pub open spec fn spec_concat_heap_objs_code() -> Seq<u8> {
    spec_set_offset_and_size(seq![0u8], seq![2u8], seq![3u8])
        + spec_set_offset_and_size(seq![1u8], seq![4u8], seq![5u8])
        + spec_copy_mem(seq![2u8], seq![3u8])
        + spec_copy_mem(seq![4u8], seq![5u8])
        + spec_align_memptr()
        + op(Opcode::LocalGet)
        + seq![2u8]
        + op(Opcode::I64ExtendI32U)
        + op(Opcode::I64Const)
        + seq![0x20u8]
        + op(Opcode::I64Shl)
        + op(Opcode::LocalGet)
        + seq![3u8]
        + op(Opcode::LocalGet)
        + seq![5u8]
        + op(Opcode::I32Add)
        + op(Opcode::I64ExtendI32U)
        + op(Opcode::I64Add)
        + op(Opcode::End)
}

/// Copies two heap objects one after the other and returns the fat pointer
/// of the whole.
#[verifier::spinoff_prover]
#[verifier::rlimit(30)]
pub fn define_builtin_concat_heap_objs() -> (f: BuiltinFunc)
    ensures
        f.wf(),
        f.sig_args() == seq![Numtype::I64, Numtype::I64],
        f.sig_ret() == Option::Some(Numtype::I64),
        f.param_names() == seq!["fatptr1"@, "fatptr2"@],
        f.local_names() == seq!["offset1"@, "size1"@, "offset2"@, "size2"@],
        f.spec_local_types() == seq![Numtype::I32, Numtype::I32, Numtype::I32, Numtype::I32],
        f.code() == spec_concat_heap_objs_code(),
{
    let mut func = BuiltinFunc::new(
        FuncTypeSignature::new(types2(Numtype::I64, Numtype::I64), Option::Some(Numtype::I64)),
        names2("fatptr1", "fatptr2"),
    );
    proof {
        assert("fatptr2"@ != "fatptr1"@) by {
            reveal_strlit("fatptr2");
            reveal_strlit("fatptr1");
            assert("fatptr2"@[6] != "fatptr1"@[6]);
        }
        assert("offset1"@ != "fatptr1"@) by {
            reveal_strlit("offset1");
            reveal_strlit("fatptr1");
            assert("offset1"@[0] != "fatptr1"@[0]);
        }
        assert("offset1"@ != "fatptr2"@) by {
            reveal_strlit("offset1");
            reveal_strlit("fatptr2");
            assert("offset1"@[0] != "fatptr2"@[0]);
        }
        assert("size1"@ != "fatptr1"@) by {
            reveal_strlit("size1");
            reveal_strlit("fatptr1");
            assert("size1"@.len() == 5 && "fatptr1"@.len() == 7);
        }
        assert("size1"@ != "fatptr2"@) by {
            reveal_strlit("size1");
            reveal_strlit("fatptr2");
            assert("size1"@.len() == 5 && "fatptr2"@.len() == 7);
        }
        assert("size1"@ != "offset1"@) by {
            reveal_strlit("size1");
            reveal_strlit("offset1");
            assert("size1"@.len() == 5 && "offset1"@.len() == 7);
        }
        assert("offset2"@ != "fatptr1"@) by {
            reveal_strlit("offset2");
            reveal_strlit("fatptr1");
            assert("offset2"@[0] != "fatptr1"@[0]);
        }
        assert("offset2"@ != "fatptr2"@) by {
            reveal_strlit("offset2");
            reveal_strlit("fatptr2");
            assert("offset2"@[0] != "fatptr2"@[0]);
        }
        assert("offset2"@ != "offset1"@) by {
            reveal_strlit("offset2");
            reveal_strlit("offset1");
            assert("offset2"@[6] != "offset1"@[6]);
        }
        assert("offset2"@ != "size1"@) by {
            reveal_strlit("offset2");
            reveal_strlit("size1");
            assert("offset2"@.len() == 7 && "size1"@.len() == 5);
        }
        assert("size2"@ != "fatptr1"@) by {
            reveal_strlit("size2");
            reveal_strlit("fatptr1");
            assert("size2"@.len() == 5 && "fatptr1"@.len() == 7);
        }
        assert("size2"@ != "fatptr2"@) by {
            reveal_strlit("size2");
            reveal_strlit("fatptr2");
            assert("size2"@.len() == 5 && "fatptr2"@.len() == 7);
        }
        assert("size2"@ != "offset1"@) by {
            reveal_strlit("size2");
            reveal_strlit("offset1");
            assert("size2"@.len() == 5 && "offset1"@.len() == 7);
        }
        assert("size2"@ != "size1"@) by {
            reveal_strlit("size2");
            reveal_strlit("size1");
            assert("size2"@[4] != "size1"@[4]);
        }
        assert("size2"@ != "offset2"@) by {
            reveal_strlit("size2");
            reveal_strlit("offset2");
            assert("size2"@.len() == 5 && "offset2"@.len() == 7);
        }
    }
    proof {
        lemma_no_var(func, "offset1"@);
    }
    func.add_local("offset1", Numtype::I32);
    proof {
        lemma_no_var(func, "size1"@);
    }
    func.add_local("size1", Numtype::I32);
    proof {
        lemma_no_var(func, "offset2"@);
    }
    func.add_local("offset2", Numtype::I32);
    proof {
        lemma_no_var(func, "size2"@);
    }
    func.add_local("size2", Numtype::I32);
    proof {
        lemma_param_at(func, "fatptr1"@, 0);
        lemma_param_at(func, "fatptr2"@, 1);
        lemma_local_at(func, "offset1"@, 0);
        lemma_local_at(func, "size1"@, 1);
        lemma_local_at(func, "offset2"@, 2);
        lemma_local_at(func, "size2"@, 3);
    }
    func.set_offset_and_size("fatptr1", "offset1", "size1");
    assert(func.code() =~= spec_set_offset_and_size(seq![0u8], seq![2u8], seq![3u8]));
    func.set_offset_and_size("fatptr2", "offset2", "size2");
    func.copy_mem("offset1", "size1");
    func.copy_mem("offset2", "size2");
    func.align_memptr();
    func.write_opcode(Opcode::LocalGet);
    func.write_var("offset1");
    func.write_opcode(Opcode::I64ExtendI32U);
    func.write_opcode(Opcode::I64Const);
    func.write_byte(0x20);
    assert(func.code() == spec_set_offset_and_size(seq![0u8], seq![2u8], seq![3u8])
        + spec_set_offset_and_size(seq![1u8], seq![4u8], seq![5u8])
        + spec_copy_mem(seq![2u8], seq![3u8])
        + spec_copy_mem(seq![4u8], seq![5u8])
        + spec_align_memptr()
        + op(Opcode::LocalGet)
        + seq![2u8]
        + op(Opcode::I64ExtendI32U)
        + op(Opcode::I64Const)
        + seq![0x20u8]);
    func.write_opcode(Opcode::I64Shl);
    func.write_opcode(Opcode::LocalGet);
    func.write_var("size1");
    func.write_opcode(Opcode::LocalGet);
    func.write_var("size2");
    func.write_opcode(Opcode::I32Add);
    func.write_opcode(Opcode::I64ExtendI32U);
    func.write_opcode(Opcode::I64Add);
    func.write_opcode(Opcode::End);
    proof {
        reveal(spec_concat_heap_objs_code);
    }
    assert(func.code() == spec_concat_heap_objs_code());
    func
}

/// Code of `define_builtin_heap_objs_equal`.
#[verifier::opaque]
pub open spec fn spec_heap_objs_equal_code() -> Seq<u8> {
    spec_set_offset_and_size(seq![0u8], seq![2u8], seq![3u8])
        + spec_set_offset_and_size(seq![1u8], seq![4u8], seq![5u8])
        + op(Opcode::LocalGet)
        + seq![3u8]
        + op(Opcode::LocalGet)
        + seq![5u8]
        + op(Opcode::I32Eq)
        + op(Opcode::If)
        + seq![Numtype::I32.spec_byte()]
        + op(Opcode::I32Const)
        + seq![0x00u8]
        + op(Opcode::LocalSet)
        + seq![6u8]
        + op(Opcode::I32Const)
        + seq![0x01u8]
        + op(Opcode::LocalSet)
        + seq![7u8]
        + op(Opcode::Loop)
        + seq![Numtype::Void.spec_byte()]
        + op(Opcode::LocalGet)
        + seq![6u8]
        + op(Opcode::LocalGet)
        + seq![2u8]
        + op(Opcode::I32Add)
        + op(Opcode::I32Load)
        + memarg()
        + op(Opcode::LocalGet)
        + seq![6u8]
        + op(Opcode::LocalGet)
        + seq![4u8]
        + op(Opcode::I32Add)
        + op(Opcode::I32Load)
        + memarg()
        + op(Opcode::I32Eq)
        + op(Opcode::LocalTee)
        + seq![7u8]
        + op(Opcode::LocalGet)
        + seq![6u8]
        + op(Opcode::I32Const)
        + seq![0x04u8]
        + op(Opcode::I32Add)
        + op(Opcode::LocalTee)
        + seq![6u8]
        + op(Opcode::LocalGet)
        + seq![3u8]
        + op(Opcode::I32LtU)
        + op(Opcode::I32And)
        + op(Opcode::BrIf)
        + seq![0x00u8]
        + op(Opcode::End)
        + op(Opcode::LocalGet)
        + seq![7u8]
        + op(Opcode::Else)
        + op(Opcode::I32Const)
        + seq![0u8]
        + op(Opcode::End)
        + op(Opcode::End)
}

/// Compares two heap objects four bytes at a time; 1 when they are equal.
#[verifier::spinoff_prover]
#[verifier::rlimit(30)]
pub fn define_builtin_heap_objs_equal() -> (f: BuiltinFunc)
    ensures
        f.wf(),
        f.sig_args() == seq![Numtype::I64, Numtype::I64],
        f.sig_ret() == Option::Some(Numtype::I32),
        f.param_names() == seq!["fatptr1"@, "fatptr2"@],
        f.local_names() == seq!["offset1"@, "size1"@, "offset2"@, "size2"@, "inner_offset"@, "equal"@],
        f.spec_local_types() == seq![Numtype::I32, Numtype::I32, Numtype::I32, Numtype::I32, Numtype::I32, Numtype::I32],
        f.code() == spec_heap_objs_equal_code(),
{
    let mut func = BuiltinFunc::new(
        FuncTypeSignature::new(types2(Numtype::I64, Numtype::I64), Option::Some(Numtype::I32)),
        names2("fatptr1", "fatptr2"),
    );
    proof {
        assert("fatptr2"@ != "fatptr1"@) by {
            reveal_strlit("fatptr2");
            reveal_strlit("fatptr1");
            assert("fatptr2"@[6] != "fatptr1"@[6]);
        }
        assert("offset1"@ != "fatptr1"@) by {
            reveal_strlit("offset1");
            reveal_strlit("fatptr1");
            assert("offset1"@[0] != "fatptr1"@[0]);
        }
        assert("offset1"@ != "fatptr2"@) by {
            reveal_strlit("offset1");
            reveal_strlit("fatptr2");
            assert("offset1"@[0] != "fatptr2"@[0]);
        }
        assert("size1"@ != "fatptr1"@) by {
            reveal_strlit("size1");
            reveal_strlit("fatptr1");
            assert("size1"@.len() == 5 && "fatptr1"@.len() == 7);
        }
        assert("size1"@ != "fatptr2"@) by {
            reveal_strlit("size1");
            reveal_strlit("fatptr2");
            assert("size1"@.len() == 5 && "fatptr2"@.len() == 7);
        }
        assert("size1"@ != "offset1"@) by {
            reveal_strlit("size1");
            reveal_strlit("offset1");
            assert("size1"@.len() == 5 && "offset1"@.len() == 7);
        }
        assert("offset2"@ != "fatptr1"@) by {
            reveal_strlit("offset2");
            reveal_strlit("fatptr1");
            assert("offset2"@[0] != "fatptr1"@[0]);
        }
        assert("offset2"@ != "fatptr2"@) by {
            reveal_strlit("offset2");
            reveal_strlit("fatptr2");
            assert("offset2"@[0] != "fatptr2"@[0]);
        }
        assert("offset2"@ != "offset1"@) by {
            reveal_strlit("offset2");
            reveal_strlit("offset1");
            assert("offset2"@[6] != "offset1"@[6]);
        }
        assert("offset2"@ != "size1"@) by {
            reveal_strlit("offset2");
            reveal_strlit("size1");
            assert("offset2"@.len() == 7 && "size1"@.len() == 5);
        }
        assert("size2"@ != "fatptr1"@) by {
            reveal_strlit("size2");
            reveal_strlit("fatptr1");
            assert("size2"@.len() == 5 && "fatptr1"@.len() == 7);
        }
        assert("size2"@ != "fatptr2"@) by {
            reveal_strlit("size2");
            reveal_strlit("fatptr2");
            assert("size2"@.len() == 5 && "fatptr2"@.len() == 7);
        }
        assert("size2"@ != "offset1"@) by {
            reveal_strlit("size2");
            reveal_strlit("offset1");
            assert("size2"@.len() == 5 && "offset1"@.len() == 7);
        }
        assert("size2"@ != "size1"@) by {
            reveal_strlit("size2");
            reveal_strlit("size1");
            assert("size2"@[4] != "size1"@[4]);
        }
        assert("size2"@ != "offset2"@) by {
            reveal_strlit("size2");
            reveal_strlit("offset2");
            assert("size2"@.len() == 5 && "offset2"@.len() == 7);
        }
        assert("inner_offset"@ != "fatptr1"@) by {
            reveal_strlit("inner_offset");
            reveal_strlit("fatptr1");
            assert("inner_offset"@.len() == 12 && "fatptr1"@.len() == 7);
        }
        assert("inner_offset"@ != "fatptr2"@) by {
            reveal_strlit("inner_offset");
            reveal_strlit("fatptr2");
            assert("inner_offset"@.len() == 12 && "fatptr2"@.len() == 7);
        }
        assert("inner_offset"@ != "offset1"@) by {
            reveal_strlit("inner_offset");
            reveal_strlit("offset1");
            assert("inner_offset"@.len() == 12 && "offset1"@.len() == 7);
        }
        assert("inner_offset"@ != "size1"@) by {
            reveal_strlit("inner_offset");
            reveal_strlit("size1");
            assert("inner_offset"@.len() == 12 && "size1"@.len() == 5);
        }
        assert("inner_offset"@ != "offset2"@) by {
            reveal_strlit("inner_offset");
            reveal_strlit("offset2");
            assert("inner_offset"@.len() == 12 && "offset2"@.len() == 7);
        }
        assert("inner_offset"@ != "size2"@) by {
            reveal_strlit("inner_offset");
            reveal_strlit("size2");
            assert("inner_offset"@.len() == 12 && "size2"@.len() == 5);
        }
        assert("equal"@ != "fatptr1"@) by {
            reveal_strlit("equal");
            reveal_strlit("fatptr1");
            assert("equal"@.len() == 5 && "fatptr1"@.len() == 7);
        }
        assert("equal"@ != "fatptr2"@) by {
            reveal_strlit("equal");
            reveal_strlit("fatptr2");
            assert("equal"@.len() == 5 && "fatptr2"@.len() == 7);
        }
        assert("equal"@ != "offset1"@) by {
            reveal_strlit("equal");
            reveal_strlit("offset1");
            assert("equal"@.len() == 5 && "offset1"@.len() == 7);
        }
        assert("equal"@ != "size1"@) by {
            reveal_strlit("equal");
            reveal_strlit("size1");
            assert("equal"@[0] != "size1"@[0]);
        }
        assert("equal"@ != "offset2"@) by {
            reveal_strlit("equal");
            reveal_strlit("offset2");
            assert("equal"@.len() == 5 && "offset2"@.len() == 7);
        }
        assert("equal"@ != "size2"@) by {
            reveal_strlit("equal");
            reveal_strlit("size2");
            assert("equal"@[0] != "size2"@[0]);
        }
        assert("equal"@ != "inner_offset"@) by {
            reveal_strlit("equal");
            reveal_strlit("inner_offset");
            assert("equal"@.len() == 5 && "inner_offset"@.len() == 12);
        }
    }
    proof {
        lemma_no_var(func, "offset1"@);
    }
    func.add_local("offset1", Numtype::I32);
    proof {
        lemma_no_var(func, "size1"@);
    }
    func.add_local("size1", Numtype::I32);
    proof {
        lemma_no_var(func, "offset2"@);
    }
    func.add_local("offset2", Numtype::I32);
    proof {
        lemma_no_var(func, "size2"@);
    }
    func.add_local("size2", Numtype::I32);
    proof {
        lemma_param_at(func, "fatptr1"@, 0);
        lemma_param_at(func, "fatptr2"@, 1);
        lemma_local_at(func, "offset1"@, 0);
        lemma_local_at(func, "size1"@, 1);
        lemma_local_at(func, "offset2"@, 2);
        lemma_local_at(func, "size2"@, 3);
    }
    func.set_offset_and_size("fatptr1", "offset1", "size1");
    assert(func.code() =~= spec_set_offset_and_size(seq![0u8], seq![2u8], seq![3u8]));
    func.set_offset_and_size("fatptr2", "offset2", "size2");
    func.write_opcode(Opcode::LocalGet);
    func.write_var("size1");
    func.write_opcode(Opcode::LocalGet);
    func.write_var("size2");
    func.write_opcode(Opcode::I32Eq);
    func.write_opcode(Opcode::If);
    func.write_byte(Numtype::I32.to_byte());
    proof {
        lemma_no_var(func, "inner_offset"@);
    }
    func.add_local("inner_offset", Numtype::I32);
    func.write_opcode(Opcode::I32Const);
    assert(func.code() == spec_set_offset_and_size(seq![0u8], seq![2u8], seq![3u8])
        + spec_set_offset_and_size(seq![1u8], seq![4u8], seq![5u8])
        + op(Opcode::LocalGet)
        + seq![3u8]
        + op(Opcode::LocalGet)
        + seq![5u8]
        + op(Opcode::I32Eq)
        + op(Opcode::If)
        + seq![Numtype::I32.spec_byte()]
        + op(Opcode::I32Const));
    func.write_byte(0x00);
    func.write_opcode(Opcode::LocalSet);
    proof {
        lemma_param_at(func, "fatptr1"@, 0);
        lemma_param_at(func, "fatptr2"@, 1);
        lemma_local_at(func, "offset1"@, 0);
        lemma_local_at(func, "size1"@, 1);
        lemma_local_at(func, "offset2"@, 2);
        lemma_local_at(func, "size2"@, 3);
        lemma_local_at(func, "inner_offset"@, 4);
    }
    func.write_var("inner_offset");
    proof {
        lemma_no_var(func, "equal"@);
    }
    func.add_local("equal", Numtype::I32);
    func.write_opcode(Opcode::I32Const);
    func.write_byte(0x01);
    func.write_opcode(Opcode::LocalSet);
    proof {
        lemma_param_at(func, "fatptr1"@, 0);
        lemma_param_at(func, "fatptr2"@, 1);
        lemma_local_at(func, "offset1"@, 0);
        lemma_local_at(func, "size1"@, 1);
        lemma_local_at(func, "offset2"@, 2);
        lemma_local_at(func, "size2"@, 3);
        lemma_local_at(func, "inner_offset"@, 4);
        lemma_local_at(func, "equal"@, 5);
    }
    func.write_var("equal");
    func.write_opcode(Opcode::Loop);
    func.write_byte(Numtype::Void.to_byte());
    func.write_opcode(Opcode::LocalGet);
    assert(func.code() == spec_set_offset_and_size(seq![0u8], seq![2u8], seq![3u8])
        + spec_set_offset_and_size(seq![1u8], seq![4u8], seq![5u8])
        + op(Opcode::LocalGet)
        + seq![3u8]
        + op(Opcode::LocalGet)
        + seq![5u8]
        + op(Opcode::I32Eq)
        + op(Opcode::If)
        + seq![Numtype::I32.spec_byte()]
        + op(Opcode::I32Const)
        + seq![0x00u8]
        + op(Opcode::LocalSet)
        + seq![6u8]
        + op(Opcode::I32Const)
        + seq![0x01u8]
        + op(Opcode::LocalSet)
        + seq![7u8]
        + op(Opcode::Loop)
        + seq![Numtype::Void.spec_byte()]
        + op(Opcode::LocalGet));
    func.write_var("inner_offset");
    func.write_opcode(Opcode::LocalGet);
    func.write_var("offset1");
    func.write_opcode(Opcode::I32Add);
    func.write_opcode(Opcode::I32Load);
    func.write_byte(0x02);
    func.write_byte(0x00);
    func.write_opcode(Opcode::LocalGet);
    func.write_var("inner_offset");
    func.write_opcode(Opcode::LocalGet);
    func.write_var("offset2");
    assert(func.code() == spec_set_offset_and_size(seq![0u8], seq![2u8], seq![3u8])
        + spec_set_offset_and_size(seq![1u8], seq![4u8], seq![5u8])
        + op(Opcode::LocalGet)
        + seq![3u8]
        + op(Opcode::LocalGet)
        + seq![5u8]
        + op(Opcode::I32Eq)
        + op(Opcode::If)
        + seq![Numtype::I32.spec_byte()]
        + op(Opcode::I32Const)
        + seq![0x00u8]
        + op(Opcode::LocalSet)
        + seq![6u8]
        + op(Opcode::I32Const)
        + seq![0x01u8]
        + op(Opcode::LocalSet)
        + seq![7u8]
        + op(Opcode::Loop)
        + seq![Numtype::Void.spec_byte()]
        + op(Opcode::LocalGet)
        + seq![6u8]
        + op(Opcode::LocalGet)
        + seq![2u8]
        + op(Opcode::I32Add)
        + op(Opcode::I32Load)
        + memarg()
        + op(Opcode::LocalGet)
        + seq![6u8]
        + op(Opcode::LocalGet)
        + seq![4u8]);
    func.write_opcode(Opcode::I32Add);
    func.write_opcode(Opcode::I32Load);
    func.write_byte(0x02);
    func.write_byte(0x00);
    func.write_opcode(Opcode::I32Eq);
    func.write_opcode(Opcode::LocalTee);
    func.write_var("equal");
    func.write_opcode(Opcode::LocalGet);
    func.write_var("inner_offset");
    func.write_opcode(Opcode::I32Const);
    func.write_byte(0x04);
    assert(func.code() == spec_set_offset_and_size(seq![0u8], seq![2u8], seq![3u8])
        + spec_set_offset_and_size(seq![1u8], seq![4u8], seq![5u8])
        + op(Opcode::LocalGet)
        + seq![3u8]
        + op(Opcode::LocalGet)
        + seq![5u8]
        + op(Opcode::I32Eq)
        + op(Opcode::If)
        + seq![Numtype::I32.spec_byte()]
        + op(Opcode::I32Const)
        + seq![0x00u8]
        + op(Opcode::LocalSet)
        + seq![6u8]
        + op(Opcode::I32Const)
        + seq![0x01u8]
        + op(Opcode::LocalSet)
        + seq![7u8]
        + op(Opcode::Loop)
        + seq![Numtype::Void.spec_byte()]
        + op(Opcode::LocalGet)
        + seq![6u8]
        + op(Opcode::LocalGet)
        + seq![2u8]
        + op(Opcode::I32Add)
        + op(Opcode::I32Load)
        + memarg()
        + op(Opcode::LocalGet)
        + seq![6u8]
        + op(Opcode::LocalGet)
        + seq![4u8]
        + op(Opcode::I32Add)
        + op(Opcode::I32Load)
        + memarg()
        + op(Opcode::I32Eq)
        + op(Opcode::LocalTee)
        + seq![7u8]
        + op(Opcode::LocalGet)
        + seq![6u8]
        + op(Opcode::I32Const)
        + seq![0x04u8]);
    func.write_opcode(Opcode::I32Add);
    func.write_opcode(Opcode::LocalTee);
    func.write_var("inner_offset");
    func.write_opcode(Opcode::LocalGet);
    func.write_var("size1");
    func.write_opcode(Opcode::I32LtU);
    func.write_opcode(Opcode::I32And);
    func.write_opcode(Opcode::BrIf);
    func.write_byte(0x00);
    func.write_opcode(Opcode::End);
    assert(func.code() == spec_set_offset_and_size(seq![0u8], seq![2u8], seq![3u8])
        + spec_set_offset_and_size(seq![1u8], seq![4u8], seq![5u8])
        + op(Opcode::LocalGet)
        + seq![3u8]
        + op(Opcode::LocalGet)
        + seq![5u8]
        + op(Opcode::I32Eq)
        + op(Opcode::If)
        + seq![Numtype::I32.spec_byte()]
        + op(Opcode::I32Const)
        + seq![0x00u8]
        + op(Opcode::LocalSet)
        + seq![6u8]
        + op(Opcode::I32Const)
        + seq![0x01u8]
        + op(Opcode::LocalSet)
        + seq![7u8]
        + op(Opcode::Loop)
        + seq![Numtype::Void.spec_byte()]
        + op(Opcode::LocalGet)
        + seq![6u8]
        + op(Opcode::LocalGet)
        + seq![2u8]
        + op(Opcode::I32Add)
        + op(Opcode::I32Load)
        + memarg()
        + op(Opcode::LocalGet)
        + seq![6u8]
        + op(Opcode::LocalGet)
        + seq![4u8]
        + op(Opcode::I32Add)
        + op(Opcode::I32Load)
        + memarg()
        + op(Opcode::I32Eq)
        + op(Opcode::LocalTee)
        + seq![7u8]
        + op(Opcode::LocalGet)
        + seq![6u8]
        + op(Opcode::I32Const)
        + seq![0x04u8]
        + op(Opcode::I32Add)
        + op(Opcode::LocalTee)
        + seq![6u8]
        + op(Opcode::LocalGet)
        + seq![3u8]
        + op(Opcode::I32LtU)
        + op(Opcode::I32And)
        + op(Opcode::BrIf)
        + seq![0x00u8]
        + op(Opcode::End));
    func.write_opcode(Opcode::LocalGet);
    func.write_var("equal");
    func.write_opcode(Opcode::Else);
    func.write_opcode(Opcode::I32Const);
    func.write_byte(0);
    func.write_opcode(Opcode::End);
    func.write_opcode(Opcode::End);
    proof {
        reveal(spec_heap_objs_equal_code);
    }
    assert(func.code() == spec_heap_objs_equal_code());
    func
}

/// Code of `define_builtin_get_i32_field`.
#[verifier::opaque]
pub open spec fn spec_get_i32_field_code() -> Seq<u8> {
    op(Opcode::LocalGet)
        + seq![0u8]
        + op(Opcode::I64Const)
        + seq![0x20u8]
        + op(Opcode::I64ShrU)
        + op(Opcode::I32WrapI64)
        + op(Opcode::LocalTee)
        + seq![2u8]
        + op(Opcode::LocalGet)
        + seq![1u8]
        + op(Opcode::I32Add)
        + op(Opcode::I32Load)
        + memarg()
        + op(Opcode::End)
}

/// Reads the field at `field_offset` of the object a fat pointer points at.
#[verifier::spinoff_prover]
#[verifier::rlimit(30)]
pub fn define_builtin_get_i32_field() -> (f: BuiltinFunc)
    ensures
        f.wf(),
        f.sig_args() == seq![Numtype::I64, Numtype::I32],
        f.sig_ret() == Option::Some(Numtype::I32),
        f.param_names() == seq!["obj"@, "field_offset"@],
        f.local_names() == seq!["obj_offset"@],
        f.spec_local_types() == seq![Numtype::I32],
        f.code() == spec_get_i32_field_code(),
{
    let mut func = BuiltinFunc::new(
        FuncTypeSignature::new(types2(Numtype::I64, Numtype::I32), Option::Some(Numtype::I32)),
        names2("obj", "field_offset"),
    );
    proof {
        assert("field_offset"@ != "obj"@) by {
            reveal_strlit("field_offset");
            reveal_strlit("obj");
            assert("field_offset"@.len() == 12 && "obj"@.len() == 3);
        }
        assert("obj_offset"@ != "obj"@) by {
            reveal_strlit("obj_offset");
            reveal_strlit("obj");
            assert("obj_offset"@.len() == 10 && "obj"@.len() == 3);
        }
        assert("obj_offset"@ != "field_offset"@) by {
            reveal_strlit("obj_offset");
            reveal_strlit("field_offset");
            assert("obj_offset"@.len() == 10 && "field_offset"@.len() == 12);
        }
    }
    proof {
        lemma_no_var(func, "obj_offset"@);
    }
    func.add_local("obj_offset", Numtype::I32);
    func.write_opcode(Opcode::LocalGet);
    assert(func.code() =~= op(Opcode::LocalGet));
    proof {
        lemma_param_at(func, "obj"@, 0);
        lemma_param_at(func, "field_offset"@, 1);
        lemma_local_at(func, "obj_offset"@, 0);
    }
    func.write_var("obj");
    func.write_opcode(Opcode::I64Const);
    func.write_byte(0x20);
    func.write_opcode(Opcode::I64ShrU);
    func.write_opcode(Opcode::I32WrapI64);
    func.write_opcode(Opcode::LocalTee);
    func.write_var("obj_offset");
    func.write_opcode(Opcode::LocalGet);
    func.write_var("field_offset");
    assert(func.code() == op(Opcode::LocalGet)
        + seq![0u8]
        + op(Opcode::I64Const)
        + seq![0x20u8]
        + op(Opcode::I64ShrU)
        + op(Opcode::I32WrapI64)
        + op(Opcode::LocalTee)
        + seq![2u8]
        + op(Opcode::LocalGet)
        + seq![1u8]);
    func.write_opcode(Opcode::I32Add);
    func.write_opcode(Opcode::I32Load);
    func.write_byte(0x02);
    func.write_byte(0x00);
    func.write_opcode(Opcode::End);
    proof {
        reveal(spec_get_i32_field_code);
    }
    assert(func.code() == spec_get_i32_field_code());
    func
}

/// Code of `define_builtin_get_f32_field`.
#[verifier::opaque]
pub open spec fn spec_get_f32_field_code() -> Seq<u8> {
    op(Opcode::LocalGet)
        + seq![0u8]
        + op(Opcode::I64Const)
        + seq![0x20u8]
        + op(Opcode::I64ShrU)
        + op(Opcode::I32WrapI64)
        + op(Opcode::LocalTee)
        + seq![2u8]
        + op(Opcode::LocalGet)
        + seq![1u8]
        + op(Opcode::I32Add)
        + op(Opcode::F32Load)
        + memarg()
        + op(Opcode::End)
}

/// Reads the field at `field_offset` of the object a fat pointer points at.
#[verifier::spinoff_prover]
#[verifier::rlimit(30)]
pub fn define_builtin_get_f32_field() -> (f: BuiltinFunc)
    ensures
        f.wf(),
        f.sig_args() == seq![Numtype::I64, Numtype::I32],
        f.sig_ret() == Option::Some(Numtype::F32),
        f.param_names() == seq!["obj"@, "field_offset"@],
        f.local_names() == seq!["obj_offset"@],
        f.spec_local_types() == seq![Numtype::I32],
        f.code() == spec_get_f32_field_code(),
{
    let mut func = BuiltinFunc::new(
        FuncTypeSignature::new(types2(Numtype::I64, Numtype::I32), Option::Some(Numtype::F32)),
        names2("obj", "field_offset"),
    );
    proof {
        assert("field_offset"@ != "obj"@) by {
            reveal_strlit("field_offset");
            reveal_strlit("obj");
            assert("field_offset"@.len() == 12 && "obj"@.len() == 3);
        }
        assert("obj_offset"@ != "obj"@) by {
            reveal_strlit("obj_offset");
            reveal_strlit("obj");
            assert("obj_offset"@.len() == 10 && "obj"@.len() == 3);
        }
        assert("obj_offset"@ != "field_offset"@) by {
            reveal_strlit("obj_offset");
            reveal_strlit("field_offset");
            assert("obj_offset"@.len() == 10 && "field_offset"@.len() == 12);
        }
    }
    proof {
        lemma_no_var(func, "obj_offset"@);
    }
    func.add_local("obj_offset", Numtype::I32);
    func.write_opcode(Opcode::LocalGet);
    assert(func.code() =~= op(Opcode::LocalGet));
    proof {
        lemma_param_at(func, "obj"@, 0);
        lemma_param_at(func, "field_offset"@, 1);
        lemma_local_at(func, "obj_offset"@, 0);
    }
    func.write_var("obj");
    func.write_opcode(Opcode::I64Const);
    func.write_byte(0x20);
    func.write_opcode(Opcode::I64ShrU);
    func.write_opcode(Opcode::I32WrapI64);
    func.write_opcode(Opcode::LocalTee);
    func.write_var("obj_offset");
    func.write_opcode(Opcode::LocalGet);
    func.write_var("field_offset");
    assert(func.code() == op(Opcode::LocalGet)
        + seq![0u8]
        + op(Opcode::I64Const)
        + seq![0x20u8]
        + op(Opcode::I64ShrU)
        + op(Opcode::I32WrapI64)
        + op(Opcode::LocalTee)
        + seq![2u8]
        + op(Opcode::LocalGet)
        + seq![1u8]);
    func.write_opcode(Opcode::I32Add);
    func.write_opcode(Opcode::F32Load);
    func.write_byte(0x02);
    func.write_byte(0x00);
    func.write_opcode(Opcode::End);
    proof {
        reveal(spec_get_f32_field_code);
    }
    assert(func.code() == spec_get_f32_field_code());
    func
}

/// Code of `define_builtin_get_i64_field`.
#[verifier::opaque]
pub open spec fn spec_get_i64_field_code() -> Seq<u8> {
    op(Opcode::LocalGet)
        + seq![0u8]
        + op(Opcode::I64Const)
        + seq![0x20u8]
        + op(Opcode::I64ShrU)
        + op(Opcode::I32WrapI64)
        + op(Opcode::LocalTee)
        + seq![2u8]
        + op(Opcode::LocalGet)
        + seq![1u8]
        + op(Opcode::I32Add)
        + op(Opcode::I64Load)
        + memarg()
        + op(Opcode::End)
}

/// Reads the field at `field_offset` of the object a fat pointer points at.
#[verifier::spinoff_prover]
#[verifier::rlimit(30)]
pub fn define_builtin_get_i64_field() -> (f: BuiltinFunc)
    ensures
        f.wf(),
        f.sig_args() == seq![Numtype::I64, Numtype::I32],
        f.sig_ret() == Option::Some(Numtype::I64),
        f.param_names() == seq!["obj"@, "field_offset"@],
        f.local_names() == seq!["obj_offset"@],
        f.spec_local_types() == seq![Numtype::I32],
        f.code() == spec_get_i64_field_code(),
{
    let mut func = BuiltinFunc::new(
        FuncTypeSignature::new(types2(Numtype::I64, Numtype::I32), Option::Some(Numtype::I64)),
        names2("obj", "field_offset"),
    );
    proof {
        assert("field_offset"@ != "obj"@) by {
            reveal_strlit("field_offset");
            reveal_strlit("obj");
            assert("field_offset"@.len() == 12 && "obj"@.len() == 3);
        }
        assert("obj_offset"@ != "obj"@) by {
            reveal_strlit("obj_offset");
            reveal_strlit("obj");
            assert("obj_offset"@.len() == 10 && "obj"@.len() == 3);
        }
        assert("obj_offset"@ != "field_offset"@) by {
            reveal_strlit("obj_offset");
            reveal_strlit("field_offset");
            assert("obj_offset"@.len() == 10 && "field_offset"@.len() == 12);
        }
    }
    proof {
        lemma_no_var(func, "obj_offset"@);
    }
    func.add_local("obj_offset", Numtype::I32);
    func.write_opcode(Opcode::LocalGet);
    assert(func.code() =~= op(Opcode::LocalGet));
    proof {
        lemma_param_at(func, "obj"@, 0);
        lemma_param_at(func, "field_offset"@, 1);
        lemma_local_at(func, "obj_offset"@, 0);
    }
    func.write_var("obj");
    func.write_opcode(Opcode::I64Const);
    func.write_byte(0x20);
    func.write_opcode(Opcode::I64ShrU);
    func.write_opcode(Opcode::I32WrapI64);
    func.write_opcode(Opcode::LocalTee);
    func.write_var("obj_offset");
    func.write_opcode(Opcode::LocalGet);
    func.write_var("field_offset");
    assert(func.code() == op(Opcode::LocalGet)
        + seq![0u8]
        + op(Opcode::I64Const)
        + seq![0x20u8]
        + op(Opcode::I64ShrU)
        + op(Opcode::I32WrapI64)
        + op(Opcode::LocalTee)
        + seq![2u8]
        + op(Opcode::LocalGet)
        + seq![1u8]);
    func.write_opcode(Opcode::I32Add);
    func.write_opcode(Opcode::I64Load);
    func.write_byte(0x02);
    func.write_byte(0x00);
    func.write_opcode(Opcode::End);
    proof {
        reveal(spec_get_i64_field_code);
    }
    assert(func.code() == spec_get_i64_field_code());
    func
}

/// Code of `define_builtin_abs_int`.
#[verifier::opaque]
pub open spec fn spec_abs_int_code() -> Seq<u8> {
    op(Opcode::LocalGet)
        + seq![0u8]
        + op(Opcode::I32Const)
        + seq![31u8]
        + op(Opcode::I32ShrS)
        + op(Opcode::LocalTee)
        + seq![1u8]
        + op(Opcode::LocalGet)
        + seq![0u8]
        + op(Opcode::I32Xor)
        + op(Opcode::LocalGet)
        + seq![1u8]
        + op(Opcode::I32Sub)
        + op(Opcode::End)
}

/// `abs` on integers: with `mask = x >> 31`, the result is `(x ^ mask) - mask`.
#[verifier::spinoff_prover]
#[verifier::rlimit(30)]
pub fn define_builtin_abs_int() -> (f: BuiltinFunc)
    ensures
        f.wf(),
        f.sig_args() == seq![Numtype::I32],
        f.sig_ret() == Option::Some(Numtype::I32),
        f.param_names() == seq!["x"@],
        f.local_names() == seq!["mask"@],
        f.spec_local_types() == seq![Numtype::I32],
        f.code() == spec_abs_int_code(),
{
    let mut func = BuiltinFunc::new(
        FuncTypeSignature::new(types1(Numtype::I32), Option::Some(Numtype::I32)),
        names1("x"),
    );
    proof {
        assert("mask"@ != "x"@) by {
            reveal_strlit("mask");
            reveal_strlit("x");
            assert("mask"@.len() == 4 && "x"@.len() == 1);
        }
    }
    proof {
        lemma_no_var(func, "mask"@);
    }
    func.add_local("mask", Numtype::I32);
    func.write_opcode(Opcode::LocalGet);
    assert(func.code() =~= op(Opcode::LocalGet));
    proof {
        lemma_param_at(func, "x"@, 0);
        lemma_local_at(func, "mask"@, 0);
    }
    func.write_var("x");
    func.write_opcode(Opcode::I32Const);
    func.write_byte(31);
    func.write_opcode(Opcode::I32ShrS);
    func.write_opcode(Opcode::LocalTee);
    func.write_var("mask");
    func.write_opcode(Opcode::LocalGet);
    func.write_var("x");
    func.write_opcode(Opcode::I32Xor);
    assert(func.code() == op(Opcode::LocalGet)
        + seq![0u8]
        + op(Opcode::I32Const)
        + seq![31u8]
        + op(Opcode::I32ShrS)
        + op(Opcode::LocalTee)
        + seq![1u8]
        + op(Opcode::LocalGet)
        + seq![0u8]
        + op(Opcode::I32Xor));
    func.write_opcode(Opcode::LocalGet);
    func.write_var("mask");
    func.write_opcode(Opcode::I32Sub);
    func.write_opcode(Opcode::End);
    proof {
        reveal(spec_abs_int_code);
    }
    assert(func.code() == spec_abs_int_code());
    func
}

/// Code of `define_builtin_abs_float`.
#[verifier::opaque]
pub open spec fn spec_abs_float_code() -> Seq<u8> {
    op(Opcode::LocalGet)
        + seq![0u8]
        + op(Opcode::F32Abs)
        + op(Opcode::End)
}

/// `abs` on floats.
#[verifier::spinoff_prover]
#[verifier::rlimit(30)]
pub fn define_builtin_abs_float() -> (f: BuiltinFunc)
    ensures
        f.wf(),
        f.sig_args() == seq![Numtype::F32],
        f.sig_ret() == Option::Some(Numtype::F32),
        f.param_names() == seq!["x"@],
        f.local_names() == Seq::<Seq<char>>::empty(),
        f.spec_local_types() == Seq::<Numtype>::empty(),
        f.code() == spec_abs_float_code(),
{
    let mut func = BuiltinFunc::new(
        FuncTypeSignature::new(types1(Numtype::F32), Option::Some(Numtype::F32)),
        names1("x"),
    );
    proof {
    }
    func.write_opcode(Opcode::LocalGet);
    assert(func.code() =~= op(Opcode::LocalGet));
    proof {
        lemma_param_at(func, "x"@, 0);
    }
    func.write_var("x");
    func.write_opcode(Opcode::F32Abs);
    func.write_opcode(Opcode::End);
    proof {
        reveal(spec_abs_float_code);
    }
    assert(func.code() == spec_abs_float_code());
    func
}

/// Code of `define_builtin_itof`.
#[verifier::opaque]
pub open spec fn spec_itof_code() -> Seq<u8> {
    op(Opcode::LocalGet)
        + seq![0u8]
        + op(Opcode::F32ConvertI32S)
        + op(Opcode::End)
}

/// Converts an integer to a float.
#[verifier::spinoff_prover]
#[verifier::rlimit(30)]
pub fn define_builtin_itof() -> (f: BuiltinFunc)
    ensures
        f.wf(),
        f.sig_args() == seq![Numtype::I32],
        f.sig_ret() == Option::Some(Numtype::F32),
        f.param_names() == seq!["x"@],
        f.local_names() == Seq::<Seq<char>>::empty(),
        f.spec_local_types() == Seq::<Numtype>::empty(),
        f.code() == spec_itof_code(),
{
    let mut func = BuiltinFunc::new(
        FuncTypeSignature::new(types1(Numtype::I32), Option::Some(Numtype::F32)),
        names1("x"),
    );
    proof {
    }
    func.write_opcode(Opcode::LocalGet);
    assert(func.code() =~= op(Opcode::LocalGet));
    proof {
        lemma_param_at(func, "x"@, 0);
    }
    func.write_var("x");
    func.write_opcode(Opcode::F32ConvertI32S);
    func.write_opcode(Opcode::End);
    proof {
        reveal(spec_itof_code);
    }
    assert(func.code() == spec_itof_code());
    func
}

/// Code of `define_builtin_ftoi`.
#[verifier::opaque]
pub open spec fn spec_ftoi_code() -> Seq<u8> {
    op(Opcode::LocalGet)
        + seq![0u8]
        + op(Opcode::I32TruncF32S)
        + op(Opcode::End)
}

/// Converts a float to an integer, truncating.
#[verifier::spinoff_prover]
#[verifier::rlimit(30)]
pub fn define_builtin_ftoi() -> (f: BuiltinFunc)
    ensures
        f.wf(),
        f.sig_args() == seq![Numtype::F32],
        f.sig_ret() == Option::Some(Numtype::I32),
        f.param_names() == seq!["x"@],
        f.local_names() == Seq::<Seq<char>>::empty(),
        f.spec_local_types() == Seq::<Numtype>::empty(),
        f.code() == spec_ftoi_code(),
{
    let mut func = BuiltinFunc::new(
        FuncTypeSignature::new(types1(Numtype::F32), Option::Some(Numtype::I32)),
        names1("x"),
    );
    proof {
    }
    func.write_opcode(Opcode::LocalGet);
    assert(func.code() =~= op(Opcode::LocalGet));
    proof {
        lemma_param_at(func, "x"@, 0);
    }
    func.write_var("x");
    func.write_opcode(Opcode::I32TruncF32S);
    func.write_opcode(Opcode::End);
    proof {
        reveal(spec_ftoi_code);
    }
    assert(func.code() == spec_ftoi_code());
    func
}

/// Code of `define_builtin_sqrt_float`.
#[verifier::opaque]
pub open spec fn spec_sqrt_float_code() -> Seq<u8> {
    op(Opcode::LocalGet)
        + seq![0u8]
        + op(Opcode::F32Sqrt)
        + op(Opcode::End)
}

/// Square root of a float.
#[verifier::spinoff_prover]
#[verifier::rlimit(30)]
pub fn define_builtin_sqrt_float() -> (f: BuiltinFunc)
    ensures
        f.wf(),
        f.sig_args() == seq![Numtype::F32],
        f.sig_ret() == Option::Some(Numtype::F32),
        f.param_names() == seq!["x"@],
        f.local_names() == Seq::<Seq<char>>::empty(),
        f.spec_local_types() == Seq::<Numtype>::empty(),
        f.code() == spec_sqrt_float_code(),
{
    let mut func = BuiltinFunc::new(
        FuncTypeSignature::new(types1(Numtype::F32), Option::Some(Numtype::F32)),
        names1("x"),
    );
    proof {
    }
    func.write_opcode(Opcode::LocalGet);
    assert(func.code() =~= op(Opcode::LocalGet));
    proof {
        lemma_param_at(func, "x"@, 0);
    }
    func.write_var("x");
    func.write_opcode(Opcode::F32Sqrt);
    func.write_opcode(Opcode::End);
    proof {
        reveal(spec_sqrt_float_code);
    }
    assert(func.code() == spec_sqrt_float_code());
    func
}

/// Code of `define_builtin_mod`.
#[verifier::opaque]
pub open spec fn spec_mod_code() -> Seq<u8> {
    op(Opcode::LocalGet)
        + seq![0u8]
        + op(Opcode::LocalGet)
        + seq![1u8]
        + op(Opcode::I32RemS)
        + op(Opcode::LocalTee)
        + seq![2u8]
        + op(Opcode::I32Const)
        + seq![0u8]
        + op(Opcode::I32LtS)
        + op(Opcode::If)
        + seq![Numtype::I32.spec_byte()]
        + op(Opcode::LocalGet)
        + seq![1u8]
        + op(Opcode::I32Const)
        + seq![0u8]
        + op(Opcode::I32LtS)
        + op(Opcode::If)
        + seq![Numtype::I32.spec_byte()]
        + op(Opcode::LocalGet)
        + seq![2u8]
        + op(Opcode::LocalGet)
        + seq![1u8]
        + op(Opcode::I32Sub)
        + op(Opcode::Else)
        + op(Opcode::LocalGet)
        + seq![2u8]
        + op(Opcode::LocalGet)
        + seq![1u8]
        + op(Opcode::I32Add)
        + op(Opcode::End)
        + op(Opcode::Else)
        + op(Opcode::LocalGet)
        + seq![2u8]
        + op(Opcode::End)
        + op(Opcode::End)
}

/// `mod(x, y)`: the remainder of `x` divided by `y` that is never negative
/// (the Euclidean remainder). With `r = x % y` (the sign of `x`), a negative
/// `r` is moved up by `|y|`: `r - y` when `y` is negative, `r + y` otherwise;
/// neither can overflow, as `|r| < |y|`.
#[verifier::spinoff_prover]
#[verifier::rlimit(30)]
pub fn define_builtin_mod() -> (f: BuiltinFunc)
    ensures
        f.wf(),
        f.sig_args() == seq![Numtype::I32, Numtype::I32],
        f.sig_ret() == Option::Some(Numtype::I32),
        f.param_names() == seq!["x"@, "y"@],
        f.local_names() == seq!["r"@],
        f.spec_local_types() == seq![Numtype::I32],
        f.code() == spec_mod_code(),
{
    let mut func = BuiltinFunc::new(
        FuncTypeSignature::new(types2(Numtype::I32, Numtype::I32), Option::Some(Numtype::I32)),
        names2("x", "y"),
    );
    proof {
        assert("y"@ != "x"@) by {
            reveal_strlit("y");
            reveal_strlit("x");
            assert("y"@[0] != "x"@[0]);
        }
        assert("r"@ != "x"@) by {
            reveal_strlit("r");
            reveal_strlit("x");
            assert("r"@[0] != "x"@[0]);
        }
        assert("r"@ != "y"@) by {
            reveal_strlit("r");
            reveal_strlit("y");
            assert("r"@[0] != "y"@[0]);
        }
    }
    proof {
        lemma_no_var(func, "r"@);
    }
    func.add_local("r", Numtype::I32);
    func.write_opcode(Opcode::LocalGet);
    assert(func.code() =~= op(Opcode::LocalGet));
    proof {
        lemma_param_at(func, "x"@, 0);
        lemma_param_at(func, "y"@, 1);
        lemma_local_at(func, "r"@, 0);
    }
    func.write_var("x");
    func.write_opcode(Opcode::LocalGet);
    func.write_var("y");
    func.write_opcode(Opcode::I32RemS);
    func.write_opcode(Opcode::LocalTee);
    func.write_var("r");
    func.write_opcode(Opcode::I32Const);
    func.write_byte(0);
    func.write_opcode(Opcode::I32LtS);
    assert(func.code() == op(Opcode::LocalGet)
        + seq![0u8]
        + op(Opcode::LocalGet)
        + seq![1u8]
        + op(Opcode::I32RemS)
        + op(Opcode::LocalTee)
        + seq![2u8]
        + op(Opcode::I32Const)
        + seq![0u8]
        + op(Opcode::I32LtS));
    func.write_opcode(Opcode::If);
    func.write_byte(Numtype::I32.to_byte());
    func.write_opcode(Opcode::LocalGet);
    func.write_var("y");
    func.write_opcode(Opcode::I32Const);
    func.write_byte(0);
    func.write_opcode(Opcode::I32LtS);
    func.write_opcode(Opcode::If);
    func.write_byte(Numtype::I32.to_byte());
    func.write_opcode(Opcode::LocalGet);
    assert(func.code() == op(Opcode::LocalGet)
        + seq![0u8]
        + op(Opcode::LocalGet)
        + seq![1u8]
        + op(Opcode::I32RemS)
        + op(Opcode::LocalTee)
        + seq![2u8]
        + op(Opcode::I32Const)
        + seq![0u8]
        + op(Opcode::I32LtS)
        + op(Opcode::If)
        + seq![Numtype::I32.spec_byte()]
        + op(Opcode::LocalGet)
        + seq![1u8]
        + op(Opcode::I32Const)
        + seq![0u8]
        + op(Opcode::I32LtS)
        + op(Opcode::If)
        + seq![Numtype::I32.spec_byte()]
        + op(Opcode::LocalGet));
    func.write_var("r");
    func.write_opcode(Opcode::LocalGet);
    func.write_var("y");
    func.write_opcode(Opcode::I32Sub);
    func.write_opcode(Opcode::Else);
    func.write_opcode(Opcode::LocalGet);
    func.write_var("r");
    func.write_opcode(Opcode::LocalGet);
    func.write_var("y");
    func.write_opcode(Opcode::I32Add);
    assert(func.code() == op(Opcode::LocalGet)
        + seq![0u8]
        + op(Opcode::LocalGet)
        + seq![1u8]
        + op(Opcode::I32RemS)
        + op(Opcode::LocalTee)
        + seq![2u8]
        + op(Opcode::I32Const)
        + seq![0u8]
        + op(Opcode::I32LtS)
        + op(Opcode::If)
        + seq![Numtype::I32.spec_byte()]
        + op(Opcode::LocalGet)
        + seq![1u8]
        + op(Opcode::I32Const)
        + seq![0u8]
        + op(Opcode::I32LtS)
        + op(Opcode::If)
        + seq![Numtype::I32.spec_byte()]
        + op(Opcode::LocalGet)
        + seq![2u8]
        + op(Opcode::LocalGet)
        + seq![1u8]
        + op(Opcode::I32Sub)
        + op(Opcode::Else)
        + op(Opcode::LocalGet)
        + seq![2u8]
        + op(Opcode::LocalGet)
        + seq![1u8]
        + op(Opcode::I32Add));
    func.write_opcode(Opcode::End);
    func.write_opcode(Opcode::Else);
    func.write_opcode(Opcode::LocalGet);
    func.write_var("r");
    func.write_opcode(Opcode::End);
    func.write_opcode(Opcode::End);
    proof {
        reveal(spec_mod_code);
    }
    assert(func.code() == spec_mod_code());
    func
}

/// Code of `define_builtin_iter_len`.
#[verifier::opaque]
pub open spec fn spec_iter_len_code(advance_fn_delta: u32, advance_fn_type_idx: u32) -> Seq<u8> {
    op(Opcode::LocalGet)
        + seq![0u8]
        + op(Opcode::I64Const)
        + seq![0x20u8]
        + op(Opcode::I64ShrU)
        + op(Opcode::I32WrapI64)
        + op(Opcode::LocalSet)
        + seq![1u8]
        + op(Opcode::Loop)
        + seq![Numtype::Void.spec_byte()]
        + spec_iter_call_advance(seq![1u8], advance_fn_delta, advance_fn_type_idx)
        + op(Opcode::I32Eqz)
        + op(Opcode::If)
        + seq![Numtype::Void.spec_byte()]
        + op(Opcode::LocalGet)
        + seq![2u8]
        + op(Opcode::I32Const)
        + seq![1u8]
        + op(Opcode::I32Add)
        + op(Opcode::LocalSet)
        + seq![2u8]
        + op(Opcode::Br)
        + seq![1u8]
        + op(Opcode::End)
        + op(Opcode::End)
        + op(Opcode::LocalGet)
        + seq![2u8]
        + op(Opcode::End)
}

/// Counts the values an iterator yields by advancing it to its end.
#[verifier::spinoff_prover]
#[verifier::rlimit(30)]
pub fn define_builtin_iter_len(advance_fn_delta: u32, advance_fn_type_idx: u32) -> (f: BuiltinFunc)
    ensures
        f.wf(),
        f.sig_args() == seq![Numtype::I64],
        f.sig_ret() == Option::Some(Numtype::I32),
        f.param_names() == seq!["iter_fatptr"@],
        f.local_names() == seq!["iter_offset"@, "count"@],
        f.spec_local_types() == seq![Numtype::I32, Numtype::I32],
        f.code() == spec_iter_len_code(advance_fn_delta, advance_fn_type_idx),
{
    let mut func = BuiltinFunc::new(
        FuncTypeSignature::new(types1(Numtype::I64), Option::Some(Numtype::I32)),
        names1("iter_fatptr"),
    );
    proof {
        assert("iter_offset"@ != "iter_fatptr"@) by {
            reveal_strlit("iter_offset");
            reveal_strlit("iter_fatptr");
            assert("iter_offset"@[5] != "iter_fatptr"@[5]);
        }
        assert("count"@ != "iter_fatptr"@) by {
            reveal_strlit("count");
            reveal_strlit("iter_fatptr");
            assert("count"@.len() == 5 && "iter_fatptr"@.len() == 11);
        }
        assert("count"@ != "iter_offset"@) by {
            reveal_strlit("count");
            reveal_strlit("iter_offset");
            assert("count"@.len() == 5 && "iter_offset"@.len() == 11);
        }
    }
    proof {
        lemma_no_var(func, "iter_offset"@);
    }
    func.add_local("iter_offset", Numtype::I32);
    proof {
        lemma_no_var(func, "count"@);
    }
    func.add_local("count", Numtype::I32);
    func.write_opcode(Opcode::LocalGet);
    assert(func.code() =~= op(Opcode::LocalGet));
    proof {
        lemma_param_at(func, "iter_fatptr"@, 0);
        lemma_local_at(func, "iter_offset"@, 0);
        lemma_local_at(func, "count"@, 1);
    }
    func.write_var("iter_fatptr");
    func.write_opcode(Opcode::I64Const);
    func.write_byte(0x20);
    func.write_opcode(Opcode::I64ShrU);
    func.write_opcode(Opcode::I32WrapI64);
    func.write_opcode(Opcode::LocalSet);
    func.write_var("iter_offset");
    func.write_opcode(Opcode::Loop);
    func.write_byte(Numtype::Void.to_byte());
    assert(func.code() == op(Opcode::LocalGet)
        + seq![0u8]
        + op(Opcode::I64Const)
        + seq![0x20u8]
        + op(Opcode::I64ShrU)
        + op(Opcode::I32WrapI64)
        + op(Opcode::LocalSet)
        + seq![1u8]
        + op(Opcode::Loop)
        + seq![Numtype::Void.spec_byte()]);
    func.iter_call_advance("iter_offset", advance_fn_delta, advance_fn_type_idx);
    func.write_opcode(Opcode::I32Eqz);
    func.write_opcode(Opcode::If);
    func.write_byte(Numtype::Void.to_byte());
    func.write_opcode(Opcode::LocalGet);
    func.write_var("count");
    func.write_opcode(Opcode::I32Const);
    func.write_byte(1);
    func.write_opcode(Opcode::I32Add);
    func.write_opcode(Opcode::LocalSet);
    assert(func.code() == op(Opcode::LocalGet)
        + seq![0u8]
        + op(Opcode::I64Const)
        + seq![0x20u8]
        + op(Opcode::I64ShrU)
        + op(Opcode::I32WrapI64)
        + op(Opcode::LocalSet)
        + seq![1u8]
        + op(Opcode::Loop)
        + seq![Numtype::Void.spec_byte()]
        + spec_iter_call_advance(seq![1u8], advance_fn_delta, advance_fn_type_idx)
        + op(Opcode::I32Eqz)
        + op(Opcode::If)
        + seq![Numtype::Void.spec_byte()]
        + op(Opcode::LocalGet)
        + seq![2u8]
        + op(Opcode::I32Const)
        + seq![1u8]
        + op(Opcode::I32Add)
        + op(Opcode::LocalSet));
    func.write_var("count");
    func.write_opcode(Opcode::Br);
    func.write_byte(1);
    func.write_opcode(Opcode::End);
    func.write_opcode(Opcode::End);
    func.write_opcode(Opcode::LocalGet);
    func.write_var("count");
    func.write_opcode(Opcode::End);
    proof {
        reveal(spec_iter_len_code);
    }
    assert(func.code() == spec_iter_len_code(advance_fn_delta, advance_fn_type_idx));
    func
}

/// Code of `define_builtin_str_len`.
#[verifier::opaque]
pub open spec fn spec_str_len_code() -> Seq<u8> {
    spec_set_offset_and_size(seq![0u8], seq![1u8], seq![2u8])
        + op(Opcode::LocalGet)
        + seq![1u8]
        + op(Opcode::LocalGet)
        + seq![2u8]
        + op(Opcode::I32Add)
        + op(Opcode::LocalSet)
        + seq![2u8]
        + op(Opcode::Loop)
        + seq![Numtype::I32.spec_byte()]
        + op(Opcode::LocalGet)
        + seq![1u8]
        + op(Opcode::LocalGet)
        + seq![2u8]
        + op(Opcode::I32Eq)
        + op(Opcode::If)
        + seq![Numtype::Void.spec_byte()]
        + op(Opcode::LocalGet)
        + seq![3u8]
        + op(Opcode::Return)
        + op(Opcode::End)
        + op(Opcode::LocalGet)
        + seq![3u8]
        + op(Opcode::I32Const)
        + seq![1u8]
        + op(Opcode::I32Add)
        + op(Opcode::LocalSet)
        + seq![3u8]
        + op(Opcode::LocalGet)
        + seq![1u8]
        + op(Opcode::I32Load8U)
        + seq![0x00u8, 0x00u8]
        + op(Opcode::LocalTee)
        + seq![4u8]
        + op(Opcode::I32Const)
        + seq![7u8]
        + op(Opcode::I32ShrU)
        + op(Opcode::If)
        + seq![Numtype::I32.spec_byte()]
        + op(Opcode::LocalGet)
        + seq![4u8]
        + op(Opcode::I32Const)
        + seq![5u8]
        + op(Opcode::I32ShrU)
        + op(Opcode::I32Const)
        + seq![1u8]
        + op(Opcode::I32And)
        + op(Opcode::If)
        + seq![Numtype::I32.spec_byte()]
        + op(Opcode::LocalGet)
        + seq![4u8]
        + op(Opcode::I32Const)
        + seq![4u8]
        + op(Opcode::I32ShrU)
        + op(Opcode::I32Const)
        + seq![1u8]
        + op(Opcode::I32And)
        + op(Opcode::If)
        + seq![Numtype::I32.spec_byte()]
        + op(Opcode::I32Const)
        + seq![4u8]
        + op(Opcode::Else)
        + op(Opcode::I32Const)
        + seq![3u8]
        + op(Opcode::End)
        + op(Opcode::Else)
        + op(Opcode::I32Const)
        + seq![2u8]
        + op(Opcode::End)
        + op(Opcode::Else)
        + op(Opcode::I32Const)
        + seq![1u8]
        + op(Opcode::End)
        + op(Opcode::LocalGet)
        + seq![1u8]
        + op(Opcode::I32Add)
        + op(Opcode::LocalSet)
        + seq![1u8]
        + op(Opcode::Br)
        + seq![0x00u8]
        + op(Opcode::End)
        + op(Opcode::End)
}

/// Counts the characters of a UTF-8 string from the leading bit patterns of
/// its bytes, walking from its offset to its end (offset plus size).
#[verifier::spinoff_prover]
#[verifier::rlimit(30)]
pub fn define_builtin_str_len() -> (f: BuiltinFunc)
    ensures
        f.wf(),
        f.sig_args() == seq![Numtype::I64],
        f.sig_ret() == Option::Some(Numtype::I32),
        f.param_names() == seq!["str_fatptr"@],
        f.local_names() == seq!["offset"@, "size"@, "count"@, "leading_byte"@],
        f.spec_local_types() == seq![Numtype::I32, Numtype::I32, Numtype::I32, Numtype::I32],
        f.code() == spec_str_len_code(),
{
    let mut func = BuiltinFunc::new(
        FuncTypeSignature::new(types1(Numtype::I64), Option::Some(Numtype::I32)),
        names1("str_fatptr"),
    );
    proof {
        assert("offset"@ != "str_fatptr"@) by {
            reveal_strlit("offset");
            reveal_strlit("str_fatptr");
            assert("offset"@.len() == 6 && "str_fatptr"@.len() == 10);
        }
        assert("size"@ != "str_fatptr"@) by {
            reveal_strlit("size");
            reveal_strlit("str_fatptr");
            assert("size"@.len() == 4 && "str_fatptr"@.len() == 10);
        }
        assert("size"@ != "offset"@) by {
            reveal_strlit("size");
            reveal_strlit("offset");
            assert("size"@.len() == 4 && "offset"@.len() == 6);
        }
        assert("count"@ != "str_fatptr"@) by {
            reveal_strlit("count");
            reveal_strlit("str_fatptr");
            assert("count"@.len() == 5 && "str_fatptr"@.len() == 10);
        }
        assert("count"@ != "offset"@) by {
            reveal_strlit("count");
            reveal_strlit("offset");
            assert("count"@.len() == 5 && "offset"@.len() == 6);
        }
        assert("count"@ != "size"@) by {
            reveal_strlit("count");
            reveal_strlit("size");
            assert("count"@.len() == 5 && "size"@.len() == 4);
        }
        assert("leading_byte"@ != "str_fatptr"@) by {
            reveal_strlit("leading_byte");
            reveal_strlit("str_fatptr");
            assert("leading_byte"@.len() == 12 && "str_fatptr"@.len() == 10);
        }
        assert("leading_byte"@ != "offset"@) by {
            reveal_strlit("leading_byte");
            reveal_strlit("offset");
            assert("leading_byte"@.len() == 12 && "offset"@.len() == 6);
        }
        assert("leading_byte"@ != "size"@) by {
            reveal_strlit("leading_byte");
            reveal_strlit("size");
            assert("leading_byte"@.len() == 12 && "size"@.len() == 4);
        }
        assert("leading_byte"@ != "count"@) by {
            reveal_strlit("leading_byte");
            reveal_strlit("count");
            assert("leading_byte"@.len() == 12 && "count"@.len() == 5);
        }
    }
    proof {
        lemma_no_var(func, "offset"@);
    }
    func.add_local("offset", Numtype::I32);
    proof {
        lemma_no_var(func, "size"@);
    }
    func.add_local("size", Numtype::I32);
    proof {
        lemma_no_var(func, "count"@);
    }
    func.add_local("count", Numtype::I32);
    proof {
        lemma_no_var(func, "leading_byte"@);
    }
    func.add_local("leading_byte", Numtype::I32);
    proof {
        lemma_param_at(func, "str_fatptr"@, 0);
        lemma_local_at(func, "offset"@, 0);
        lemma_local_at(func, "size"@, 1);
        lemma_local_at(func, "count"@, 2);
        lemma_local_at(func, "leading_byte"@, 3);
    }
    func.set_offset_and_size("str_fatptr", "offset", "size");
    assert(func.code() =~= spec_set_offset_and_size(seq![0u8], seq![1u8], seq![2u8]));
    func.write_opcode(Opcode::LocalGet);
    func.write_var("offset");
    func.write_opcode(Opcode::LocalGet);
    func.write_var("size");
    func.write_opcode(Opcode::I32Add);
    func.write_opcode(Opcode::LocalSet);
    func.write_var("size");
    func.write_opcode(Opcode::Loop);
    func.write_byte(Numtype::I32.to_byte());
    assert(func.code() == spec_set_offset_and_size(seq![0u8], seq![1u8], seq![2u8])
        + op(Opcode::LocalGet)
        + seq![1u8]
        + op(Opcode::LocalGet)
        + seq![2u8]
        + op(Opcode::I32Add)
        + op(Opcode::LocalSet)
        + seq![2u8]
        + op(Opcode::Loop)
        + seq![Numtype::I32.spec_byte()]);
    func.write_opcode(Opcode::LocalGet);
    func.write_var("offset");
    func.write_opcode(Opcode::LocalGet);
    func.write_var("size");
    func.write_opcode(Opcode::I32Eq);
    func.write_opcode(Opcode::If);
    func.write_byte(Numtype::Void.to_byte());
    func.write_opcode(Opcode::LocalGet);
    func.write_var("count");
    func.write_opcode(Opcode::Return);
    assert(func.code() == spec_set_offset_and_size(seq![0u8], seq![1u8], seq![2u8])
        + op(Opcode::LocalGet)
        + seq![1u8]
        + op(Opcode::LocalGet)
        + seq![2u8]
        + op(Opcode::I32Add)
        + op(Opcode::LocalSet)
        + seq![2u8]
        + op(Opcode::Loop)
        + seq![Numtype::I32.spec_byte()]
        + op(Opcode::LocalGet)
        + seq![1u8]
        + op(Opcode::LocalGet)
        + seq![2u8]
        + op(Opcode::I32Eq)
        + op(Opcode::If)
        + seq![Numtype::Void.spec_byte()]
        + op(Opcode::LocalGet)
        + seq![3u8]
        + op(Opcode::Return));
    func.write_opcode(Opcode::End);
    func.write_opcode(Opcode::LocalGet);
    func.write_var("count");
    func.write_opcode(Opcode::I32Const);
    func.write_byte(1);
    func.write_opcode(Opcode::I32Add);
    func.write_opcode(Opcode::LocalSet);
    func.write_var("count");
    func.write_opcode(Opcode::LocalGet);
    func.write_var("offset");
    assert(func.code() == spec_set_offset_and_size(seq![0u8], seq![1u8], seq![2u8])
        + op(Opcode::LocalGet)
        + seq![1u8]
        + op(Opcode::LocalGet)
        + seq![2u8]
        + op(Opcode::I32Add)
        + op(Opcode::LocalSet)
        + seq![2u8]
        + op(Opcode::Loop)
        + seq![Numtype::I32.spec_byte()]
        + op(Opcode::LocalGet)
        + seq![1u8]
        + op(Opcode::LocalGet)
        + seq![2u8]
        + op(Opcode::I32Eq)
        + op(Opcode::If)
        + seq![Numtype::Void.spec_byte()]
        + op(Opcode::LocalGet)
        + seq![3u8]
        + op(Opcode::Return)
        + op(Opcode::End)
        + op(Opcode::LocalGet)
        + seq![3u8]
        + op(Opcode::I32Const)
        + seq![1u8]
        + op(Opcode::I32Add)
        + op(Opcode::LocalSet)
        + seq![3u8]
        + op(Opcode::LocalGet)
        + seq![1u8]);
    func.write_opcode(Opcode::I32Load8U);
    func.write_byte(0x00);
    func.write_byte(0x00);
    func.write_opcode(Opcode::LocalTee);
    func.write_var("leading_byte");
    func.write_opcode(Opcode::I32Const);
    func.write_byte(7);
    func.write_opcode(Opcode::I32ShrU);
    func.write_opcode(Opcode::If);
    func.write_byte(Numtype::I32.to_byte());
    func.write_opcode(Opcode::LocalGet);
    assert(func.code() == spec_set_offset_and_size(seq![0u8], seq![1u8], seq![2u8])
        + op(Opcode::LocalGet)
        + seq![1u8]
        + op(Opcode::LocalGet)
        + seq![2u8]
        + op(Opcode::I32Add)
        + op(Opcode::LocalSet)
        + seq![2u8]
        + op(Opcode::Loop)
        + seq![Numtype::I32.spec_byte()]
        + op(Opcode::LocalGet)
        + seq![1u8]
        + op(Opcode::LocalGet)
        + seq![2u8]
        + op(Opcode::I32Eq)
        + op(Opcode::If)
        + seq![Numtype::Void.spec_byte()]
        + op(Opcode::LocalGet)
        + seq![3u8]
        + op(Opcode::Return)
        + op(Opcode::End)
        + op(Opcode::LocalGet)
        + seq![3u8]
        + op(Opcode::I32Const)
        + seq![1u8]
        + op(Opcode::I32Add)
        + op(Opcode::LocalSet)
        + seq![3u8]
        + op(Opcode::LocalGet)
        + seq![1u8]
        + op(Opcode::I32Load8U)
        + seq![0x00u8, 0x00u8]
        + op(Opcode::LocalTee)
        + seq![4u8]
        + op(Opcode::I32Const)
        + seq![7u8]
        + op(Opcode::I32ShrU)
        + op(Opcode::If)
        + seq![Numtype::I32.spec_byte()]
        + op(Opcode::LocalGet));
    func.write_var("leading_byte");
    func.write_opcode(Opcode::I32Const);
    func.write_byte(5);
    func.write_opcode(Opcode::I32ShrU);
    func.write_opcode(Opcode::I32Const);
    func.write_byte(1);
    func.write_opcode(Opcode::I32And);
    func.write_opcode(Opcode::If);
    func.write_byte(Numtype::I32.to_byte());
    func.write_opcode(Opcode::LocalGet);
    assert(func.code() == spec_set_offset_and_size(seq![0u8], seq![1u8], seq![2u8])
        + op(Opcode::LocalGet)
        + seq![1u8]
        + op(Opcode::LocalGet)
        + seq![2u8]
        + op(Opcode::I32Add)
        + op(Opcode::LocalSet)
        + seq![2u8]
        + op(Opcode::Loop)
        + seq![Numtype::I32.spec_byte()]
        + op(Opcode::LocalGet)
        + seq![1u8]
        + op(Opcode::LocalGet)
        + seq![2u8]
        + op(Opcode::I32Eq)
        + op(Opcode::If)
        + seq![Numtype::Void.spec_byte()]
        + op(Opcode::LocalGet)
        + seq![3u8]
        + op(Opcode::Return)
        + op(Opcode::End)
        + op(Opcode::LocalGet)
        + seq![3u8]
        + op(Opcode::I32Const)
        + seq![1u8]
        + op(Opcode::I32Add)
        + op(Opcode::LocalSet)
        + seq![3u8]
        + op(Opcode::LocalGet)
        + seq![1u8]
        + op(Opcode::I32Load8U)
        + seq![0x00u8, 0x00u8]
        + op(Opcode::LocalTee)
        + seq![4u8]
        + op(Opcode::I32Const)
        + seq![7u8]
        + op(Opcode::I32ShrU)
        + op(Opcode::If)
        + seq![Numtype::I32.spec_byte()]
        + op(Opcode::LocalGet)
        + seq![4u8]
        + op(Opcode::I32Const)
        + seq![5u8]
        + op(Opcode::I32ShrU)
        + op(Opcode::I32Const)
        + seq![1u8]
        + op(Opcode::I32And)
        + op(Opcode::If)
        + seq![Numtype::I32.spec_byte()]
        + op(Opcode::LocalGet));
    func.write_var("leading_byte");
    func.write_opcode(Opcode::I32Const);
    func.write_byte(4);
    func.write_opcode(Opcode::I32ShrU);
    func.write_opcode(Opcode::I32Const);
    func.write_byte(1);
    func.write_opcode(Opcode::I32And);
    func.write_opcode(Opcode::If);
    func.write_byte(Numtype::I32.to_byte());
    func.write_opcode(Opcode::I32Const);
    assert(func.code() == spec_set_offset_and_size(seq![0u8], seq![1u8], seq![2u8])
        + op(Opcode::LocalGet)
        + seq![1u8]
        + op(Opcode::LocalGet)
        + seq![2u8]
        + op(Opcode::I32Add)
        + op(Opcode::LocalSet)
        + seq![2u8]
        + op(Opcode::Loop)
        + seq![Numtype::I32.spec_byte()]
        + op(Opcode::LocalGet)
        + seq![1u8]
        + op(Opcode::LocalGet)
        + seq![2u8]
        + op(Opcode::I32Eq)
        + op(Opcode::If)
        + seq![Numtype::Void.spec_byte()]
        + op(Opcode::LocalGet)
        + seq![3u8]
        + op(Opcode::Return)
        + op(Opcode::End)
        + op(Opcode::LocalGet)
        + seq![3u8]
        + op(Opcode::I32Const)
        + seq![1u8]
        + op(Opcode::I32Add)
        + op(Opcode::LocalSet)
        + seq![3u8]
        + op(Opcode::LocalGet)
        + seq![1u8]
        + op(Opcode::I32Load8U)
        + seq![0x00u8, 0x00u8]
        + op(Opcode::LocalTee)
        + seq![4u8]
        + op(Opcode::I32Const)
        + seq![7u8]
        + op(Opcode::I32ShrU)
        + op(Opcode::If)
        + seq![Numtype::I32.spec_byte()]
        + op(Opcode::LocalGet)
        + seq![4u8]
        + op(Opcode::I32Const)
        + seq![5u8]
        + op(Opcode::I32ShrU)
        + op(Opcode::I32Const)
        + seq![1u8]
        + op(Opcode::I32And)
        + op(Opcode::If)
        + seq![Numtype::I32.spec_byte()]
        + op(Opcode::LocalGet)
        + seq![4u8]
        + op(Opcode::I32Const)
        + seq![4u8]
        + op(Opcode::I32ShrU)
        + op(Opcode::I32Const)
        + seq![1u8]
        + op(Opcode::I32And)
        + op(Opcode::If)
        + seq![Numtype::I32.spec_byte()]
        + op(Opcode::I32Const));
    func.write_byte(4);
    func.write_opcode(Opcode::Else);
    func.write_opcode(Opcode::I32Const);
    func.write_byte(3);
    func.write_opcode(Opcode::End);
    func.write_opcode(Opcode::Else);
    func.write_opcode(Opcode::I32Const);
    func.write_byte(2);
    func.write_opcode(Opcode::End);
    func.write_opcode(Opcode::Else);
    assert(func.code() == spec_set_offset_and_size(seq![0u8], seq![1u8], seq![2u8])
        + op(Opcode::LocalGet)
        + seq![1u8]
        + op(Opcode::LocalGet)
        + seq![2u8]
        + op(Opcode::I32Add)
        + op(Opcode::LocalSet)
        + seq![2u8]
        + op(Opcode::Loop)
        + seq![Numtype::I32.spec_byte()]
        + op(Opcode::LocalGet)
        + seq![1u8]
        + op(Opcode::LocalGet)
        + seq![2u8]
        + op(Opcode::I32Eq)
        + op(Opcode::If)
        + seq![Numtype::Void.spec_byte()]
        + op(Opcode::LocalGet)
        + seq![3u8]
        + op(Opcode::Return)
        + op(Opcode::End)
        + op(Opcode::LocalGet)
        + seq![3u8]
        + op(Opcode::I32Const)
        + seq![1u8]
        + op(Opcode::I32Add)
        + op(Opcode::LocalSet)
        + seq![3u8]
        + op(Opcode::LocalGet)
        + seq![1u8]
        + op(Opcode::I32Load8U)
        + seq![0x00u8, 0x00u8]
        + op(Opcode::LocalTee)
        + seq![4u8]
        + op(Opcode::I32Const)
        + seq![7u8]
        + op(Opcode::I32ShrU)
        + op(Opcode::If)
        + seq![Numtype::I32.spec_byte()]
        + op(Opcode::LocalGet)
        + seq![4u8]
        + op(Opcode::I32Const)
        + seq![5u8]
        + op(Opcode::I32ShrU)
        + op(Opcode::I32Const)
        + seq![1u8]
        + op(Opcode::I32And)
        + op(Opcode::If)
        + seq![Numtype::I32.spec_byte()]
        + op(Opcode::LocalGet)
        + seq![4u8]
        + op(Opcode::I32Const)
        + seq![4u8]
        + op(Opcode::I32ShrU)
        + op(Opcode::I32Const)
        + seq![1u8]
        + op(Opcode::I32And)
        + op(Opcode::If)
        + seq![Numtype::I32.spec_byte()]
        + op(Opcode::I32Const)
        + seq![4u8]
        + op(Opcode::Else)
        + op(Opcode::I32Const)
        + seq![3u8]
        + op(Opcode::End)
        + op(Opcode::Else)
        + op(Opcode::I32Const)
        + seq![2u8]
        + op(Opcode::End)
        + op(Opcode::Else));
    func.write_opcode(Opcode::I32Const);
    func.write_byte(1);
    func.write_opcode(Opcode::End);
    func.write_opcode(Opcode::LocalGet);
    func.write_var("offset");
    func.write_opcode(Opcode::I32Add);
    func.write_opcode(Opcode::LocalSet);
    func.write_var("offset");
    func.write_opcode(Opcode::Br);
    func.write_byte(0x00);
    assert(func.code() == spec_set_offset_and_size(seq![0u8], seq![1u8], seq![2u8])
        + op(Opcode::LocalGet)
        + seq![1u8]
        + op(Opcode::LocalGet)
        + seq![2u8]
        + op(Opcode::I32Add)
        + op(Opcode::LocalSet)
        + seq![2u8]
        + op(Opcode::Loop)
        + seq![Numtype::I32.spec_byte()]
        + op(Opcode::LocalGet)
        + seq![1u8]
        + op(Opcode::LocalGet)
        + seq![2u8]
        + op(Opcode::I32Eq)
        + op(Opcode::If)
        + seq![Numtype::Void.spec_byte()]
        + op(Opcode::LocalGet)
        + seq![3u8]
        + op(Opcode::Return)
        + op(Opcode::End)
        + op(Opcode::LocalGet)
        + seq![3u8]
        + op(Opcode::I32Const)
        + seq![1u8]
        + op(Opcode::I32Add)
        + op(Opcode::LocalSet)
        + seq![3u8]
        + op(Opcode::LocalGet)
        + seq![1u8]
        + op(Opcode::I32Load8U)
        + seq![0x00u8, 0x00u8]
        + op(Opcode::LocalTee)
        + seq![4u8]
        + op(Opcode::I32Const)
        + seq![7u8]
        + op(Opcode::I32ShrU)
        + op(Opcode::If)
        + seq![Numtype::I32.spec_byte()]
        + op(Opcode::LocalGet)
        + seq![4u8]
        + op(Opcode::I32Const)
        + seq![5u8]
        + op(Opcode::I32ShrU)
        + op(Opcode::I32Const)
        + seq![1u8]
        + op(Opcode::I32And)
        + op(Opcode::If)
        + seq![Numtype::I32.spec_byte()]
        + op(Opcode::LocalGet)
        + seq![4u8]
        + op(Opcode::I32Const)
        + seq![4u8]
        + op(Opcode::I32ShrU)
        + op(Opcode::I32Const)
        + seq![1u8]
        + op(Opcode::I32And)
        + op(Opcode::If)
        + seq![Numtype::I32.spec_byte()]
        + op(Opcode::I32Const)
        + seq![4u8]
        + op(Opcode::Else)
        + op(Opcode::I32Const)
        + seq![3u8]
        + op(Opcode::End)
        + op(Opcode::Else)
        + op(Opcode::I32Const)
        + seq![2u8]
        + op(Opcode::End)
        + op(Opcode::Else)
        + op(Opcode::I32Const)
        + seq![1u8]
        + op(Opcode::End)
        + op(Opcode::LocalGet)
        + seq![1u8]
        + op(Opcode::I32Add)
        + op(Opcode::LocalSet)
        + seq![1u8]
        + op(Opcode::Br)
        + seq![0x00u8]);
    func.write_opcode(Opcode::End);
    func.write_opcode(Opcode::End);
    proof {
        reveal(spec_str_len_code);
    }
    assert(func.code() == spec_str_len_code());
    func
}

/// Code of `define_builtin_unwrap`.
#[verifier::opaque]
pub open spec fn spec_unwrap_code(numtype: Numtype) -> Seq<u8> {
    op(Opcode::LocalGet)
        + seq![0u8]
        + op(Opcode::I64Const)
        + seq![0x20u8]
        + op(Opcode::I64ShrU)
        + op(Opcode::I32WrapI64)
        + op(Opcode::LocalTee)
        + seq![2u8]
        + op(Opcode::I32Const)
        + const_imm(numtype.spec_size())
        + op(Opcode::I32Add)
        + op(Opcode::I32Load)
        + memarg()
        + op(Opcode::If)
        + seq![numtype.spec_byte()]
        + op(Opcode::LocalGet)
        + seq![2u8]
        + op(numtype.spec_load_op())
        + memarg()
        + op(Opcode::Else)
        + op(Opcode::LocalGet)
        + seq![1u8]
        + op(Opcode::End)
        + op(Opcode::End)
}

/// The value held by an optional value, or `default` when it holds none.
#[verifier::spinoff_prover]
#[verifier::rlimit(30)]
pub fn define_builtin_unwrap(numtype: Numtype) -> (f: BuiltinFunc)
    requires
        numtype != Numtype::Void,
    ensures
        f.wf(),
        f.sig_args() == seq![Numtype::I64, numtype],
        f.sig_ret() == Option::Some(numtype),
        f.param_names() == seq!["maybe_value"@, "default"@],
        f.local_names() == seq!["maybe_value_offset"@],
        f.spec_local_types() == seq![Numtype::I32],
        f.code() == spec_unwrap_code(numtype),
{
    let mut func = BuiltinFunc::new(
        FuncTypeSignature::new(types2(Numtype::I64, numtype), Option::Some(numtype)),
        names2("maybe_value", "default"),
    );
    proof {
        assert("default"@ != "maybe_value"@) by {
            reveal_strlit("default");
            reveal_strlit("maybe_value");
            assert("default"@.len() == 7 && "maybe_value"@.len() == 11);
        }
        assert("maybe_value_offset"@ != "maybe_value"@) by {
            reveal_strlit("maybe_value_offset");
            reveal_strlit("maybe_value");
            assert("maybe_value_offset"@.len() == 18 && "maybe_value"@.len() == 11);
        }
        assert("maybe_value_offset"@ != "default"@) by {
            reveal_strlit("maybe_value_offset");
            reveal_strlit("default");
            assert("maybe_value_offset"@.len() == 18 && "default"@.len() == 7);
        }
    }
    proof {
        lemma_no_var(func, "maybe_value_offset"@);
    }
    func.add_local("maybe_value_offset", Numtype::I32);
    func.write_opcode(Opcode::LocalGet);
    assert(func.code() =~= op(Opcode::LocalGet));
    proof {
        lemma_param_at(func, "maybe_value"@, 0);
        lemma_param_at(func, "default"@, 1);
        lemma_local_at(func, "maybe_value_offset"@, 0);
    }
    func.write_var("maybe_value");
    func.write_opcode(Opcode::I64Const);
    func.write_byte(0x20);
    func.write_opcode(Opcode::I64ShrU);
    func.write_opcode(Opcode::I32WrapI64);
    func.write_opcode(Opcode::LocalTee);
    func.write_var("maybe_value_offset");
    func.write_opcode(Opcode::I32Const);
    let imm_bytes = i32_const_imm(numtype.size());
    func.write_slice(imm_bytes.as_slice());
    assert(func.code() == op(Opcode::LocalGet)
        + seq![0u8]
        + op(Opcode::I64Const)
        + seq![0x20u8]
        + op(Opcode::I64ShrU)
        + op(Opcode::I32WrapI64)
        + op(Opcode::LocalTee)
        + seq![2u8]
        + op(Opcode::I32Const)
        + const_imm(numtype.spec_size()));
    func.write_opcode(Opcode::I32Add);
    func.write_opcode(Opcode::I32Load);
    func.write_byte(0x02);
    func.write_byte(0x00);
    func.write_opcode(Opcode::If);
    func.write_byte(numtype.to_byte());
    func.write_opcode(Opcode::LocalGet);
    func.write_var("maybe_value_offset");
    func.write_opcode(numtype.load_op());
    func.write_byte(0x02);
    func.write_byte(0x00);
    func.write_opcode(Opcode::Else);
    assert(func.code() == op(Opcode::LocalGet)
        + seq![0u8]
        + op(Opcode::I64Const)
        + seq![0x20u8]
        + op(Opcode::I64ShrU)
        + op(Opcode::I32WrapI64)
        + op(Opcode::LocalTee)
        + seq![2u8]
        + op(Opcode::I32Const)
        + const_imm(numtype.spec_size())
        + op(Opcode::I32Add)
        + op(Opcode::I32Load)
        + memarg()
        + op(Opcode::If)
        + seq![numtype.spec_byte()]
        + op(Opcode::LocalGet)
        + seq![2u8]
        + op(numtype.spec_load_op())
        + memarg()
        + op(Opcode::Else));
    func.write_opcode(Opcode::LocalGet);
    func.write_var("default");
    func.write_opcode(Opcode::End);
    func.write_opcode(Opcode::End);
    proof {
        reveal(spec_unwrap_code);
    }
    assert(func.code() == spec_unwrap_code(numtype));
    func
}

/// Code of `define_builtin_is_some`.
#[verifier::opaque]
pub open spec fn spec_is_some_code(numtype: Numtype) -> Seq<u8> {
    op(Opcode::LocalGet)
        + seq![0u8]
        + op(Opcode::I64Const)
        + seq![0x20u8]
        + op(Opcode::I64ShrU)
        + op(Opcode::I32WrapI64)
        + op(Opcode::LocalTee)
        + seq![1u8]
        + op(Opcode::I32Const)
        + const_imm(numtype.spec_size())
        + op(Opcode::I32Add)
        + op(Opcode::I32Load)
        + memarg()
        + op(Opcode::If)
        + seq![Numtype::I32.spec_byte()]
        + op(Opcode::I32Const)
        + seq![1u8]
        + op(Opcode::Else)
        + op(Opcode::I32Const)
        + seq![0u8]
        + op(Opcode::End)
        + op(Opcode::End)
}

/// 1 when an optional value holds a value, 0 otherwise.
#[verifier::spinoff_prover]
#[verifier::rlimit(30)]
pub fn define_builtin_is_some(numtype: Numtype) -> (f: BuiltinFunc)
    ensures
        f.wf(),
        f.sig_args() == seq![Numtype::I64],
        f.sig_ret() == Option::Some(Numtype::I32),
        f.param_names() == seq!["maybe_value"@],
        f.local_names() == seq!["maybe_value_offset"@],
        f.spec_local_types() == seq![Numtype::I32],
        f.code() == spec_is_some_code(numtype),
{
    let mut func = BuiltinFunc::new(
        FuncTypeSignature::new(types1(Numtype::I64), Option::Some(Numtype::I32)),
        names1("maybe_value"),
    );
    proof {
        assert("maybe_value_offset"@ != "maybe_value"@) by {
            reveal_strlit("maybe_value_offset");
            reveal_strlit("maybe_value");
            assert("maybe_value_offset"@.len() == 18 && "maybe_value"@.len() == 11);
        }
    }
    proof {
        lemma_no_var(func, "maybe_value_offset"@);
    }
    func.add_local("maybe_value_offset", Numtype::I32);
    func.write_opcode(Opcode::LocalGet);
    assert(func.code() =~= op(Opcode::LocalGet));
    proof {
        lemma_param_at(func, "maybe_value"@, 0);
        lemma_local_at(func, "maybe_value_offset"@, 0);
    }
    func.write_var("maybe_value");
    func.write_opcode(Opcode::I64Const);
    func.write_byte(0x20);
    func.write_opcode(Opcode::I64ShrU);
    func.write_opcode(Opcode::I32WrapI64);
    func.write_opcode(Opcode::LocalTee);
    func.write_var("maybe_value_offset");
    func.write_opcode(Opcode::I32Const);
    let imm_bytes = i32_const_imm(numtype.size());
    func.write_slice(imm_bytes.as_slice());
    assert(func.code() == op(Opcode::LocalGet)
        + seq![0u8]
        + op(Opcode::I64Const)
        + seq![0x20u8]
        + op(Opcode::I64ShrU)
        + op(Opcode::I32WrapI64)
        + op(Opcode::LocalTee)
        + seq![1u8]
        + op(Opcode::I32Const)
        + const_imm(numtype.spec_size()));
    func.write_opcode(Opcode::I32Add);
    func.write_opcode(Opcode::I32Load);
    func.write_byte(0x02);
    func.write_byte(0x00);
    func.write_opcode(Opcode::If);
    func.write_byte(Numtype::I32.to_byte());
    func.write_opcode(Opcode::I32Const);
    func.write_byte(1);
    func.write_opcode(Opcode::Else);
    func.write_opcode(Opcode::I32Const);
    func.write_byte(0);
    assert(func.code() == op(Opcode::LocalGet)
        + seq![0u8]
        + op(Opcode::I64Const)
        + seq![0x20u8]
        + op(Opcode::I64ShrU)
        + op(Opcode::I32WrapI64)
        + op(Opcode::LocalTee)
        + seq![1u8]
        + op(Opcode::I32Const)
        + const_imm(numtype.spec_size())
        + op(Opcode::I32Add)
        + op(Opcode::I32Load)
        + memarg()
        + op(Opcode::If)
        + seq![Numtype::I32.spec_byte()]
        + op(Opcode::I32Const)
        + seq![1u8]
        + op(Opcode::Else)
        + op(Opcode::I32Const)
        + seq![0u8]);
    func.write_opcode(Opcode::End);
    func.write_opcode(Opcode::End);
    proof {
        reveal(spec_is_some_code);
    }
    assert(func.code() == spec_is_some_code(numtype));
    func
}

/// Code of `define_builtin_range_iter_advance`.
#[verifier::opaque]
pub open spec fn spec_range_iter_advance_code() -> Seq<u8> {
    op(Opcode::LocalGet)
        + seq![0u8]
        + op(Opcode::I32Const)
        + seq![8u8]
        + op(Opcode::I32Add)
        + op(Opcode::I32Load)
        + memarg()
        + op(Opcode::LocalTee)
        + seq![2u8]
        + op(Opcode::LocalGet)
        + seq![0u8]
        + op(Opcode::I32Load)
        + memarg()
        + op(Opcode::I32Add)
        + op(Opcode::LocalSet)
        + seq![1u8]
        + op(Opcode::LocalGet)
        + seq![0u8]
        + op(Opcode::LocalGet)
        + seq![1u8]
        + op(Opcode::I32Store)
        + memarg()
        + op(Opcode::LocalGet)
        + seq![0u8]
        + op(Opcode::I32Const)
        + seq![12u8]
        + op(Opcode::I32Add)
        + op(Opcode::I32Load)
        + memarg()
        + op(Opcode::LocalGet)
        + seq![2u8]
        + op(Opcode::I32Add)
        + op(Opcode::LocalGet)
        + seq![1u8]
        + op(Opcode::I32Eq)
        + op(Opcode::End)
}

/// Advances a range iterator by its step and returns 1 once it has passed
/// its stop value.
#[verifier::spinoff_prover]
#[verifier::rlimit(30)]
pub fn define_builtin_range_iter_advance() -> (f: BuiltinFunc)
    ensures
        f.wf(),
        f.sig_args() == seq![Numtype::I32],
        f.sig_ret() == Option::Some(Numtype::I32),
        f.param_names() == seq!["offset"@],
        f.local_names() == seq!["current"@, "step"@],
        f.spec_local_types() == seq![Numtype::I32, Numtype::I32],
        f.code() == spec_range_iter_advance_code(),
{
    let mut func = BuiltinFunc::advance_fn_template();
    proof {
        assert("current"@ != "offset"@) by {
            reveal_strlit("current");
            reveal_strlit("offset");
            assert("current"@.len() == 7 && "offset"@.len() == 6);
        }
        assert("step"@ != "offset"@) by {
            reveal_strlit("step");
            reveal_strlit("offset");
            assert("step"@.len() == 4 && "offset"@.len() == 6);
        }
        assert("step"@ != "current"@) by {
            reveal_strlit("step");
            reveal_strlit("current");
            assert("step"@.len() == 4 && "current"@.len() == 7);
        }
    }
    proof {
        lemma_no_var(func, "current"@);
    }
    func.add_local("current", Numtype::I32);
    proof {
        lemma_no_var(func, "step"@);
    }
    func.add_local("step", Numtype::I32);
    func.write_opcode(Opcode::LocalGet);
    assert(func.code() =~= op(Opcode::LocalGet));
    proof {
        lemma_param_at(func, "offset"@, 0);
        lemma_local_at(func, "current"@, 0);
        lemma_local_at(func, "step"@, 1);
    }
    func.write_var("offset");
    func.write_opcode(Opcode::I32Const);
    func.write_byte(8);
    func.write_opcode(Opcode::I32Add);
    func.write_opcode(Opcode::I32Load);
    func.write_byte(0x02);
    func.write_byte(0x00);
    func.write_opcode(Opcode::LocalTee);
    func.write_var("step");
    func.write_opcode(Opcode::LocalGet);
    assert(func.code() == op(Opcode::LocalGet)
        + seq![0u8]
        + op(Opcode::I32Const)
        + seq![8u8]
        + op(Opcode::I32Add)
        + op(Opcode::I32Load)
        + memarg()
        + op(Opcode::LocalTee)
        + seq![2u8]
        + op(Opcode::LocalGet));
    func.write_var("offset");
    func.write_opcode(Opcode::I32Load);
    func.write_byte(0x02);
    func.write_byte(0x00);
    func.write_opcode(Opcode::I32Add);
    func.write_opcode(Opcode::LocalSet);
    func.write_var("current");
    func.write_opcode(Opcode::LocalGet);
    func.write_var("offset");
    func.write_opcode(Opcode::LocalGet);
    func.write_var("current");
    assert(func.code() == op(Opcode::LocalGet)
        + seq![0u8]
        + op(Opcode::I32Const)
        + seq![8u8]
        + op(Opcode::I32Add)
        + op(Opcode::I32Load)
        + memarg()
        + op(Opcode::LocalTee)
        + seq![2u8]
        + op(Opcode::LocalGet)
        + seq![0u8]
        + op(Opcode::I32Load)
        + memarg()
        + op(Opcode::I32Add)
        + op(Opcode::LocalSet)
        + seq![1u8]
        + op(Opcode::LocalGet)
        + seq![0u8]
        + op(Opcode::LocalGet)
        + seq![1u8]);
    func.write_opcode(Opcode::I32Store);
    func.write_byte(0x02);
    func.write_byte(0x00);
    func.write_opcode(Opcode::LocalGet);
    func.write_var("offset");
    func.write_opcode(Opcode::I32Const);
    func.write_byte(12);
    func.write_opcode(Opcode::I32Add);
    func.write_opcode(Opcode::I32Load);
    func.write_byte(0x02);
    func.write_byte(0x00);
    func.write_opcode(Opcode::LocalGet);
    assert(func.code() == op(Opcode::LocalGet)
        + seq![0u8]
        + op(Opcode::I32Const)
        + seq![8u8]
        + op(Opcode::I32Add)
        + op(Opcode::I32Load)
        + memarg()
        + op(Opcode::LocalTee)
        + seq![2u8]
        + op(Opcode::LocalGet)
        + seq![0u8]
        + op(Opcode::I32Load)
        + memarg()
        + op(Opcode::I32Add)
        + op(Opcode::LocalSet)
        + seq![1u8]
        + op(Opcode::LocalGet)
        + seq![0u8]
        + op(Opcode::LocalGet)
        + seq![1u8]
        + op(Opcode::I32Store)
        + memarg()
        + op(Opcode::LocalGet)
        + seq![0u8]
        + op(Opcode::I32Const)
        + seq![12u8]
        + op(Opcode::I32Add)
        + op(Opcode::I32Load)
        + memarg()
        + op(Opcode::LocalGet));
    func.write_var("step");
    func.write_opcode(Opcode::I32Add);
    func.write_opcode(Opcode::LocalGet);
    func.write_var("current");
    func.write_opcode(Opcode::I32Eq);
    func.write_opcode(Opcode::End);
    proof {
        reveal(spec_range_iter_advance_code);
    }
    assert(func.code() == spec_range_iter_advance_code());
    func
}

/// Code of `define_builtin_range_iter_factory`.
#[verifier::opaque]
pub open spec fn spec_range_iter_factory_code(constructor_idx: u32, advance_fn_table_idx: u32) -> Seq<u8> {
    op(Opcode::LocalGet)
        + seq![0u8]
        + op(Opcode::LocalGet)
        + seq![1u8]
        + op(Opcode::I32LtS)
        + op(Opcode::If)
        + seq![Numtype::I32.spec_byte()]
        + op(Opcode::I32Const)
        + seq![1u8]
        + op(Opcode::Else)
        + op(Opcode::I32Const)
        + spec_sleb128(-1)
        + op(Opcode::End)
        + op(Opcode::LocalSet)
        + seq![2u8]
        + op(Opcode::LocalGet)
        + seq![0u8]
        + op(Opcode::LocalGet)
        + seq![2u8]
        + op(Opcode::I32Sub)
        + op(Opcode::I32Const)
        + const_imm(advance_fn_table_idx)
        + op(Opcode::LocalGet)
        + seq![2u8]
        + op(Opcode::LocalGet)
        + seq![1u8]
        + op(Opcode::Call)
        + imm(constructor_idx)
        + op(Opcode::End)
}

/// Builds a range iterator from `start` to `stop`, stepping by 1 or -1.
#[verifier::spinoff_prover]
#[verifier::rlimit(30)]
pub fn define_builtin_range_iter_factory(constructor_idx: u32, advance_fn_table_idx: u32) -> (f: BuiltinFunc)
    ensures
        f.wf(),
        f.sig_args() == seq![Numtype::I32, Numtype::I32],
        f.sig_ret() == Option::Some(Numtype::I64),
        f.param_names() == seq!["start"@, "stop"@],
        f.local_names() == seq!["step"@],
        f.spec_local_types() == seq![Numtype::I32],
        f.code() == spec_range_iter_factory_code(constructor_idx, advance_fn_table_idx),
{
    let mut func = BuiltinFunc::new(
        FuncTypeSignature::new(types2(Numtype::I32, Numtype::I32), Option::Some(Numtype::I64)),
        names2("start", "stop"),
    );
    proof {
        assert("stop"@ != "start"@) by {
            reveal_strlit("stop");
            reveal_strlit("start");
            assert("stop"@.len() == 4 && "start"@.len() == 5);
        }
        assert("step"@ != "start"@) by {
            reveal_strlit("step");
            reveal_strlit("start");
            assert("step"@.len() == 4 && "start"@.len() == 5);
        }
        assert("step"@ != "stop"@) by {
            reveal_strlit("step");
            reveal_strlit("stop");
            assert("step"@[2] != "stop"@[2]);
        }
    }
    proof {
        lemma_no_var(func, "step"@);
    }
    func.add_local("step", Numtype::I32);
    func.write_opcode(Opcode::LocalGet);
    assert(func.code() =~= op(Opcode::LocalGet));
    proof {
        lemma_param_at(func, "start"@, 0);
        lemma_param_at(func, "stop"@, 1);
        lemma_local_at(func, "step"@, 0);
    }
    func.write_var("start");
    func.write_opcode(Opcode::LocalGet);
    func.write_var("stop");
    func.write_opcode(Opcode::I32LtS);
    func.write_opcode(Opcode::If);
    func.write_byte(Numtype::I32.to_byte());
    func.write_opcode(Opcode::I32Const);
    func.write_byte(1);
    func.write_opcode(Opcode::Else);
    assert(func.code() == op(Opcode::LocalGet)
        + seq![0u8]
        + op(Opcode::LocalGet)
        + seq![1u8]
        + op(Opcode::I32LtS)
        + op(Opcode::If)
        + seq![Numtype::I32.spec_byte()]
        + op(Opcode::I32Const)
        + seq![1u8]
        + op(Opcode::Else));
    func.write_opcode(Opcode::I32Const);
    let imm_bytes = signed_leb128(-1);
    func.write_slice(imm_bytes.as_slice());
    func.write_opcode(Opcode::End);
    func.write_opcode(Opcode::LocalSet);
    func.write_var("step");
    func.write_opcode(Opcode::LocalGet);
    func.write_var("start");
    func.write_opcode(Opcode::LocalGet);
    func.write_var("step");
    func.write_opcode(Opcode::I32Sub);
    assert(func.code() == op(Opcode::LocalGet)
        + seq![0u8]
        + op(Opcode::LocalGet)
        + seq![1u8]
        + op(Opcode::I32LtS)
        + op(Opcode::If)
        + seq![Numtype::I32.spec_byte()]
        + op(Opcode::I32Const)
        + seq![1u8]
        + op(Opcode::Else)
        + op(Opcode::I32Const)
        + spec_sleb128(-1)
        + op(Opcode::End)
        + op(Opcode::LocalSet)
        + seq![2u8]
        + op(Opcode::LocalGet)
        + seq![0u8]
        + op(Opcode::LocalGet)
        + seq![2u8]
        + op(Opcode::I32Sub));
    func.write_opcode(Opcode::I32Const);
    let imm_bytes = i32_const_imm(advance_fn_table_idx);
    func.write_slice(imm_bytes.as_slice());
    func.write_opcode(Opcode::LocalGet);
    func.write_var("step");
    func.write_opcode(Opcode::LocalGet);
    func.write_var("stop");
    func.write_opcode(Opcode::Call);
    let imm_bytes = unsigned_leb128(constructor_idx);
    func.write_slice(imm_bytes.as_slice());
    func.write_opcode(Opcode::End);
    proof {
        reveal(spec_range_iter_factory_code);
    }
    assert(func.code() == spec_range_iter_factory_code(constructor_idx, advance_fn_table_idx));
    func
}

/// Code of `define_builtin_map_iter_advance`.
#[verifier::opaque]
pub open spec fn spec_map_iter_advance_code(in_type: Numtype, out_type: Numtype, inner_offset_delta: u32, map_fn_delta: u32, advance_fn_type_idx: u32, map_fn_type_idx: u32) -> Seq<u8> {
    spec_iter_call_advance_on_inner(seq![0u8], seq![1u8], inner_offset_delta, in_type, advance_fn_type_idx)
        + op(Opcode::If)
        + seq![Numtype::I32.spec_byte()]
        + op(Opcode::I32Const)
        + seq![1u8]
        + op(Opcode::Else)
        + op(Opcode::LocalGet)
        + seq![1u8]
        + op(in_type.spec_load_op())
        + memarg()
        + spec_iter_call_map_fn(seq![0u8], map_fn_delta, map_fn_type_idx)
        + op(Opcode::LocalSet)
        + seq![2u8]
        + op(Opcode::LocalGet)
        + seq![0u8]
        + op(Opcode::LocalGet)
        + seq![2u8]
        + op(out_type.spec_store_op())
        + memarg()
        + op(Opcode::I32Const)
        + seq![0u8]
        + op(Opcode::End)
        + op(Opcode::End)
}

/// Advances a map iterator: advances the inner iterator and maps its value.
#[verifier::spinoff_prover]
#[verifier::rlimit(30)]
pub fn define_builtin_map_iter_advance(in_type: Numtype, out_type: Numtype, inner_offset_delta: u32, map_fn_delta: u32, advance_fn_type_idx: u32, map_fn_type_idx: u32) -> (f: BuiltinFunc)
    requires
        in_type != Numtype::Void,
        out_type != Numtype::Void,
    ensures
        f.wf(),
        f.sig_args() == seq![Numtype::I32],
        f.sig_ret() == Option::Some(Numtype::I32),
        f.param_names() == seq!["offset"@],
        f.local_names() == seq!["inner_offset"@, "current"@],
        f.spec_local_types() == seq![Numtype::I32, out_type],
        f.code() == spec_map_iter_advance_code(in_type, out_type, inner_offset_delta, map_fn_delta, advance_fn_type_idx, map_fn_type_idx),
{
    let mut func = BuiltinFunc::advance_fn_template();
    proof {
        assert("inner_offset"@ != "offset"@) by {
            reveal_strlit("inner_offset");
            reveal_strlit("offset");
            assert("inner_offset"@.len() == 12 && "offset"@.len() == 6);
        }
        assert("current"@ != "offset"@) by {
            reveal_strlit("current");
            reveal_strlit("offset");
            assert("current"@.len() == 7 && "offset"@.len() == 6);
        }
        assert("current"@ != "inner_offset"@) by {
            reveal_strlit("current");
            reveal_strlit("inner_offset");
            assert("current"@.len() == 7 && "inner_offset"@.len() == 12);
        }
    }
    proof {
        lemma_no_var(func, "inner_offset"@);
    }
    func.add_local("inner_offset", Numtype::I32);
    proof {
        lemma_no_var(func, "current"@);
    }
    func.add_local("current", out_type);
    proof {
        lemma_param_at(func, "offset"@, 0);
        lemma_local_at(func, "inner_offset"@, 0);
        lemma_local_at(func, "current"@, 1);
    }
    func.iter_call_advance_on_inner("offset", "inner_offset", inner_offset_delta, in_type, advance_fn_type_idx);
    assert(func.code() =~= spec_iter_call_advance_on_inner(seq![0u8], seq![1u8], inner_offset_delta, in_type, advance_fn_type_idx));
    func.write_opcode(Opcode::If);
    func.write_byte(Numtype::I32.to_byte());
    func.write_opcode(Opcode::I32Const);
    func.write_byte(1);
    func.write_opcode(Opcode::Else);
    func.write_opcode(Opcode::LocalGet);
    func.write_var("inner_offset");
    func.write_opcode(in_type.load_op());
    func.write_byte(0x02);
    func.write_byte(0x00);
    assert(func.code() == spec_iter_call_advance_on_inner(seq![0u8], seq![1u8], inner_offset_delta, in_type, advance_fn_type_idx)
        + op(Opcode::If)
        + seq![Numtype::I32.spec_byte()]
        + op(Opcode::I32Const)
        + seq![1u8]
        + op(Opcode::Else)
        + op(Opcode::LocalGet)
        + seq![1u8]
        + op(in_type.spec_load_op())
        + memarg());
    func.iter_call_map_fn("offset", map_fn_delta, map_fn_type_idx);
    func.write_opcode(Opcode::LocalSet);
    func.write_var("current");
    func.write_opcode(Opcode::LocalGet);
    func.write_var("offset");
    func.write_opcode(Opcode::LocalGet);
    func.write_var("current");
    func.write_opcode(out_type.store_op());
    func.write_byte(0x02);
    func.write_byte(0x00);
    func.write_opcode(Opcode::I32Const);
    assert(func.code() == spec_iter_call_advance_on_inner(seq![0u8], seq![1u8], inner_offset_delta, in_type, advance_fn_type_idx)
        + op(Opcode::If)
        + seq![Numtype::I32.spec_byte()]
        + op(Opcode::I32Const)
        + seq![1u8]
        + op(Opcode::Else)
        + op(Opcode::LocalGet)
        + seq![1u8]
        + op(in_type.spec_load_op())
        + memarg()
        + spec_iter_call_map_fn(seq![0u8], map_fn_delta, map_fn_type_idx)
        + op(Opcode::LocalSet)
        + seq![2u8]
        + op(Opcode::LocalGet)
        + seq![0u8]
        + op(Opcode::LocalGet)
        + seq![2u8]
        + op(out_type.spec_store_op())
        + memarg()
        + op(Opcode::I32Const));
    func.write_byte(0);
    func.write_opcode(Opcode::End);
    func.write_opcode(Opcode::End);
    proof {
        reveal(spec_map_iter_advance_code);
    }
    assert(func.code() == spec_map_iter_advance_code(in_type, out_type, inner_offset_delta, map_fn_delta, advance_fn_type_idx, map_fn_type_idx));
    func
}

/// Code of `define_builtin_map_iter_factory`.
#[verifier::opaque]
pub open spec fn spec_map_iter_factory_code(out_type: Numtype, constructor_idx: u32, advance_fn_table_idx: u32) -> Seq<u8> {
    op(out_type.spec_const_op())
        + spec_zero_const(out_type)
        + op(Opcode::I32Const)
        + const_imm(advance_fn_table_idx)
        + op(Opcode::LocalGet)
        + seq![0u8]
        + op(Opcode::LocalGet)
        + seq![1u8]
        + op(Opcode::I64Const)
        + seq![0x20u8]
        + op(Opcode::I64ShrU)
        + op(Opcode::I32WrapI64)
        + op(Opcode::Call)
        + imm(constructor_idx)
        + op(Opcode::End)
}

/// Builds a map iterator over the iterator `iter_over`.
#[verifier::spinoff_prover]
#[verifier::rlimit(30)]
pub fn define_builtin_map_iter_factory(out_type: Numtype, constructor_idx: u32, advance_fn_table_idx: u32) -> (f: BuiltinFunc)
    requires
        out_type != Numtype::Void,
    ensures
        f.wf(),
        f.sig_args() == seq![Numtype::I32, Numtype::I64],
        f.sig_ret() == Option::Some(Numtype::I64),
        f.param_names() == seq!["map_fn"@, "iter_over"@],
        f.local_names() == Seq::<Seq<char>>::empty(),
        f.spec_local_types() == Seq::<Numtype>::empty(),
        f.code() == spec_map_iter_factory_code(out_type, constructor_idx, advance_fn_table_idx),
{
    let mut func = BuiltinFunc::new(
        FuncTypeSignature::new(types2(Numtype::I32, Numtype::I64), Option::Some(Numtype::I64)),
        names2("map_fn", "iter_over"),
    );
    proof {
        assert("iter_over"@ != "map_fn"@) by {
            reveal_strlit("iter_over");
            reveal_strlit("map_fn");
            assert("iter_over"@.len() == 9 && "map_fn"@.len() == 6);
        }
    }
    func.write_opcode(out_type.const_op());
    assert(func.code() =~= op(out_type.spec_const_op()));
    func.write_zero_const(out_type);
    func.write_opcode(Opcode::I32Const);
    let imm_bytes = i32_const_imm(advance_fn_table_idx);
    func.write_slice(imm_bytes.as_slice());
    func.write_opcode(Opcode::LocalGet);
    proof {
        lemma_param_at(func, "map_fn"@, 0);
        lemma_param_at(func, "iter_over"@, 1);
    }
    func.write_var("map_fn");
    func.write_opcode(Opcode::LocalGet);
    func.write_var("iter_over");
    func.write_opcode(Opcode::I64Const);
    func.write_byte(0x20);
    assert(func.code() == op(out_type.spec_const_op())
        + spec_zero_const(out_type)
        + op(Opcode::I32Const)
        + const_imm(advance_fn_table_idx)
        + op(Opcode::LocalGet)
        + seq![0u8]
        + op(Opcode::LocalGet)
        + seq![1u8]
        + op(Opcode::I64Const)
        + seq![0x20u8]);
    func.write_opcode(Opcode::I64ShrU);
    func.write_opcode(Opcode::I32WrapI64);
    func.write_opcode(Opcode::Call);
    let imm_bytes = unsigned_leb128(constructor_idx);
    func.write_slice(imm_bytes.as_slice());
    func.write_opcode(Opcode::End);
    proof {
        reveal(spec_map_iter_factory_code);
    }
    assert(func.code() == spec_map_iter_factory_code(out_type, constructor_idx, advance_fn_table_idx));
    func
}

/// Code of `define_builtin_scan_iter_advance`.
#[verifier::opaque]
pub open spec fn spec_scan_iter_advance_code(acc_type: Numtype, x_type: Numtype, inner_offset_delta: u32, reduce_fn_delta: u32, advance_fn_type_idx: u32, reduce_fn_type_idx: u32) -> Seq<u8> {
    spec_iter_call_advance_on_inner(seq![0u8], seq![1u8], inner_offset_delta, x_type, advance_fn_type_idx)
        + op(Opcode::If)
        + seq![Numtype::I32.spec_byte()]
        + op(Opcode::I32Const)
        + seq![0x01u8]
        + op(Opcode::Else)
        + op(Opcode::LocalGet)
        + seq![0u8]
        + op(acc_type.spec_load_op())
        + memarg()
        + op(Opcode::LocalGet)
        + seq![1u8]
        + op(x_type.spec_load_op())
        + memarg()
        + spec_iter_call_map_fn(seq![0u8], reduce_fn_delta, reduce_fn_type_idx)
        + op(Opcode::LocalSet)
        + seq![2u8]
        + op(Opcode::LocalGet)
        + seq![0u8]
        + op(Opcode::LocalGet)
        + seq![2u8]
        + op(acc_type.spec_store_op())
        + memarg()
        + op(Opcode::I32Const)
        + seq![0x00u8]
        + op(Opcode::End)
        + op(Opcode::End)
}

/// Advances a scan iterator: folds the inner iterator's next value into the
/// accumulator.
#[verifier::spinoff_prover]
#[verifier::rlimit(30)]
pub fn define_builtin_scan_iter_advance(acc_type: Numtype, x_type: Numtype, inner_offset_delta: u32, reduce_fn_delta: u32, advance_fn_type_idx: u32, reduce_fn_type_idx: u32) -> (f: BuiltinFunc)
    requires
        acc_type != Numtype::Void,
        x_type != Numtype::Void,
    ensures
        f.wf(),
        f.sig_args() == seq![Numtype::I32],
        f.sig_ret() == Option::Some(Numtype::I32),
        f.param_names() == seq!["offset"@],
        f.local_names() == seq!["inner_offset"@, "current"@],
        f.spec_local_types() == seq![Numtype::I32, acc_type],
        f.code() == spec_scan_iter_advance_code(acc_type, x_type, inner_offset_delta, reduce_fn_delta, advance_fn_type_idx, reduce_fn_type_idx),
{
    let mut func = BuiltinFunc::advance_fn_template();
    proof {
        assert("inner_offset"@ != "offset"@) by {
            reveal_strlit("inner_offset");
            reveal_strlit("offset");
            assert("inner_offset"@.len() == 12 && "offset"@.len() == 6);
        }
        assert("current"@ != "offset"@) by {
            reveal_strlit("current");
            reveal_strlit("offset");
            assert("current"@.len() == 7 && "offset"@.len() == 6);
        }
        assert("current"@ != "inner_offset"@) by {
            reveal_strlit("current");
            reveal_strlit("inner_offset");
            assert("current"@.len() == 7 && "inner_offset"@.len() == 12);
        }
    }
    proof {
        lemma_no_var(func, "inner_offset"@);
    }
    func.add_local("inner_offset", Numtype::I32);
    proof {
        lemma_no_var(func, "current"@);
    }
    func.add_local("current", acc_type);
    proof {
        lemma_param_at(func, "offset"@, 0);
        lemma_local_at(func, "inner_offset"@, 0);
        lemma_local_at(func, "current"@, 1);
    }
    func.iter_call_advance_on_inner("offset", "inner_offset", inner_offset_delta, x_type, advance_fn_type_idx);
    assert(func.code() =~= spec_iter_call_advance_on_inner(seq![0u8], seq![1u8], inner_offset_delta, x_type, advance_fn_type_idx));
    func.write_opcode(Opcode::If);
    func.write_byte(Numtype::I32.to_byte());
    func.write_opcode(Opcode::I32Const);
    func.write_byte(0x01);
    func.write_opcode(Opcode::Else);
    func.write_opcode(Opcode::LocalGet);
    func.write_var("offset");
    func.write_opcode(acc_type.load_op());
    func.write_byte(0x02);
    func.write_byte(0x00);
    assert(func.code() == spec_iter_call_advance_on_inner(seq![0u8], seq![1u8], inner_offset_delta, x_type, advance_fn_type_idx)
        + op(Opcode::If)
        + seq![Numtype::I32.spec_byte()]
        + op(Opcode::I32Const)
        + seq![0x01u8]
        + op(Opcode::Else)
        + op(Opcode::LocalGet)
        + seq![0u8]
        + op(acc_type.spec_load_op())
        + memarg());
    func.write_opcode(Opcode::LocalGet);
    func.write_var("inner_offset");
    func.write_opcode(x_type.load_op());
    func.write_byte(0x02);
    func.write_byte(0x00);
    func.iter_call_map_fn("offset", reduce_fn_delta, reduce_fn_type_idx);
    func.write_opcode(Opcode::LocalSet);
    func.write_var("current");
    func.write_opcode(Opcode::LocalGet);
    func.write_var("offset");
    func.write_opcode(Opcode::LocalGet);
    assert(func.code() == spec_iter_call_advance_on_inner(seq![0u8], seq![1u8], inner_offset_delta, x_type, advance_fn_type_idx)
        + op(Opcode::If)
        + seq![Numtype::I32.spec_byte()]
        + op(Opcode::I32Const)
        + seq![0x01u8]
        + op(Opcode::Else)
        + op(Opcode::LocalGet)
        + seq![0u8]
        + op(acc_type.spec_load_op())
        + memarg()
        + op(Opcode::LocalGet)
        + seq![1u8]
        + op(x_type.spec_load_op())
        + memarg()
        + spec_iter_call_map_fn(seq![0u8], reduce_fn_delta, reduce_fn_type_idx)
        + op(Opcode::LocalSet)
        + seq![2u8]
        + op(Opcode::LocalGet)
        + seq![0u8]
        + op(Opcode::LocalGet));
    func.write_var("current");
    func.write_opcode(acc_type.store_op());
    func.write_byte(0x02);
    func.write_byte(0x00);
    func.write_opcode(Opcode::I32Const);
    func.write_byte(0x00);
    func.write_opcode(Opcode::End);
    func.write_opcode(Opcode::End);
    proof {
        reveal(spec_scan_iter_advance_code);
    }
    assert(func.code() == spec_scan_iter_advance_code(acc_type, x_type, inner_offset_delta, reduce_fn_delta, advance_fn_type_idx, reduce_fn_type_idx));
    func
}

/// Code of `define_builtin_scan_iter_factory`.
#[verifier::opaque]
pub open spec fn spec_scan_iter_factory_code(advance_fn_type_idx: u32, constructor_idx: u32) -> Seq<u8> {
    op(Opcode::LocalGet)
        + seq![1u8]
        + op(Opcode::I32Const)
        + const_imm(advance_fn_type_idx)
        + op(Opcode::LocalGet)
        + seq![0u8]
        + op(Opcode::LocalGet)
        + seq![2u8]
        + op(Opcode::I64Const)
        + seq![0x20u8]
        + op(Opcode::I64ShrU)
        + op(Opcode::I32WrapI64)
        + op(Opcode::Call)
        + imm(constructor_idx)
        + op(Opcode::End)
}

/// Builds a scan iterator with initial accumulator `init`.
#[verifier::spinoff_prover]
#[verifier::rlimit(30)]
pub fn define_builtin_scan_iter_factory(acc_type: Numtype, advance_fn_type_idx: u32, constructor_idx: u32) -> (f: BuiltinFunc)
    ensures
        f.wf(),
        f.sig_args() == seq![Numtype::I32, acc_type, Numtype::I64],
        f.sig_ret() == Option::Some(Numtype::I64),
        f.param_names() == seq!["reduce_fn"@, "init"@, "iter_over"@],
        f.local_names() == Seq::<Seq<char>>::empty(),
        f.spec_local_types() == Seq::<Numtype>::empty(),
        f.code() == spec_scan_iter_factory_code(advance_fn_type_idx, constructor_idx),
{
    let mut func = BuiltinFunc::new(
        FuncTypeSignature::new(types3(Numtype::I32, acc_type, Numtype::I64), Option::Some(Numtype::I64)),
        names3("reduce_fn", "init", "iter_over"),
    );
    proof {
        assert("init"@ != "reduce_fn"@) by {
            reveal_strlit("init");
            reveal_strlit("reduce_fn");
            assert("init"@.len() == 4 && "reduce_fn"@.len() == 9);
        }
        assert("iter_over"@ != "reduce_fn"@) by {
            reveal_strlit("iter_over");
            reveal_strlit("reduce_fn");
            assert("iter_over"@[0] != "reduce_fn"@[0]);
        }
        assert("iter_over"@ != "init"@) by {
            reveal_strlit("iter_over");
            reveal_strlit("init");
            assert("iter_over"@.len() == 9 && "init"@.len() == 4);
        }
    }
    func.write_opcode(Opcode::LocalGet);
    assert(func.code() =~= op(Opcode::LocalGet));
    proof {
        lemma_param_at(func, "reduce_fn"@, 0);
        lemma_param_at(func, "init"@, 1);
        lemma_param_at(func, "iter_over"@, 2);
    }
    func.write_var("init");
    func.write_opcode(Opcode::I32Const);
    let imm_bytes = i32_const_imm(advance_fn_type_idx);
    func.write_slice(imm_bytes.as_slice());
    func.write_opcode(Opcode::LocalGet);
    func.write_var("reduce_fn");
    func.write_opcode(Opcode::LocalGet);
    func.write_var("iter_over");
    func.write_opcode(Opcode::I64Const);
    func.write_byte(0x20);
    assert(func.code() == op(Opcode::LocalGet)
        + seq![1u8]
        + op(Opcode::I32Const)
        + const_imm(advance_fn_type_idx)
        + op(Opcode::LocalGet)
        + seq![0u8]
        + op(Opcode::LocalGet)
        + seq![2u8]
        + op(Opcode::I64Const)
        + seq![0x20u8]);
    func.write_opcode(Opcode::I64ShrU);
    func.write_opcode(Opcode::I32WrapI64);
    func.write_opcode(Opcode::Call);
    let imm_bytes = unsigned_leb128(constructor_idx);
    func.write_slice(imm_bytes.as_slice());
    func.write_opcode(Opcode::End);
    proof {
        reveal(spec_scan_iter_factory_code);
    }
    assert(func.code() == spec_scan_iter_factory_code(advance_fn_type_idx, constructor_idx));
    func
}

/// Code of `define_builtin_filter_iter_advance`.
#[verifier::opaque]
pub open spec fn spec_filter_iter_advance_code(inner_type: Numtype, inner_offset_delta: u32, filter_fn_delta: u32, advance_fn_type_idx: u32, filter_fn_type_idx: u32) -> Seq<u8> {
    op(Opcode::Loop)
        + seq![Numtype::I32.spec_byte()]
        + spec_iter_call_advance_on_inner(seq![0u8], seq![1u8], inner_offset_delta, inner_type, advance_fn_type_idx)
        + op(Opcode::If)
        + seq![Numtype::I32.spec_byte()]
        + op(Opcode::I32Const)
        + seq![0x01u8]
        + op(Opcode::Else)
        + op(Opcode::LocalGet)
        + seq![1u8]
        + op(inner_type.spec_load_op())
        + memarg()
        + op(Opcode::LocalTee)
        + seq![3u8]
        + spec_iter_call_map_fn(seq![0u8], filter_fn_delta, filter_fn_type_idx)
        + op(Opcode::I32Eqz)
        + op(Opcode::BrIf)
        + seq![0x01u8]
        + op(Opcode::LocalGet)
        + seq![3u8]
        + op(Opcode::LocalSet)
        + seq![2u8]
        + op(Opcode::LocalGet)
        + seq![0u8]
        + op(Opcode::LocalGet)
        + seq![2u8]
        + op(inner_type.spec_store_op())
        + memarg()
        + op(Opcode::I32Const)
        + seq![0x00u8]
        + op(Opcode::End)
        + op(Opcode::End)
        + op(Opcode::End)
}

/// Advances a filter iterator to the inner iterator's next value that
/// passes the filter.
#[verifier::spinoff_prover]
#[verifier::rlimit(30)]
pub fn define_builtin_filter_iter_advance(inner_type: Numtype, inner_offset_delta: u32, filter_fn_delta: u32, advance_fn_type_idx: u32, filter_fn_type_idx: u32) -> (f: BuiltinFunc)
    requires
        inner_type != Numtype::Void,
    ensures
        f.wf(),
        f.sig_args() == seq![Numtype::I32],
        f.sig_ret() == Option::Some(Numtype::I32),
        f.param_names() == seq!["offset"@],
        f.local_names() == seq!["inner_offset"@, "current"@, "inner_current"@],
        f.spec_local_types() == seq![Numtype::I32, inner_type, inner_type],
        f.code() == spec_filter_iter_advance_code(inner_type, inner_offset_delta, filter_fn_delta, advance_fn_type_idx, filter_fn_type_idx),
{
    let mut func = BuiltinFunc::advance_fn_template();
    proof {
        assert("inner_offset"@ != "offset"@) by {
            reveal_strlit("inner_offset");
            reveal_strlit("offset");
            assert("inner_offset"@.len() == 12 && "offset"@.len() == 6);
        }
        assert("current"@ != "offset"@) by {
            reveal_strlit("current");
            reveal_strlit("offset");
            assert("current"@.len() == 7 && "offset"@.len() == 6);
        }
        assert("current"@ != "inner_offset"@) by {
            reveal_strlit("current");
            reveal_strlit("inner_offset");
            assert("current"@.len() == 7 && "inner_offset"@.len() == 12);
        }
        assert("inner_current"@ != "offset"@) by {
            reveal_strlit("inner_current");
            reveal_strlit("offset");
            assert("inner_current"@.len() == 13 && "offset"@.len() == 6);
        }
        assert("inner_current"@ != "inner_offset"@) by {
            reveal_strlit("inner_current");
            reveal_strlit("inner_offset");
            assert("inner_current"@.len() == 13 && "inner_offset"@.len() == 12);
        }
        assert("inner_current"@ != "current"@) by {
            reveal_strlit("inner_current");
            reveal_strlit("current");
            assert("inner_current"@.len() == 13 && "current"@.len() == 7);
        }
    }
    proof {
        lemma_no_var(func, "inner_offset"@);
    }
    func.add_local("inner_offset", Numtype::I32);
    proof {
        lemma_no_var(func, "current"@);
    }
    func.add_local("current", inner_type);
    proof {
        lemma_no_var(func, "inner_current"@);
    }
    func.add_local("inner_current", inner_type);
    func.write_opcode(Opcode::Loop);
    assert(func.code() =~= op(Opcode::Loop));
    func.write_byte(Numtype::I32.to_byte());
    proof {
        lemma_param_at(func, "offset"@, 0);
        lemma_local_at(func, "inner_offset"@, 0);
        lemma_local_at(func, "current"@, 1);
        lemma_local_at(func, "inner_current"@, 2);
    }
    func.iter_call_advance_on_inner("offset", "inner_offset", inner_offset_delta, inner_type, advance_fn_type_idx);
    func.write_opcode(Opcode::If);
    func.write_byte(Numtype::I32.to_byte());
    func.write_opcode(Opcode::I32Const);
    func.write_byte(0x01);
    func.write_opcode(Opcode::Else);
    func.write_opcode(Opcode::LocalGet);
    func.write_var("inner_offset");
    assert(func.code() == op(Opcode::Loop)
        + seq![Numtype::I32.spec_byte()]
        + spec_iter_call_advance_on_inner(seq![0u8], seq![1u8], inner_offset_delta, inner_type, advance_fn_type_idx)
        + op(Opcode::If)
        + seq![Numtype::I32.spec_byte()]
        + op(Opcode::I32Const)
        + seq![0x01u8]
        + op(Opcode::Else)
        + op(Opcode::LocalGet)
        + seq![1u8]);
    func.write_opcode(inner_type.load_op());
    func.write_byte(0x02);
    func.write_byte(0x00);
    func.write_opcode(Opcode::LocalTee);
    func.write_var("inner_current");
    func.iter_call_map_fn("offset", filter_fn_delta, filter_fn_type_idx);
    func.write_opcode(Opcode::I32Eqz);
    func.write_opcode(Opcode::BrIf);
    func.write_byte(0x01);
    func.write_opcode(Opcode::LocalGet);
    func.write_var("inner_current");
    assert(func.code() == op(Opcode::Loop)
        + seq![Numtype::I32.spec_byte()]
        + spec_iter_call_advance_on_inner(seq![0u8], seq![1u8], inner_offset_delta, inner_type, advance_fn_type_idx)
        + op(Opcode::If)
        + seq![Numtype::I32.spec_byte()]
        + op(Opcode::I32Const)
        + seq![0x01u8]
        + op(Opcode::Else)
        + op(Opcode::LocalGet)
        + seq![1u8]
        + op(inner_type.spec_load_op())
        + memarg()
        + op(Opcode::LocalTee)
        + seq![3u8]
        + spec_iter_call_map_fn(seq![0u8], filter_fn_delta, filter_fn_type_idx)
        + op(Opcode::I32Eqz)
        + op(Opcode::BrIf)
        + seq![0x01u8]
        + op(Opcode::LocalGet)
        + seq![3u8]);
    func.write_opcode(Opcode::LocalSet);
    func.write_var("current");
    func.write_opcode(Opcode::LocalGet);
    func.write_var("offset");
    func.write_opcode(Opcode::LocalGet);
    func.write_var("current");
    func.write_opcode(inner_type.store_op());
    func.write_byte(0x02);
    func.write_byte(0x00);
    func.write_opcode(Opcode::I32Const);
    func.write_byte(0x00);
    assert(func.code() == op(Opcode::Loop)
        + seq![Numtype::I32.spec_byte()]
        + spec_iter_call_advance_on_inner(seq![0u8], seq![1u8], inner_offset_delta, inner_type, advance_fn_type_idx)
        + op(Opcode::If)
        + seq![Numtype::I32.spec_byte()]
        + op(Opcode::I32Const)
        + seq![0x01u8]
        + op(Opcode::Else)
        + op(Opcode::LocalGet)
        + seq![1u8]
        + op(inner_type.spec_load_op())
        + memarg()
        + op(Opcode::LocalTee)
        + seq![3u8]
        + spec_iter_call_map_fn(seq![0u8], filter_fn_delta, filter_fn_type_idx)
        + op(Opcode::I32Eqz)
        + op(Opcode::BrIf)
        + seq![0x01u8]
        + op(Opcode::LocalGet)
        + seq![3u8]
        + op(Opcode::LocalSet)
        + seq![2u8]
        + op(Opcode::LocalGet)
        + seq![0u8]
        + op(Opcode::LocalGet)
        + seq![2u8]
        + op(inner_type.spec_store_op())
        + memarg()
        + op(Opcode::I32Const)
        + seq![0x00u8]);
    func.write_opcode(Opcode::End);
    func.write_opcode(Opcode::End);
    func.write_opcode(Opcode::End);
    proof {
        reveal(spec_filter_iter_advance_code);
    }
    assert(func.code() == spec_filter_iter_advance_code(inner_type, inner_offset_delta, filter_fn_delta, advance_fn_type_idx, filter_fn_type_idx));
    func
}

/// Code of `define_builtin_filter_iter_factory`.
#[verifier::opaque]
pub open spec fn spec_filter_iter_factory_code(inner_type: Numtype, advance_fn_table_idx: u32, constructor_idx: u32) -> Seq<u8> {
    op(inner_type.spec_const_op())
        + spec_zero_const(inner_type)
        + op(Opcode::I32Const)
        + const_imm(advance_fn_table_idx)
        + op(Opcode::LocalGet)
        + seq![0u8]
        + op(Opcode::LocalGet)
        + seq![1u8]
        + op(Opcode::I64Const)
        + seq![0x20u8]
        + op(Opcode::I64ShrU)
        + op(Opcode::I32WrapI64)
        + op(Opcode::Call)
        + imm(constructor_idx)
        + op(Opcode::End)
}

/// Builds a filter iterator over the iterator `iter_over`.
#[verifier::spinoff_prover]
#[verifier::rlimit(30)]
pub fn define_builtin_filter_iter_factory(inner_type: Numtype, advance_fn_table_idx: u32, constructor_idx: u32) -> (f: BuiltinFunc)
    requires
        inner_type != Numtype::Void,
    ensures
        f.wf(),
        f.sig_args() == seq![Numtype::I32, Numtype::I64],
        f.sig_ret() == Option::Some(Numtype::I64),
        f.param_names() == seq!["filter_fn"@, "iter_over"@],
        f.local_names() == Seq::<Seq<char>>::empty(),
        f.spec_local_types() == Seq::<Numtype>::empty(),
        f.code() == spec_filter_iter_factory_code(inner_type, advance_fn_table_idx, constructor_idx),
{
    let mut func = BuiltinFunc::new(
        FuncTypeSignature::new(types2(Numtype::I32, Numtype::I64), Option::Some(Numtype::I64)),
        names2("filter_fn", "iter_over"),
    );
    proof {
        assert("iter_over"@ != "filter_fn"@) by {
            reveal_strlit("iter_over");
            reveal_strlit("filter_fn");
            assert("iter_over"@[0] != "filter_fn"@[0]);
        }
    }
    func.write_opcode(inner_type.const_op());
    assert(func.code() =~= op(inner_type.spec_const_op()));
    func.write_zero_const(inner_type);
    func.write_opcode(Opcode::I32Const);
    let imm_bytes = i32_const_imm(advance_fn_table_idx);
    func.write_slice(imm_bytes.as_slice());
    func.write_opcode(Opcode::LocalGet);
    proof {
        lemma_param_at(func, "filter_fn"@, 0);
        lemma_param_at(func, "iter_over"@, 1);
    }
    func.write_var("filter_fn");
    func.write_opcode(Opcode::LocalGet);
    func.write_var("iter_over");
    func.write_opcode(Opcode::I64Const);
    func.write_byte(0x20);
    assert(func.code() == op(inner_type.spec_const_op())
        + spec_zero_const(inner_type)
        + op(Opcode::I32Const)
        + const_imm(advance_fn_table_idx)
        + op(Opcode::LocalGet)
        + seq![0u8]
        + op(Opcode::LocalGet)
        + seq![1u8]
        + op(Opcode::I64Const)
        + seq![0x20u8]);
    func.write_opcode(Opcode::I64ShrU);
    func.write_opcode(Opcode::I32WrapI64);
    func.write_opcode(Opcode::Call);
    let imm_bytes = unsigned_leb128(constructor_idx);
    func.write_slice(imm_bytes.as_slice());
    func.write_opcode(Opcode::End);
    proof {
        reveal(spec_filter_iter_factory_code);
    }
    assert(func.code() == spec_filter_iter_factory_code(inner_type, advance_fn_table_idx, constructor_idx));
    func
}

/// Code of `define_builtin_array_iter_advance`.
#[verifier::opaque]
pub open spec fn spec_array_iter_advance_code(numtype: Numtype, inner_offset_delta: u32, max_inner_offset_delta: u32) -> Seq<u8> {
    op(Opcode::LocalGet)
        + seq![0u8]
        + op(Opcode::I32Const)
        + const_imm(inner_offset_delta)
        + op(Opcode::I32Add)
        + op(Opcode::I32Load)
        + memarg()
        + op(Opcode::LocalTee)
        + seq![2u8]
        + op(numtype.spec_load_op())
        + memarg()
        + op(Opcode::LocalSet)
        + seq![1u8]
        + op(Opcode::LocalGet)
        + seq![0u8]
        + op(Opcode::LocalGet)
        + seq![1u8]
        + op(numtype.spec_store_op())
        + memarg()
        + op(Opcode::LocalGet)
        + seq![2u8]
        + op(Opcode::I32Const)
        + const_imm(numtype.spec_size())
        + op(Opcode::I32Add)
        + op(Opcode::LocalSet)
        + seq![2u8]
        + op(Opcode::LocalGet)
        + seq![0u8]
        + op(Opcode::I32Const)
        + const_imm(inner_offset_delta)
        + op(Opcode::I32Add)
        + op(Opcode::LocalGet)
        + seq![2u8]
        + op(Opcode::I32Store)
        + memarg()
        + op(Opcode::LocalGet)
        + seq![2u8]
        + op(Opcode::LocalGet)
        + seq![0u8]
        + op(Opcode::I32Const)
        + const_imm(max_inner_offset_delta)
        + op(Opcode::I32Add)
        + op(Opcode::I32Load)
        + memarg()
        + op(Opcode::I32GtU)
        + op(Opcode::End)
}

/// Advances an array iterator to the next element; returns 1 once it has
/// passed the last one.
#[verifier::spinoff_prover]
#[verifier::rlimit(30)]
pub fn define_builtin_array_iter_advance(numtype: Numtype, inner_offset_delta: u32, max_inner_offset_delta: u32) -> (f: BuiltinFunc)
    requires
        numtype != Numtype::Void,
    ensures
        f.wf(),
        f.sig_args() == seq![Numtype::I32],
        f.sig_ret() == Option::Some(Numtype::I32),
        f.param_names() == seq!["offset"@],
        f.local_names() == seq!["current"@, "inner_offset"@],
        f.spec_local_types() == seq![numtype, Numtype::I32],
        f.code() == spec_array_iter_advance_code(numtype, inner_offset_delta, max_inner_offset_delta),
{
    let mut func = BuiltinFunc::advance_fn_template();
    proof {
        assert("current"@ != "offset"@) by {
            reveal_strlit("current");
            reveal_strlit("offset");
            assert("current"@.len() == 7 && "offset"@.len() == 6);
        }
        assert("inner_offset"@ != "offset"@) by {
            reveal_strlit("inner_offset");
            reveal_strlit("offset");
            assert("inner_offset"@.len() == 12 && "offset"@.len() == 6);
        }
        assert("inner_offset"@ != "current"@) by {
            reveal_strlit("inner_offset");
            reveal_strlit("current");
            assert("inner_offset"@.len() == 12 && "current"@.len() == 7);
        }
    }
    proof {
        lemma_no_var(func, "current"@);
    }
    func.add_local("current", numtype);
    proof {
        lemma_no_var(func, "inner_offset"@);
    }
    func.add_local("inner_offset", Numtype::I32);
    func.write_opcode(Opcode::LocalGet);
    assert(func.code() =~= op(Opcode::LocalGet));
    proof {
        lemma_param_at(func, "offset"@, 0);
        lemma_local_at(func, "current"@, 0);
        lemma_local_at(func, "inner_offset"@, 1);
    }
    func.write_var("offset");
    func.write_opcode(Opcode::I32Const);
    let imm_bytes = i32_const_imm(inner_offset_delta);
    func.write_slice(imm_bytes.as_slice());
    func.write_opcode(Opcode::I32Add);
    func.write_opcode(Opcode::I32Load);
    func.write_byte(0x02);
    func.write_byte(0x00);
    func.write_opcode(Opcode::LocalTee);
    func.write_var("inner_offset");
    func.write_opcode(numtype.load_op());
    assert(func.code() == op(Opcode::LocalGet)
        + seq![0u8]
        + op(Opcode::I32Const)
        + const_imm(inner_offset_delta)
        + op(Opcode::I32Add)
        + op(Opcode::I32Load)
        + memarg()
        + op(Opcode::LocalTee)
        + seq![2u8]
        + op(numtype.spec_load_op()));
    func.write_byte(0x02);
    func.write_byte(0x00);
    func.write_opcode(Opcode::LocalSet);
    func.write_var("current");
    func.write_opcode(Opcode::LocalGet);
    func.write_var("offset");
    func.write_opcode(Opcode::LocalGet);
    func.write_var("current");
    func.write_opcode(numtype.store_op());
    func.write_byte(0x02);
    func.write_byte(0x00);
    func.write_opcode(Opcode::LocalGet);
    assert(func.code() == op(Opcode::LocalGet)
        + seq![0u8]
        + op(Opcode::I32Const)
        + const_imm(inner_offset_delta)
        + op(Opcode::I32Add)
        + op(Opcode::I32Load)
        + memarg()
        + op(Opcode::LocalTee)
        + seq![2u8]
        + op(numtype.spec_load_op())
        + memarg()
        + op(Opcode::LocalSet)
        + seq![1u8]
        + op(Opcode::LocalGet)
        + seq![0u8]
        + op(Opcode::LocalGet)
        + seq![1u8]
        + op(numtype.spec_store_op())
        + memarg()
        + op(Opcode::LocalGet));
    func.write_var("inner_offset");
    func.write_opcode(Opcode::I32Const);
    let imm_bytes = i32_const_imm(numtype.size());
    func.write_slice(imm_bytes.as_slice());
    func.write_opcode(Opcode::I32Add);
    func.write_opcode(Opcode::LocalSet);
    func.write_var("inner_offset");
    func.write_opcode(Opcode::LocalGet);
    func.write_var("offset");
    func.write_opcode(Opcode::I32Const);
    let imm_bytes = i32_const_imm(inner_offset_delta);
    func.write_slice(imm_bytes.as_slice());
    assert(func.code() == op(Opcode::LocalGet)
        + seq![0u8]
        + op(Opcode::I32Const)
        + const_imm(inner_offset_delta)
        + op(Opcode::I32Add)
        + op(Opcode::I32Load)
        + memarg()
        + op(Opcode::LocalTee)
        + seq![2u8]
        + op(numtype.spec_load_op())
        + memarg()
        + op(Opcode::LocalSet)
        + seq![1u8]
        + op(Opcode::LocalGet)
        + seq![0u8]
        + op(Opcode::LocalGet)
        + seq![1u8]
        + op(numtype.spec_store_op())
        + memarg()
        + op(Opcode::LocalGet)
        + seq![2u8]
        + op(Opcode::I32Const)
        + const_imm(numtype.spec_size())
        + op(Opcode::I32Add)
        + op(Opcode::LocalSet)
        + seq![2u8]
        + op(Opcode::LocalGet)
        + seq![0u8]
        + op(Opcode::I32Const)
        + const_imm(inner_offset_delta));
    func.write_opcode(Opcode::I32Add);
    func.write_opcode(Opcode::LocalGet);
    func.write_var("inner_offset");
    func.write_opcode(Opcode::I32Store);
    func.write_byte(0x02);
    func.write_byte(0x00);
    func.write_opcode(Opcode::LocalGet);
    func.write_var("inner_offset");
    func.write_opcode(Opcode::LocalGet);
    func.write_var("offset");
    func.write_opcode(Opcode::I32Const);
    assert(func.code() == op(Opcode::LocalGet)
        + seq![0u8]
        + op(Opcode::I32Const)
        + const_imm(inner_offset_delta)
        + op(Opcode::I32Add)
        + op(Opcode::I32Load)
        + memarg()
        + op(Opcode::LocalTee)
        + seq![2u8]
        + op(numtype.spec_load_op())
        + memarg()
        + op(Opcode::LocalSet)
        + seq![1u8]
        + op(Opcode::LocalGet)
        + seq![0u8]
        + op(Opcode::LocalGet)
        + seq![1u8]
        + op(numtype.spec_store_op())
        + memarg()
        + op(Opcode::LocalGet)
        + seq![2u8]
        + op(Opcode::I32Const)
        + const_imm(numtype.spec_size())
        + op(Opcode::I32Add)
        + op(Opcode::LocalSet)
        + seq![2u8]
        + op(Opcode::LocalGet)
        + seq![0u8]
        + op(Opcode::I32Const)
        + const_imm(inner_offset_delta)
        + op(Opcode::I32Add)
        + op(Opcode::LocalGet)
        + seq![2u8]
        + op(Opcode::I32Store)
        + memarg()
        + op(Opcode::LocalGet)
        + seq![2u8]
        + op(Opcode::LocalGet)
        + seq![0u8]
        + op(Opcode::I32Const));
    let imm_bytes = i32_const_imm(max_inner_offset_delta);
    func.write_slice(imm_bytes.as_slice());
    func.write_opcode(Opcode::I32Add);
    func.write_opcode(Opcode::I32Load);
    func.write_byte(0x02);
    func.write_byte(0x00);
    func.write_opcode(Opcode::I32GtU);
    func.write_opcode(Opcode::End);
    proof {
        reveal(spec_array_iter_advance_code);
    }
    assert(func.code() == spec_array_iter_advance_code(numtype, inner_offset_delta, max_inner_offset_delta));
    func
}

/// Code of `define_builtin_array_iter_factory`.
#[verifier::opaque]
pub open spec fn spec_array_iter_factory_code(numtype: Numtype, advance_fn_table_idx: u32, constructor_idx: u32) -> Seq<u8> {
    spec_set_offset_and_size(seq![0u8], seq![1u8], seq![2u8])
        + op(numtype.spec_const_op())
        + spec_zero_const(numtype)
        + op(Opcode::I32Const)
        + const_imm(advance_fn_table_idx)
        + op(Opcode::LocalGet)
        + seq![1u8]
        + op(Opcode::LocalGet)
        + seq![1u8]
        + op(Opcode::LocalGet)
        + seq![2u8]
        + op(Opcode::I32Add)
        + op(Opcode::Call)
        + imm(constructor_idx)
        + op(Opcode::End)
}

/// Builds an iterator over the elements of an array.
#[verifier::spinoff_prover]
#[verifier::rlimit(30)]
pub fn define_builtin_array_iter_factory(numtype: Numtype, advance_fn_table_idx: u32, constructor_idx: u32) -> (f: BuiltinFunc)
    requires
        numtype != Numtype::Void,
    ensures
        f.wf(),
        f.sig_args() == seq![Numtype::I64],
        f.sig_ret() == Option::Some(Numtype::I64),
        f.param_names() == seq!["iter_fatptr"@],
        f.local_names() == seq!["iter_offset"@, "iter_size"@],
        f.spec_local_types() == seq![Numtype::I32, Numtype::I32],
        f.code() == spec_array_iter_factory_code(numtype, advance_fn_table_idx, constructor_idx),
{
    let mut func = BuiltinFunc::new(
        FuncTypeSignature::new(types1(Numtype::I64), Option::Some(Numtype::I64)),
        names1("iter_fatptr"),
    );
    proof {
        assert("iter_offset"@ != "iter_fatptr"@) by {
            reveal_strlit("iter_offset");
            reveal_strlit("iter_fatptr");
            assert("iter_offset"@[5] != "iter_fatptr"@[5]);
        }
        assert("iter_size"@ != "iter_fatptr"@) by {
            reveal_strlit("iter_size");
            reveal_strlit("iter_fatptr");
            assert("iter_size"@.len() == 9 && "iter_fatptr"@.len() == 11);
        }
        assert("iter_size"@ != "iter_offset"@) by {
            reveal_strlit("iter_size");
            reveal_strlit("iter_offset");
            assert("iter_size"@.len() == 9 && "iter_offset"@.len() == 11);
        }
    }
    proof {
        lemma_no_var(func, "iter_offset"@);
    }
    func.add_local("iter_offset", Numtype::I32);
    proof {
        lemma_no_var(func, "iter_size"@);
    }
    func.add_local("iter_size", Numtype::I32);
    proof {
        lemma_param_at(func, "iter_fatptr"@, 0);
        lemma_local_at(func, "iter_offset"@, 0);
        lemma_local_at(func, "iter_size"@, 1);
    }
    func.set_offset_and_size("iter_fatptr", "iter_offset", "iter_size");
    assert(func.code() =~= spec_set_offset_and_size(seq![0u8], seq![1u8], seq![2u8]));
    func.write_opcode(numtype.const_op());
    func.write_zero_const(numtype);
    func.write_opcode(Opcode::I32Const);
    let imm_bytes = i32_const_imm(advance_fn_table_idx);
    func.write_slice(imm_bytes.as_slice());
    func.write_opcode(Opcode::LocalGet);
    func.write_var("iter_offset");
    func.write_opcode(Opcode::LocalGet);
    func.write_var("iter_offset");
    func.write_opcode(Opcode::LocalGet);
    assert(func.code() == spec_set_offset_and_size(seq![0u8], seq![1u8], seq![2u8])
        + op(numtype.spec_const_op())
        + spec_zero_const(numtype)
        + op(Opcode::I32Const)
        + const_imm(advance_fn_table_idx)
        + op(Opcode::LocalGet)
        + seq![1u8]
        + op(Opcode::LocalGet)
        + seq![1u8]
        + op(Opcode::LocalGet));
    func.write_var("iter_size");
    func.write_opcode(Opcode::I32Add);
    func.write_opcode(Opcode::Call);
    let imm_bytes = unsigned_leb128(constructor_idx);
    func.write_slice(imm_bytes.as_slice());
    func.write_opcode(Opcode::End);
    proof {
        reveal(spec_array_iter_factory_code);
    }
    assert(func.code() == spec_array_iter_factory_code(numtype, advance_fn_table_idx, constructor_idx));
    func
}

/// Code of `define_builtin_iter_collect`.
#[verifier::opaque]
pub open spec fn spec_iter_collect_code(numtype: Numtype, alloc_idx: u32, advance_fn_type_idx: u32) -> Seq<u8> {
    op(Opcode::LocalGet)
        + seq![0u8]
        + op(Opcode::I64Const)
        + seq![0x20u8]
        + op(Opcode::I64ShrU)
        + op(Opcode::I32WrapI64)
        + op(Opcode::LocalSet)
        + seq![1u8]
        + op(Opcode::I32Const)
        + const_imm((2 * numtype.spec_size()) as u32)
        + op(Opcode::LocalTee)
        + seq![4u8]
        + op(Opcode::Call)
        + imm(alloc_idx)
        + op(Opcode::LocalTee)
        + seq![2u8]
        + op(Opcode::LocalSet)
        + seq![3u8]
        + op(Opcode::Loop)
        + seq![Numtype::Void.spec_byte()]
        + spec_iter_call_advance(seq![1u8], numtype.spec_size(), advance_fn_type_idx)
        + op(Opcode::If)
        + seq![Numtype::I32.spec_byte()]
        + op(Opcode::I32Const)
        + seq![0x00u8]
        + op(Opcode::Else)
        + op(Opcode::LocalGet)
        + seq![1u8]
        + op(numtype.spec_load_op())
        + memarg()
        + op(Opcode::LocalSet)
        + seq![5u8]
        + op(Opcode::LocalGet)
        + seq![3u8]
        + op(Opcode::LocalGet)
        + seq![5u8]
        + op(numtype.spec_store_op())
        + memarg()
        + op(Opcode::LocalGet)
        + seq![3u8]
        + op(Opcode::I32Const)
        + const_imm(numtype.spec_size())
        + op(Opcode::I32Add)
        + op(Opcode::LocalTee)
        + seq![3u8]
        + op(Opcode::LocalGet)
        + seq![2u8]
        + op(Opcode::LocalGet)
        + seq![4u8]
        + op(Opcode::I32Add)
        + op(Opcode::I32GeU)
        + op(Opcode::If)
        + seq![Numtype::Void.spec_byte()]
        + op(Opcode::LocalGet)
        + seq![4u8]
        + op(Opcode::I32Const)
        + seq![2u8]
        + op(Opcode::I32Mul)
        + op(Opcode::LocalTee)
        + seq![4u8]
        + op(Opcode::Call)
        + imm(alloc_idx)
        + op(Opcode::LocalTee)
        + seq![7u8]
        + op(Opcode::LocalGet)
        + seq![2u8]
        + op(Opcode::LocalGet)
        + seq![3u8]
        + op(Opcode::LocalGet)
        + seq![2u8]
        + op(Opcode::I32Sub)
        + spec_memcopy()
        + op(Opcode::LocalGet)
        + seq![7u8]
        + op(Opcode::LocalGet)
        + seq![3u8]
        + op(Opcode::LocalGet)
        + seq![2u8]
        + op(Opcode::I32Sub)
        + op(Opcode::I32Add)
        + op(Opcode::LocalSet)
        + seq![3u8]
        + op(Opcode::LocalGet)
        + seq![7u8]
        + op(Opcode::LocalSet)
        + seq![2u8]
        + op(Opcode::End)
        + op(Opcode::I32Const)
        + seq![0x01u8]
        + op(Opcode::End)
        + op(Opcode::BrIf)
        + seq![0x00u8]
        + op(Opcode::End)
        + op(Opcode::LocalGet)
        + seq![3u8]
        + op(Opcode::LocalGet)
        + seq![2u8]
        + op(Opcode::I32Sub)
        + op(Opcode::LocalSet)
        + seq![3u8]
        + spec_create_fatptr(seq![2u8], seq![3u8])
        + op(Opcode::End)
}

/// Collects the values of an iterator into a new array, doubling the
/// allocation whenever it fills up.
#[verifier::spinoff_prover]
#[verifier::rlimit(30)]
pub fn define_builtin_iter_collect(numtype: Numtype, alloc_idx: u32, advance_fn_type_idx: u32) -> (f: BuiltinFunc)
    requires
        numtype != Numtype::Void,
    ensures
        f.wf(),
        f.sig_args() == seq![Numtype::I64],
        f.sig_ret() == Option::Some(Numtype::I64),
        f.param_names() == seq!["iter_fatptr"@],
        f.local_names() == seq!["iter_offset"@, "array_offset"@, "element_offset"@, "alloc_size"@, "current"@, "array_size"@, "new_array_offset"@],
        f.spec_local_types() == seq![Numtype::I32, Numtype::I32, Numtype::I32, Numtype::I32, numtype, Numtype::I32, Numtype::I32],
        f.code() == spec_iter_collect_code(numtype, alloc_idx, advance_fn_type_idx),
{
    let mut func = BuiltinFunc::new(
        FuncTypeSignature::new(types1(Numtype::I64), Option::Some(Numtype::I64)),
        names1("iter_fatptr"),
    );
    proof {
        assert("iter_offset"@ != "iter_fatptr"@) by {
            reveal_strlit("iter_offset");
            reveal_strlit("iter_fatptr");
            assert("iter_offset"@[5] != "iter_fatptr"@[5]);
        }
        assert("array_offset"@ != "iter_fatptr"@) by {
            reveal_strlit("array_offset");
            reveal_strlit("iter_fatptr");
            assert("array_offset"@.len() == 12 && "iter_fatptr"@.len() == 11);
        }
        assert("array_offset"@ != "iter_offset"@) by {
            reveal_strlit("array_offset");
            reveal_strlit("iter_offset");
            assert("array_offset"@.len() == 12 && "iter_offset"@.len() == 11);
        }
        assert("element_offset"@ != "iter_fatptr"@) by {
            reveal_strlit("element_offset");
            reveal_strlit("iter_fatptr");
            assert("element_offset"@.len() == 14 && "iter_fatptr"@.len() == 11);
        }
        assert("element_offset"@ != "iter_offset"@) by {
            reveal_strlit("element_offset");
            reveal_strlit("iter_offset");
            assert("element_offset"@.len() == 14 && "iter_offset"@.len() == 11);
        }
        assert("element_offset"@ != "array_offset"@) by {
            reveal_strlit("element_offset");
            reveal_strlit("array_offset");
            assert("element_offset"@.len() == 14 && "array_offset"@.len() == 12);
        }
        assert("alloc_size"@ != "iter_fatptr"@) by {
            reveal_strlit("alloc_size");
            reveal_strlit("iter_fatptr");
            assert("alloc_size"@.len() == 10 && "iter_fatptr"@.len() == 11);
        }
        assert("alloc_size"@ != "iter_offset"@) by {
            reveal_strlit("alloc_size");
            reveal_strlit("iter_offset");
            assert("alloc_size"@.len() == 10 && "iter_offset"@.len() == 11);
        }
        assert("alloc_size"@ != "array_offset"@) by {
            reveal_strlit("alloc_size");
            reveal_strlit("array_offset");
            assert("alloc_size"@.len() == 10 && "array_offset"@.len() == 12);
        }
        assert("alloc_size"@ != "element_offset"@) by {
            reveal_strlit("alloc_size");
            reveal_strlit("element_offset");
            assert("alloc_size"@.len() == 10 && "element_offset"@.len() == 14);
        }
        assert("current"@ != "iter_fatptr"@) by {
            reveal_strlit("current");
            reveal_strlit("iter_fatptr");
            assert("current"@.len() == 7 && "iter_fatptr"@.len() == 11);
        }
        assert("current"@ != "iter_offset"@) by {
            reveal_strlit("current");
            reveal_strlit("iter_offset");
            assert("current"@.len() == 7 && "iter_offset"@.len() == 11);
        }
        assert("current"@ != "array_offset"@) by {
            reveal_strlit("current");
            reveal_strlit("array_offset");
            assert("current"@.len() == 7 && "array_offset"@.len() == 12);
        }
        assert("current"@ != "element_offset"@) by {
            reveal_strlit("current");
            reveal_strlit("element_offset");
            assert("current"@.len() == 7 && "element_offset"@.len() == 14);
        }
        assert("current"@ != "alloc_size"@) by {
            reveal_strlit("current");
            reveal_strlit("alloc_size");
            assert("current"@.len() == 7 && "alloc_size"@.len() == 10);
        }
        assert("array_size"@ != "iter_fatptr"@) by {
            reveal_strlit("array_size");
            reveal_strlit("iter_fatptr");
            assert("array_size"@.len() == 10 && "iter_fatptr"@.len() == 11);
        }
        assert("array_size"@ != "iter_offset"@) by {
            reveal_strlit("array_size");
            reveal_strlit("iter_offset");
            assert("array_size"@.len() == 10 && "iter_offset"@.len() == 11);
        }
        assert("array_size"@ != "array_offset"@) by {
            reveal_strlit("array_size");
            reveal_strlit("array_offset");
            assert("array_size"@.len() == 10 && "array_offset"@.len() == 12);
        }
        assert("array_size"@ != "element_offset"@) by {
            reveal_strlit("array_size");
            reveal_strlit("element_offset");
            assert("array_size"@.len() == 10 && "element_offset"@.len() == 14);
        }
        assert("array_size"@ != "alloc_size"@) by {
            reveal_strlit("array_size");
            reveal_strlit("alloc_size");
            assert("array_size"@[1] != "alloc_size"@[1]);
        }
        assert("array_size"@ != "current"@) by {
            reveal_strlit("array_size");
            reveal_strlit("current");
            assert("array_size"@.len() == 10 && "current"@.len() == 7);
        }
        assert("new_array_offset"@ != "iter_fatptr"@) by {
            reveal_strlit("new_array_offset");
            reveal_strlit("iter_fatptr");
            assert("new_array_offset"@.len() == 16 && "iter_fatptr"@.len() == 11);
        }
        assert("new_array_offset"@ != "iter_offset"@) by {
            reveal_strlit("new_array_offset");
            reveal_strlit("iter_offset");
            assert("new_array_offset"@.len() == 16 && "iter_offset"@.len() == 11);
        }
        assert("new_array_offset"@ != "array_offset"@) by {
            reveal_strlit("new_array_offset");
            reveal_strlit("array_offset");
            assert("new_array_offset"@.len() == 16 && "array_offset"@.len() == 12);
        }
        assert("new_array_offset"@ != "element_offset"@) by {
            reveal_strlit("new_array_offset");
            reveal_strlit("element_offset");
            assert("new_array_offset"@.len() == 16 && "element_offset"@.len() == 14);
        }
        assert("new_array_offset"@ != "alloc_size"@) by {
            reveal_strlit("new_array_offset");
            reveal_strlit("alloc_size");
            assert("new_array_offset"@.len() == 16 && "alloc_size"@.len() == 10);
        }
        assert("new_array_offset"@ != "current"@) by {
            reveal_strlit("new_array_offset");
            reveal_strlit("current");
            assert("new_array_offset"@.len() == 16 && "current"@.len() == 7);
        }
        assert("new_array_offset"@ != "array_size"@) by {
            reveal_strlit("new_array_offset");
            reveal_strlit("array_size");
            assert("new_array_offset"@.len() == 16 && "array_size"@.len() == 10);
        }
    }
    proof {
        lemma_no_var(func, "iter_offset"@);
    }
    func.add_local("iter_offset", Numtype::I32);
    proof {
        lemma_no_var(func, "array_offset"@);
    }
    func.add_local("array_offset", Numtype::I32);
    proof {
        lemma_no_var(func, "element_offset"@);
    }
    func.add_local("element_offset", Numtype::I32);
    proof {
        lemma_no_var(func, "alloc_size"@);
    }
    func.add_local("alloc_size", Numtype::I32);
    proof {
        lemma_no_var(func, "current"@);
    }
    func.add_local("current", numtype);
    proof {
        lemma_no_var(func, "array_size"@);
    }
    func.add_local("array_size", Numtype::I32);
    proof {
        lemma_no_var(func, "new_array_offset"@);
    }
    func.add_local("new_array_offset", Numtype::I32);
    func.write_opcode(Opcode::LocalGet);
    assert(func.code() =~= op(Opcode::LocalGet));
    proof {
        lemma_param_at(func, "iter_fatptr"@, 0);
        lemma_local_at(func, "iter_offset"@, 0);
        lemma_local_at(func, "array_offset"@, 1);
        lemma_local_at(func, "element_offset"@, 2);
        lemma_local_at(func, "alloc_size"@, 3);
        lemma_local_at(func, "current"@, 4);
        lemma_local_at(func, "array_size"@, 5);
        lemma_local_at(func, "new_array_offset"@, 6);
    }
    func.write_var("iter_fatptr");
    func.write_opcode(Opcode::I64Const);
    func.write_byte(0x20);
    func.write_opcode(Opcode::I64ShrU);
    func.write_opcode(Opcode::I32WrapI64);
    func.write_opcode(Opcode::LocalSet);
    func.write_var("iter_offset");
    func.write_opcode(Opcode::I32Const);
    let imm_bytes = i32_const_imm(2 * numtype.size());
    func.write_slice(imm_bytes.as_slice());
    assert(func.code() == op(Opcode::LocalGet)
        + seq![0u8]
        + op(Opcode::I64Const)
        + seq![0x20u8]
        + op(Opcode::I64ShrU)
        + op(Opcode::I32WrapI64)
        + op(Opcode::LocalSet)
        + seq![1u8]
        + op(Opcode::I32Const)
        + const_imm((2 * numtype.spec_size()) as u32));
    func.write_opcode(Opcode::LocalTee);
    func.write_var("alloc_size");
    func.write_opcode(Opcode::Call);
    let imm_bytes = unsigned_leb128(alloc_idx);
    func.write_slice(imm_bytes.as_slice());
    func.write_opcode(Opcode::LocalTee);
    func.write_var("array_offset");
    func.write_opcode(Opcode::LocalSet);
    func.write_var("element_offset");
    func.write_opcode(Opcode::Loop);
    func.write_byte(Numtype::Void.to_byte());
    assert(func.code() == op(Opcode::LocalGet)
        + seq![0u8]
        + op(Opcode::I64Const)
        + seq![0x20u8]
        + op(Opcode::I64ShrU)
        + op(Opcode::I32WrapI64)
        + op(Opcode::LocalSet)
        + seq![1u8]
        + op(Opcode::I32Const)
        + const_imm((2 * numtype.spec_size()) as u32)
        + op(Opcode::LocalTee)
        + seq![4u8]
        + op(Opcode::Call)
        + imm(alloc_idx)
        + op(Opcode::LocalTee)
        + seq![2u8]
        + op(Opcode::LocalSet)
        + seq![3u8]
        + op(Opcode::Loop)
        + seq![Numtype::Void.spec_byte()]);
    func.iter_call_advance("iter_offset", numtype.size(), advance_fn_type_idx);
    func.write_opcode(Opcode::If);
    func.write_byte(Numtype::I32.to_byte());
    func.write_opcode(Opcode::I32Const);
    func.write_byte(0x00);
    func.write_opcode(Opcode::Else);
    func.write_opcode(Opcode::LocalGet);
    func.write_var("iter_offset");
    func.write_opcode(numtype.load_op());
    func.write_byte(0x02);
    func.write_byte(0x00);
    assert(func.code() == op(Opcode::LocalGet)
        + seq![0u8]
        + op(Opcode::I64Const)
        + seq![0x20u8]
        + op(Opcode::I64ShrU)
        + op(Opcode::I32WrapI64)
        + op(Opcode::LocalSet)
        + seq![1u8]
        + op(Opcode::I32Const)
        + const_imm((2 * numtype.spec_size()) as u32)
        + op(Opcode::LocalTee)
        + seq![4u8]
        + op(Opcode::Call)
        + imm(alloc_idx)
        + op(Opcode::LocalTee)
        + seq![2u8]
        + op(Opcode::LocalSet)
        + seq![3u8]
        + op(Opcode::Loop)
        + seq![Numtype::Void.spec_byte()]
        + spec_iter_call_advance(seq![1u8], numtype.spec_size(), advance_fn_type_idx)
        + op(Opcode::If)
        + seq![Numtype::I32.spec_byte()]
        + op(Opcode::I32Const)
        + seq![0x00u8]
        + op(Opcode::Else)
        + op(Opcode::LocalGet)
        + seq![1u8]
        + op(numtype.spec_load_op())
        + memarg());
    func.write_opcode(Opcode::LocalSet);
    func.write_var("current");
    func.write_opcode(Opcode::LocalGet);
    func.write_var("element_offset");
    func.write_opcode(Opcode::LocalGet);
    func.write_var("current");
    func.write_opcode(numtype.store_op());
    func.write_byte(0x02);
    func.write_byte(0x00);
    func.write_opcode(Opcode::LocalGet);
    func.write_var("element_offset");
    assert(func.code() == op(Opcode::LocalGet)
        + seq![0u8]
        + op(Opcode::I64Const)
        + seq![0x20u8]
        + op(Opcode::I64ShrU)
        + op(Opcode::I32WrapI64)
        + op(Opcode::LocalSet)
        + seq![1u8]
        + op(Opcode::I32Const)
        + const_imm((2 * numtype.spec_size()) as u32)
        + op(Opcode::LocalTee)
        + seq![4u8]
        + op(Opcode::Call)
        + imm(alloc_idx)
        + op(Opcode::LocalTee)
        + seq![2u8]
        + op(Opcode::LocalSet)
        + seq![3u8]
        + op(Opcode::Loop)
        + seq![Numtype::Void.spec_byte()]
        + spec_iter_call_advance(seq![1u8], numtype.spec_size(), advance_fn_type_idx)
        + op(Opcode::If)
        + seq![Numtype::I32.spec_byte()]
        + op(Opcode::I32Const)
        + seq![0x00u8]
        + op(Opcode::Else)
        + op(Opcode::LocalGet)
        + seq![1u8]
        + op(numtype.spec_load_op())
        + memarg()
        + op(Opcode::LocalSet)
        + seq![5u8]
        + op(Opcode::LocalGet)
        + seq![3u8]
        + op(Opcode::LocalGet)
        + seq![5u8]
        + op(numtype.spec_store_op())
        + memarg()
        + op(Opcode::LocalGet)
        + seq![3u8]);
    func.write_opcode(Opcode::I32Const);
    let imm_bytes = i32_const_imm(numtype.size());
    func.write_slice(imm_bytes.as_slice());
    func.write_opcode(Opcode::I32Add);
    func.write_opcode(Opcode::LocalTee);
    func.write_var("element_offset");
    func.write_opcode(Opcode::LocalGet);
    func.write_var("array_offset");
    func.write_opcode(Opcode::LocalGet);
    func.write_var("alloc_size");
    func.write_opcode(Opcode::I32Add);
    assert(func.code() == op(Opcode::LocalGet)
        + seq![0u8]
        + op(Opcode::I64Const)
        + seq![0x20u8]
        + op(Opcode::I64ShrU)
        + op(Opcode::I32WrapI64)
        + op(Opcode::LocalSet)
        + seq![1u8]
        + op(Opcode::I32Const)
        + const_imm((2 * numtype.spec_size()) as u32)
        + op(Opcode::LocalTee)
        + seq![4u8]
        + op(Opcode::Call)
        + imm(alloc_idx)
        + op(Opcode::LocalTee)
        + seq![2u8]
        + op(Opcode::LocalSet)
        + seq![3u8]
        + op(Opcode::Loop)
        + seq![Numtype::Void.spec_byte()]
        + spec_iter_call_advance(seq![1u8], numtype.spec_size(), advance_fn_type_idx)
        + op(Opcode::If)
        + seq![Numtype::I32.spec_byte()]
        + op(Opcode::I32Const)
        + seq![0x00u8]
        + op(Opcode::Else)
        + op(Opcode::LocalGet)
        + seq![1u8]
        + op(numtype.spec_load_op())
        + memarg()
        + op(Opcode::LocalSet)
        + seq![5u8]
        + op(Opcode::LocalGet)
        + seq![3u8]
        + op(Opcode::LocalGet)
        + seq![5u8]
        + op(numtype.spec_store_op())
        + memarg()
        + op(Opcode::LocalGet)
        + seq![3u8]
        + op(Opcode::I32Const)
        + const_imm(numtype.spec_size())
        + op(Opcode::I32Add)
        + op(Opcode::LocalTee)
        + seq![3u8]
        + op(Opcode::LocalGet)
        + seq![2u8]
        + op(Opcode::LocalGet)
        + seq![4u8]
        + op(Opcode::I32Add));
    func.write_opcode(Opcode::I32GeU);
    func.write_opcode(Opcode::If);
    func.write_byte(Numtype::Void.to_byte());
    func.write_opcode(Opcode::LocalGet);
    func.write_var("alloc_size");
    func.write_opcode(Opcode::I32Const);
    func.write_byte(2);
    func.write_opcode(Opcode::I32Mul);
    func.write_opcode(Opcode::LocalTee);
    func.write_var("alloc_size");
    assert(func.code() == op(Opcode::LocalGet)
        + seq![0u8]
        + op(Opcode::I64Const)
        + seq![0x20u8]
        + op(Opcode::I64ShrU)
        + op(Opcode::I32WrapI64)
        + op(Opcode::LocalSet)
        + seq![1u8]
        + op(Opcode::I32Const)
        + const_imm((2 * numtype.spec_size()) as u32)
        + op(Opcode::LocalTee)
        + seq![4u8]
        + op(Opcode::Call)
        + imm(alloc_idx)
        + op(Opcode::LocalTee)
        + seq![2u8]
        + op(Opcode::LocalSet)
        + seq![3u8]
        + op(Opcode::Loop)
        + seq![Numtype::Void.spec_byte()]
        + spec_iter_call_advance(seq![1u8], numtype.spec_size(), advance_fn_type_idx)
        + op(Opcode::If)
        + seq![Numtype::I32.spec_byte()]
        + op(Opcode::I32Const)
        + seq![0x00u8]
        + op(Opcode::Else)
        + op(Opcode::LocalGet)
        + seq![1u8]
        + op(numtype.spec_load_op())
        + memarg()
        + op(Opcode::LocalSet)
        + seq![5u8]
        + op(Opcode::LocalGet)
        + seq![3u8]
        + op(Opcode::LocalGet)
        + seq![5u8]
        + op(numtype.spec_store_op())
        + memarg()
        + op(Opcode::LocalGet)
        + seq![3u8]
        + op(Opcode::I32Const)
        + const_imm(numtype.spec_size())
        + op(Opcode::I32Add)
        + op(Opcode::LocalTee)
        + seq![3u8]
        + op(Opcode::LocalGet)
        + seq![2u8]
        + op(Opcode::LocalGet)
        + seq![4u8]
        + op(Opcode::I32Add)
        + op(Opcode::I32GeU)
        + op(Opcode::If)
        + seq![Numtype::Void.spec_byte()]
        + op(Opcode::LocalGet)
        + seq![4u8]
        + op(Opcode::I32Const)
        + seq![2u8]
        + op(Opcode::I32Mul)
        + op(Opcode::LocalTee)
        + seq![4u8]);
    func.write_opcode(Opcode::Call);
    let imm_bytes = unsigned_leb128(alloc_idx);
    func.write_slice(imm_bytes.as_slice());
    func.write_opcode(Opcode::LocalTee);
    func.write_var("new_array_offset");
    func.write_opcode(Opcode::LocalGet);
    func.write_var("array_offset");
    func.write_opcode(Opcode::LocalGet);
    func.write_var("element_offset");
    func.write_opcode(Opcode::LocalGet);
    func.write_var("array_offset");
    assert(func.code() == op(Opcode::LocalGet)
        + seq![0u8]
        + op(Opcode::I64Const)
        + seq![0x20u8]
        + op(Opcode::I64ShrU)
        + op(Opcode::I32WrapI64)
        + op(Opcode::LocalSet)
        + seq![1u8]
        + op(Opcode::I32Const)
        + const_imm((2 * numtype.spec_size()) as u32)
        + op(Opcode::LocalTee)
        + seq![4u8]
        + op(Opcode::Call)
        + imm(alloc_idx)
        + op(Opcode::LocalTee)
        + seq![2u8]
        + op(Opcode::LocalSet)
        + seq![3u8]
        + op(Opcode::Loop)
        + seq![Numtype::Void.spec_byte()]
        + spec_iter_call_advance(seq![1u8], numtype.spec_size(), advance_fn_type_idx)
        + op(Opcode::If)
        + seq![Numtype::I32.spec_byte()]
        + op(Opcode::I32Const)
        + seq![0x00u8]
        + op(Opcode::Else)
        + op(Opcode::LocalGet)
        + seq![1u8]
        + op(numtype.spec_load_op())
        + memarg()
        + op(Opcode::LocalSet)
        + seq![5u8]
        + op(Opcode::LocalGet)
        + seq![3u8]
        + op(Opcode::LocalGet)
        + seq![5u8]
        + op(numtype.spec_store_op())
        + memarg()
        + op(Opcode::LocalGet)
        + seq![3u8]
        + op(Opcode::I32Const)
        + const_imm(numtype.spec_size())
        + op(Opcode::I32Add)
        + op(Opcode::LocalTee)
        + seq![3u8]
        + op(Opcode::LocalGet)
        + seq![2u8]
        + op(Opcode::LocalGet)
        + seq![4u8]
        + op(Opcode::I32Add)
        + op(Opcode::I32GeU)
        + op(Opcode::If)
        + seq![Numtype::Void.spec_byte()]
        + op(Opcode::LocalGet)
        + seq![4u8]
        + op(Opcode::I32Const)
        + seq![2u8]
        + op(Opcode::I32Mul)
        + op(Opcode::LocalTee)
        + seq![4u8]
        + op(Opcode::Call)
        + imm(alloc_idx)
        + op(Opcode::LocalTee)
        + seq![7u8]
        + op(Opcode::LocalGet)
        + seq![2u8]
        + op(Opcode::LocalGet)
        + seq![3u8]
        + op(Opcode::LocalGet)
        + seq![2u8]);
    func.write_opcode(Opcode::I32Sub);
    let copy_bytes = memcopy();
    func.write_slice(copy_bytes.as_slice());
    func.write_opcode(Opcode::LocalGet);
    func.write_var("new_array_offset");
    func.write_opcode(Opcode::LocalGet);
    func.write_var("element_offset");
    func.write_opcode(Opcode::LocalGet);
    func.write_var("array_offset");
    func.write_opcode(Opcode::I32Sub);
    func.write_opcode(Opcode::I32Add);
    assert(func.code() == op(Opcode::LocalGet)
        + seq![0u8]
        + op(Opcode::I64Const)
        + seq![0x20u8]
        + op(Opcode::I64ShrU)
        + op(Opcode::I32WrapI64)
        + op(Opcode::LocalSet)
        + seq![1u8]
        + op(Opcode::I32Const)
        + const_imm((2 * numtype.spec_size()) as u32)
        + op(Opcode::LocalTee)
        + seq![4u8]
        + op(Opcode::Call)
        + imm(alloc_idx)
        + op(Opcode::LocalTee)
        + seq![2u8]
        + op(Opcode::LocalSet)
        + seq![3u8]
        + op(Opcode::Loop)
        + seq![Numtype::Void.spec_byte()]
        + spec_iter_call_advance(seq![1u8], numtype.spec_size(), advance_fn_type_idx)
        + op(Opcode::If)
        + seq![Numtype::I32.spec_byte()]
        + op(Opcode::I32Const)
        + seq![0x00u8]
        + op(Opcode::Else)
        + op(Opcode::LocalGet)
        + seq![1u8]
        + op(numtype.spec_load_op())
        + memarg()
        + op(Opcode::LocalSet)
        + seq![5u8]
        + op(Opcode::LocalGet)
        + seq![3u8]
        + op(Opcode::LocalGet)
        + seq![5u8]
        + op(numtype.spec_store_op())
        + memarg()
        + op(Opcode::LocalGet)
        + seq![3u8]
        + op(Opcode::I32Const)
        + const_imm(numtype.spec_size())
        + op(Opcode::I32Add)
        + op(Opcode::LocalTee)
        + seq![3u8]
        + op(Opcode::LocalGet)
        + seq![2u8]
        + op(Opcode::LocalGet)
        + seq![4u8]
        + op(Opcode::I32Add)
        + op(Opcode::I32GeU)
        + op(Opcode::If)
        + seq![Numtype::Void.spec_byte()]
        + op(Opcode::LocalGet)
        + seq![4u8]
        + op(Opcode::I32Const)
        + seq![2u8]
        + op(Opcode::I32Mul)
        + op(Opcode::LocalTee)
        + seq![4u8]
        + op(Opcode::Call)
        + imm(alloc_idx)
        + op(Opcode::LocalTee)
        + seq![7u8]
        + op(Opcode::LocalGet)
        + seq![2u8]
        + op(Opcode::LocalGet)
        + seq![3u8]
        + op(Opcode::LocalGet)
        + seq![2u8]
        + op(Opcode::I32Sub)
        + spec_memcopy()
        + op(Opcode::LocalGet)
        + seq![7u8]
        + op(Opcode::LocalGet)
        + seq![3u8]
        + op(Opcode::LocalGet)
        + seq![2u8]
        + op(Opcode::I32Sub)
        + op(Opcode::I32Add));
    func.write_opcode(Opcode::LocalSet);
    func.write_var("element_offset");
    func.write_opcode(Opcode::LocalGet);
    func.write_var("new_array_offset");
    func.write_opcode(Opcode::LocalSet);
    func.write_var("array_offset");
    func.write_opcode(Opcode::End);
    func.write_opcode(Opcode::I32Const);
    func.write_byte(0x01);
    func.write_opcode(Opcode::End);
    assert(func.code() == op(Opcode::LocalGet)
        + seq![0u8]
        + op(Opcode::I64Const)
        + seq![0x20u8]
        + op(Opcode::I64ShrU)
        + op(Opcode::I32WrapI64)
        + op(Opcode::LocalSet)
        + seq![1u8]
        + op(Opcode::I32Const)
        + const_imm((2 * numtype.spec_size()) as u32)
        + op(Opcode::LocalTee)
        + seq![4u8]
        + op(Opcode::Call)
        + imm(alloc_idx)
        + op(Opcode::LocalTee)
        + seq![2u8]
        + op(Opcode::LocalSet)
        + seq![3u8]
        + op(Opcode::Loop)
        + seq![Numtype::Void.spec_byte()]
        + spec_iter_call_advance(seq![1u8], numtype.spec_size(), advance_fn_type_idx)
        + op(Opcode::If)
        + seq![Numtype::I32.spec_byte()]
        + op(Opcode::I32Const)
        + seq![0x00u8]
        + op(Opcode::Else)
        + op(Opcode::LocalGet)
        + seq![1u8]
        + op(numtype.spec_load_op())
        + memarg()
        + op(Opcode::LocalSet)
        + seq![5u8]
        + op(Opcode::LocalGet)
        + seq![3u8]
        + op(Opcode::LocalGet)
        + seq![5u8]
        + op(numtype.spec_store_op())
        + memarg()
        + op(Opcode::LocalGet)
        + seq![3u8]
        + op(Opcode::I32Const)
        + const_imm(numtype.spec_size())
        + op(Opcode::I32Add)
        + op(Opcode::LocalTee)
        + seq![3u8]
        + op(Opcode::LocalGet)
        + seq![2u8]
        + op(Opcode::LocalGet)
        + seq![4u8]
        + op(Opcode::I32Add)
        + op(Opcode::I32GeU)
        + op(Opcode::If)
        + seq![Numtype::Void.spec_byte()]
        + op(Opcode::LocalGet)
        + seq![4u8]
        + op(Opcode::I32Const)
        + seq![2u8]
        + op(Opcode::I32Mul)
        + op(Opcode::LocalTee)
        + seq![4u8]
        + op(Opcode::Call)
        + imm(alloc_idx)
        + op(Opcode::LocalTee)
        + seq![7u8]
        + op(Opcode::LocalGet)
        + seq![2u8]
        + op(Opcode::LocalGet)
        + seq![3u8]
        + op(Opcode::LocalGet)
        + seq![2u8]
        + op(Opcode::I32Sub)
        + spec_memcopy()
        + op(Opcode::LocalGet)
        + seq![7u8]
        + op(Opcode::LocalGet)
        + seq![3u8]
        + op(Opcode::LocalGet)
        + seq![2u8]
        + op(Opcode::I32Sub)
        + op(Opcode::I32Add)
        + op(Opcode::LocalSet)
        + seq![3u8]
        + op(Opcode::LocalGet)
        + seq![7u8]
        + op(Opcode::LocalSet)
        + seq![2u8]
        + op(Opcode::End)
        + op(Opcode::I32Const)
        + seq![0x01u8]
        + op(Opcode::End));
    func.write_opcode(Opcode::BrIf);
    func.write_byte(0x00);
    func.write_opcode(Opcode::End);
    func.write_opcode(Opcode::LocalGet);
    func.write_var("element_offset");
    func.write_opcode(Opcode::LocalGet);
    func.write_var("array_offset");
    func.write_opcode(Opcode::I32Sub);
    func.write_opcode(Opcode::LocalSet);
    func.write_var("element_offset");
    assert(func.code() == op(Opcode::LocalGet)
        + seq![0u8]
        + op(Opcode::I64Const)
        + seq![0x20u8]
        + op(Opcode::I64ShrU)
        + op(Opcode::I32WrapI64)
        + op(Opcode::LocalSet)
        + seq![1u8]
        + op(Opcode::I32Const)
        + const_imm((2 * numtype.spec_size()) as u32)
        + op(Opcode::LocalTee)
        + seq![4u8]
        + op(Opcode::Call)
        + imm(alloc_idx)
        + op(Opcode::LocalTee)
        + seq![2u8]
        + op(Opcode::LocalSet)
        + seq![3u8]
        + op(Opcode::Loop)
        + seq![Numtype::Void.spec_byte()]
        + spec_iter_call_advance(seq![1u8], numtype.spec_size(), advance_fn_type_idx)
        + op(Opcode::If)
        + seq![Numtype::I32.spec_byte()]
        + op(Opcode::I32Const)
        + seq![0x00u8]
        + op(Opcode::Else)
        + op(Opcode::LocalGet)
        + seq![1u8]
        + op(numtype.spec_load_op())
        + memarg()
        + op(Opcode::LocalSet)
        + seq![5u8]
        + op(Opcode::LocalGet)
        + seq![3u8]
        + op(Opcode::LocalGet)
        + seq![5u8]
        + op(numtype.spec_store_op())
        + memarg()
        + op(Opcode::LocalGet)
        + seq![3u8]
        + op(Opcode::I32Const)
        + const_imm(numtype.spec_size())
        + op(Opcode::I32Add)
        + op(Opcode::LocalTee)
        + seq![3u8]
        + op(Opcode::LocalGet)
        + seq![2u8]
        + op(Opcode::LocalGet)
        + seq![4u8]
        + op(Opcode::I32Add)
        + op(Opcode::I32GeU)
        + op(Opcode::If)
        + seq![Numtype::Void.spec_byte()]
        + op(Opcode::LocalGet)
        + seq![4u8]
        + op(Opcode::I32Const)
        + seq![2u8]
        + op(Opcode::I32Mul)
        + op(Opcode::LocalTee)
        + seq![4u8]
        + op(Opcode::Call)
        + imm(alloc_idx)
        + op(Opcode::LocalTee)
        + seq![7u8]
        + op(Opcode::LocalGet)
        + seq![2u8]
        + op(Opcode::LocalGet)
        + seq![3u8]
        + op(Opcode::LocalGet)
        + seq![2u8]
        + op(Opcode::I32Sub)
        + spec_memcopy()
        + op(Opcode::LocalGet)
        + seq![7u8]
        + op(Opcode::LocalGet)
        + seq![3u8]
        + op(Opcode::LocalGet)
        + seq![2u8]
        + op(Opcode::I32Sub)
        + op(Opcode::I32Add)
        + op(Opcode::LocalSet)
        + seq![3u8]
        + op(Opcode::LocalGet)
        + seq![7u8]
        + op(Opcode::LocalSet)
        + seq![2u8]
        + op(Opcode::End)
        + op(Opcode::I32Const)
        + seq![0x01u8]
        + op(Opcode::End)
        + op(Opcode::BrIf)
        + seq![0x00u8]
        + op(Opcode::End)
        + op(Opcode::LocalGet)
        + seq![3u8]
        + op(Opcode::LocalGet)
        + seq![2u8]
        + op(Opcode::I32Sub)
        + op(Opcode::LocalSet)
        + seq![3u8]);
    func.create_fatptr("array_offset", "element_offset");
    func.write_opcode(Opcode::End);
    proof {
        reveal(spec_iter_collect_code);
    }
    assert(func.code() == spec_iter_collect_code(numtype, alloc_idx, advance_fn_type_idx));
    func
}

/// Code of `define_builtin_iter_last`.
#[verifier::opaque]
pub open spec fn spec_iter_last_code(iter_type: Numtype, advance_fn_type_idx: u32) -> Seq<u8> {
    op(Opcode::LocalGet)
        + seq![0u8]
        + op(Opcode::I64Const)
        + seq![0x20u8]
        + op(Opcode::I64ShrU)
        + op(Opcode::I32WrapI64)
        + op(Opcode::LocalSet)
        + seq![1u8]
        + op(Opcode::Loop)
        + seq![iter_type.spec_byte()]
        + op(Opcode::LocalGet)
        + seq![1u8]
        + op(Opcode::LocalGet)
        + seq![1u8]
        + op(Opcode::I32Const)
        + const_imm(iter_type.spec_size())
        + op(Opcode::I32Add)
        + op(Opcode::I32Load)
        + memarg()
        + op(Opcode::CallIndirect)
        + imm(advance_fn_type_idx)
        + seq![0x00u8]
        + op(Opcode::I32Eqz)
        + op(Opcode::BrIf)
        + seq![0x00u8]
        + op(Opcode::LocalGet)
        + seq![1u8]
        + op(iter_type.spec_load_op())
        + memarg()
        + op(Opcode::End)
        + op(Opcode::End)
}

/// Advances an iterator to its end and returns its last value.
#[verifier::spinoff_prover]
#[verifier::rlimit(30)]
pub fn define_builtin_iter_last(iter_type: Numtype, advance_fn_type_idx: u32) -> (f: BuiltinFunc)
    requires
        iter_type != Numtype::Void,
    ensures
        f.wf(),
        f.sig_args() == seq![Numtype::I64],
        f.sig_ret() == Option::Some(iter_type),
        f.param_names() == seq!["iter_fatptr"@],
        f.local_names() == seq!["iter_offset"@],
        f.spec_local_types() == seq![Numtype::I32],
        f.code() == spec_iter_last_code(iter_type, advance_fn_type_idx),
{
    let mut func = BuiltinFunc::new(
        FuncTypeSignature::new(types1(Numtype::I64), Option::Some(iter_type)),
        names1("iter_fatptr"),
    );
    proof {
        assert("iter_offset"@ != "iter_fatptr"@) by {
            reveal_strlit("iter_offset");
            reveal_strlit("iter_fatptr");
            assert("iter_offset"@[5] != "iter_fatptr"@[5]);
        }
    }
    proof {
        lemma_no_var(func, "iter_offset"@);
    }
    func.add_local("iter_offset", Numtype::I32);
    func.write_opcode(Opcode::LocalGet);
    assert(func.code() =~= op(Opcode::LocalGet));
    proof {
        lemma_param_at(func, "iter_fatptr"@, 0);
        lemma_local_at(func, "iter_offset"@, 0);
    }
    func.write_var("iter_fatptr");
    func.write_opcode(Opcode::I64Const);
    func.write_byte(0x20);
    func.write_opcode(Opcode::I64ShrU);
    func.write_opcode(Opcode::I32WrapI64);
    func.write_opcode(Opcode::LocalSet);
    func.write_var("iter_offset");
    func.write_opcode(Opcode::Loop);
    func.write_byte(iter_type.to_byte());
    assert(func.code() == op(Opcode::LocalGet)
        + seq![0u8]
        + op(Opcode::I64Const)
        + seq![0x20u8]
        + op(Opcode::I64ShrU)
        + op(Opcode::I32WrapI64)
        + op(Opcode::LocalSet)
        + seq![1u8]
        + op(Opcode::Loop)
        + seq![iter_type.spec_byte()]);
    func.write_opcode(Opcode::LocalGet);
    func.write_var("iter_offset");
    func.write_opcode(Opcode::LocalGet);
    func.write_var("iter_offset");
    func.write_opcode(Opcode::I32Const);
    let imm_bytes = i32_const_imm(iter_type.size());
    func.write_slice(imm_bytes.as_slice());
    func.write_opcode(Opcode::I32Add);
    func.write_opcode(Opcode::I32Load);
    func.write_byte(0x02);
    func.write_byte(0x00);
    func.write_opcode(Opcode::CallIndirect);
    assert(func.code() == op(Opcode::LocalGet)
        + seq![0u8]
        + op(Opcode::I64Const)
        + seq![0x20u8]
        + op(Opcode::I64ShrU)
        + op(Opcode::I32WrapI64)
        + op(Opcode::LocalSet)
        + seq![1u8]
        + op(Opcode::Loop)
        + seq![iter_type.spec_byte()]
        + op(Opcode::LocalGet)
        + seq![1u8]
        + op(Opcode::LocalGet)
        + seq![1u8]
        + op(Opcode::I32Const)
        + const_imm(iter_type.spec_size())
        + op(Opcode::I32Add)
        + op(Opcode::I32Load)
        + memarg()
        + op(Opcode::CallIndirect));
    let imm_bytes = unsigned_leb128(advance_fn_type_idx);
    func.write_slice(imm_bytes.as_slice());
    func.write_byte(0x00);
    func.write_opcode(Opcode::I32Eqz);
    func.write_opcode(Opcode::BrIf);
    func.write_byte(0x00);
    func.write_opcode(Opcode::LocalGet);
    func.write_var("iter_offset");
    func.write_opcode(iter_type.load_op());
    func.write_byte(0x02);
    func.write_byte(0x00);
    func.write_opcode(Opcode::End);
    assert(func.code() == op(Opcode::LocalGet)
        + seq![0u8]
        + op(Opcode::I64Const)
        + seq![0x20u8]
        + op(Opcode::I64ShrU)
        + op(Opcode::I32WrapI64)
        + op(Opcode::LocalSet)
        + seq![1u8]
        + op(Opcode::Loop)
        + seq![iter_type.spec_byte()]
        + op(Opcode::LocalGet)
        + seq![1u8]
        + op(Opcode::LocalGet)
        + seq![1u8]
        + op(Opcode::I32Const)
        + const_imm(iter_type.spec_size())
        + op(Opcode::I32Add)
        + op(Opcode::I32Load)
        + memarg()
        + op(Opcode::CallIndirect)
        + imm(advance_fn_type_idx)
        + seq![0x00u8]
        + op(Opcode::I32Eqz)
        + op(Opcode::BrIf)
        + seq![0x00u8]
        + op(Opcode::LocalGet)
        + seq![1u8]
        + op(iter_type.spec_load_op())
        + memarg()
        + op(Opcode::End));
    func.write_opcode(Opcode::End);
    proof {
        reveal(spec_iter_last_code);
    }
    assert(func.code() == spec_iter_last_code(iter_type, advance_fn_type_idx));
    func
}

/// The index bytes of a variable of a function with the given parameters
/// and the locals `<offset>` and `<size>`.
pub open spec fn struct_var(names: Seq<Seq<char>>, name: Seq<char>) -> Seq<u8> {
    spec_uleb128((spec_var_index(names, seq!["<offset>"@, "<size>"@], name)->0 as u32) as nat)
}

/// The names of the fields of a struct.
pub open spec fn field_names(fields: Seq<(String, StructField)>) -> Seq<Seq<char>> {
    fields.map_values(|f: (String, StructField)| f.0@)
}

/// The types of the fields of a struct.
pub open spec fn field_types(fields: Seq<(String, StructField)>) -> Seq<Numtype> {
    fields.map_values(|f: (String, StructField)| f.1.nt)
}

/// The code that stores one field, passed as a parameter, at its offset from
/// `<offset>`.
pub open spec fn spec_field_store(names: Seq<Seq<char>>, f: (String, StructField)) -> Seq<u8> {
    op(Opcode::LocalGet) + struct_var(names, "<offset>"@) + op(Opcode::I32Const) + const_imm(f.1.offset) + op(
        Opcode::I32Add,
    ) + op(Opcode::LocalGet) + struct_var(names, f.0@) + op(f.1.nt.spec_store_op()) + memarg()
}

/// The stores of the given fields, one after another.
pub open spec fn spec_field_stores(names: Seq<Seq<char>>, fields: Seq<(String, StructField)>) -> Seq<u8>
    decreases fields.len(),
{
    if fields.len() == 0 {
        Seq::empty()
    } else {
        spec_field_stores(names, fields.drop_last()) + spec_field_store(names, fields.last())
    }
}

/// Code of `define_builtin_struct_constructor`.
pub open spec fn spec_struct_constructor_code(fields: Seq<(String, StructField)>, size: u32, alloc_fn_idx: u32) -> Seq<u8> {
    let names = field_names(fields);
    op(Opcode::I32Const) + const_imm(size) + op(Opcode::LocalTee) + struct_var(names, "<size>"@) + op(Opcode::Call)
        + imm(alloc_fn_idx) + op(Opcode::LocalSet) + struct_var(names, "<offset>"@) + spec_field_stores(
        names,
        fields,
    ) + spec_create_fatptr(struct_var(names, "<offset>"@), struct_var(names, "<size>"@)) + op(Opcode::End)
}

/// A constructor for a struct: it takes the fields as parameters, allocates
/// the struct's size, stores each field at its offset, and returns the fat
/// pointer of the new object.
#[verifier::spinoff_prover]
#[verifier::rlimit(30)]
pub fn define_builtin_struct_constructor(struct_def: &Struct, alloc_fn_idx: u32) -> (f: BuiltinFunc)
    requires
        struct_def.fields@.len() + 2 < u32::MAX,
        !field_names(struct_def.fields@).contains("<offset>"@),
        !field_names(struct_def.fields@).contains("<size>"@),
        forall|i: int| 0 <= i < struct_def.fields@.len() ==> (#[trigger] struct_def.fields@[i]).1.nt != Numtype::Void,
    ensures
        f.wf(),
        f.sig_args() == field_types(struct_def.fields@),
        f.sig_ret() == Option::Some(Numtype::I64),
        f.param_names() == field_names(struct_def.fields@),
        f.local_names() == seq!["<offset>"@, "<size>"@],
        f.spec_local_types() == seq![Numtype::I32, Numtype::I32],
        f.code() == spec_struct_constructor_code(struct_def.fields@, struct_def.size, alloc_fn_idx),
{
    let ghost fields = struct_def.fields@;
    let ghost names = field_names(fields);
    let mut fieldnames: Vec<String> = Vec::new();
    let mut fieldtypes: Vec<Numtype> = Vec::new();
    let mut i: usize = 0;
    while i < struct_def.fields.len()
        invariant
            fields == struct_def.fields@,
            names == field_names(fields),
            0 <= i <= fields.len(),
            fieldnames@.map_values(|s: String| s@) == names.take(i as int),
            fieldtypes@ == field_types(fields).take(i as int),
        decreases fields.len() - i,
    {
        let ghost prev_names = fieldnames@;
        fieldnames.push(struct_def.fields[i].0.clone());
        fieldtypes.push(struct_def.fields[i].1.nt);
        assert(fieldnames@.map_values(|s: String| s@) =~= prev_names.map_values(|s: String| s@).push(fields[i as int].0@));
        assert(names.take(i + 1) =~= names.take(i as int).push(names[i as int]));
        assert(field_types(fields).take(i + 1) =~= field_types(fields).take(i as int).push(fields[i as int].1.nt));
        i = i + 1;
    }
    assert(names.take(fields.len() as int) =~= names);
    assert(field_types(fields).take(fields.len() as int) =~= field_types(fields));
    let mut func = BuiltinFunc::new(FuncTypeSignature::new(fieldtypes, Option::Some(Numtype::I64)), fieldnames);
    proof {
        assert(func.param_names() =~= names);
        assert forall|j: int| 0 <= j < func.param_names().len() implies func.param_names()[j] != "<offset>"@ by {
            if func.param_names()[j] == "<offset>"@ {
                assert(names.contains("<offset>"@));
            }
        }
        lemma_no_var(func, "<offset>"@);
    }
    func.add_local("<offset>", Numtype::I32);
    proof {
        assert forall|j: int| 0 <= j < func.param_names().len() implies func.param_names()[j] != "<size>"@ by {
            if func.param_names()[j] == "<size>"@ {
                assert(names.contains("<size>"@));
            }
        }
        assert(func.local_names() =~= seq!["<offset>"@]);
        assert("<offset>"@ != "<size>"@) by {
            reveal_strlit("<offset>");
            reveal_strlit("<size>");
            assert("<offset>"@.len() == 8 && "<size>"@.len() == 6);
        }
        lemma_no_var(func, "<size>"@);
    }
    func.add_local("<size>", Numtype::I32);
    proof {
        assert(func.local_names() =~= seq!["<offset>"@, "<size>"@]);
        assert(func.local_names()[0] == "<offset>"@);
        assert(func.local_names()[1] == "<size>"@);
        lemma_has_var(func, "<offset>"@);
        lemma_has_var(func, "<size>"@);
    }
    let ghost base = func;
    func.write_opcode(Opcode::I32Const);
    let size_bytes = i32_const_imm(struct_def.size);
    func.write_slice(size_bytes.as_slice());
    func.write_opcode(Opcode::LocalTee);
    func.write_var("<size>");
    func.write_opcode(Opcode::Call);
    let alloc_bytes = unsigned_leb128(alloc_fn_idx);
    func.write_slice(alloc_bytes.as_slice());
    func.write_opcode(Opcode::LocalSet);
    func.write_var("<offset>");
    let ghost head = func.code();
    assert(head =~= op(Opcode::I32Const) + const_imm(struct_def.size) + op(Opcode::LocalTee) + struct_var(names, "<size>"@)
        + op(Opcode::Call) + imm(alloc_fn_idx) + op(Opcode::LocalSet) + struct_var(names, "<offset>"@));
    let mut i: usize = 0;
    while i < struct_def.fields.len()
        invariant
            fields == struct_def.fields@,
            names == field_names(fields),
            forall|k: int| 0 <= k < fields.len() ==> (#[trigger] fields[k]).1.nt != Numtype::Void,
            0 <= i <= fields.len(),
            func.wf(),
            func.param_names() == names,
            func.local_names() == seq!["<offset>"@, "<size>"@],
            func.sig_args() == field_types(fields),
            func.sig_ret() == Option::Some(Numtype::I64),
            func.spec_local_types() == seq![Numtype::I32, Numtype::I32],
            func.has_var("<offset>"@),
            func.has_var("<size>"@),
            func.code() == head + spec_field_stores(names, fields.take(i as int)),
        decreases fields.len() - i,
    {
        let ghost before = func.code();
        proof {
            assert(func.param_names()[i as int] == fields[i as int].0@);
            lemma_has_var(func, fields[i as int].0@);
        }
        func.write_opcode(Opcode::LocalGet);
        func.write_var("<offset>");
        func.write_opcode(Opcode::I32Const);
        let offset_bytes = i32_const_imm(struct_def.fields[i].1.offset);
        func.write_slice(offset_bytes.as_slice());
        func.write_opcode(Opcode::I32Add);
        func.write_opcode(Opcode::LocalGet);
        func.write_var(struct_def.fields[i].0.as_str());
        func.write_opcode(struct_def.fields[i].1.nt.store_op());
        func.write_byte(0x02);
        func.write_byte(0x00);
        proof {
            assert(fields.take(i + 1).drop_last() =~= fields.take(i as int));
            assert(func.code() =~= before + spec_field_store(names, fields[i as int]));
        }
        i = i + 1;
    }
    assert(fields.take(fields.len() as int) =~= fields);
    func.create_fatptr("<offset>", "<size>");
    func.write_opcode(Opcode::End);
    assert(func.code() =~= spec_struct_constructor_code(fields, struct_def.size, alloc_fn_idx));
    func
}


/// The character of a decimal digit.
pub open spec fn digit_char(d: nat) -> char {
    if d == 0 {
        '0'
    } else if d == 1 {
        '1'
    } else if d == 2 {
        '2'
    } else if d == 3 {
        '3'
    } else if d == 4 {
        '4'
    } else if d == 5 {
        '5'
    } else if d == 6 {
        '6'
    } else if d == 7 {
        '7'
    } else if d == 8 {
        '8'
    } else {
        '9'
    }
}

/// The decimal digits of a number, most significant first, as `format!`
/// writes them.
pub open spec fn spec_decimal(n: nat) -> Seq<char>
    decreases n,
{
    if n < 10 {
        seq![digit_char(n)]
    } else {
        spec_decimal(n / 10).push(digit_char(n % 10))
    }
}

/// Every number has at least one digit.
proof fn lemma_decimal_len(n: nat)
    ensures
        spec_decimal(n).len() >= 1,
    decreases n,
{
    if n >= 10 {
        lemma_decimal_len(n / 10);
    }
}

/// The digit of a number below ten is the character of its code.
proof fn lemma_digit_char(d: nat)
    requires
        d < 10,
    ensures
        digit_char(d) as u32 == 48 + d,
{
    if d == 0 {
    } else if d == 1 {
    } else if d == 2 {
    } else if d == 3 {
    } else if d == 4 {
    } else if d == 5 {
    } else if d == 6 {
    } else if d == 7 {
    } else if d == 8 {
    } else {
    }
}

/// Different numbers have different decimal digits.
proof fn lemma_decimal_injective(a: nat, b: nat)
    requires
        spec_decimal(a) == spec_decimal(b),
    ensures
        a == b,
    decreases a,
{
    if a < 10 && b < 10 {
        assert(spec_decimal(a) == seq![digit_char(a)]);
        assert(spec_decimal(b) == seq![digit_char(b)]);
        assert(seq![digit_char(a)][0] == seq![digit_char(b)][0]);
        assert(digit_char(a) == digit_char(b));
        lemma_digit_char(a);
        lemma_digit_char(b);
    } else if a < 10 {
        lemma_decimal_len(b / 10);
        assert(spec_decimal(b).len() == spec_decimal(b / 10).len() + 1);
        assert(spec_decimal(a).len() == 1);
    } else if b < 10 {
        lemma_decimal_len(a / 10);
        assert(spec_decimal(a).len() == spec_decimal(a / 10).len() + 1);
        assert(spec_decimal(b).len() == 1);
    } else {
        let da = spec_decimal(a);
        let db = spec_decimal(b);
        assert(da.last() == db.last());
        assert(digit_char(a % 10) == digit_char(b % 10));
        lemma_digit_char(a % 10);
        lemma_digit_char(b % 10);
        assert(a % 10 == b % 10);
        assert(da.drop_last() =~= spec_decimal(a / 10));
        assert(db.drop_last() =~= spec_decimal(b / 10));
        lemma_decimal_injective(a / 10, b / 10);
        assert(a == 10 * (a / 10) + a % 10);
        assert(b == 10 * (b / 10) + b % 10);
    }
}

/// The offset locals of different inner iterators have different names,
/// and none of them is named `offset`, `current` or `done`.
proof fn lemma_inner_offset_names(i: nat, j: nat)
    ensures
        i != j ==> inner_offset_name(i as int) != inner_offset_name(j as int),
        inner_offset_name(i as int) != "offset"@,
        inner_offset_name(i as int) != "current"@,
        inner_offset_name(i as int) != "done"@,
{
    reveal_strlit("inner_");
    reveal_strlit("_offset");
    reveal_strlit("offset");
    reveal_strlit("current");
    reveal_strlit("done");
    let a = inner_offset_name(i as int);
    assert(a[0] == 'i');
    assert("offset"@[0] == 'o');
    assert("current"@[0] == 'c');
    assert("done"@[0] == 'd');
    if i != j && a == inner_offset_name(j as int) {
        let b = inner_offset_name(j as int);
        let di = spec_decimal(i);
        let dj = spec_decimal(j);
        assert(a.len() == 6 + di.len() + 7);
        assert(b.len() == 6 + dj.len() + 7);
        assert(di =~= a.subrange(6, 6 + di.len() as int));
        assert(dj =~= b.subrange(6, 6 + dj.len() as int));
        lemma_decimal_injective(i, j);
    }
}

pub(crate) fn digit(d: usize) -> (c: char)
    requires
        d < 10,
    ensures
        c == digit_char(d as nat),
{
    match d {
        0 => '0',
        1 => '1',
        2 => '2',
        3 => '3',
        4 => '4',
        5 => '5',
        6 => '6',
        7 => '7',
        8 => '8',
        _ => '9',
    }
}

/// Appends the decimal digits of `n`.
pub(crate) fn push_decimal(s: &mut String, n: usize)
    ensures
        final(s)@ == old(s)@ + spec_decimal(n as nat),
    decreases n,
{
    if n >= 10 {
        push_decimal(s, n / 10);
    }
    string_push(s, digit(n % 10));
    proof {
        if n < 10 {
            assert(n % 10 == n);
        }
    }
    assert(s@ =~= old(s)@ + spec_decimal(n as nat));
}

/// A name made of a prefix, a number in decimal, and a suffix.
pub(crate) fn indexed_name(prefix: &str, i: usize, suffix: &str) -> (s: String)
    ensures
        s@ == prefix@ + spec_decimal(i as nat) + suffix@,
{
    let mut s = String::from_str(prefix);
    push_decimal(&mut s, i);
    s.append(suffix);
    s
}

/// `n` times the type `I32`.
pub open spec fn i32_types(n: nat) -> Seq<Numtype> {
    Seq::new(n, |i: int| Numtype::I32)
}

/// The local holding the offset of the `i`th inner iterator of a zip.
pub open spec fn inner_offset_name(i: int) -> Seq<char> {
    "inner_"@ + spec_decimal(i as nat) + "_offset"@
}

/// The locals of a zip iterator's advance function over `n` iterators.
pub open spec fn zip_locals(n: nat) -> Seq<Seq<char>> {
    Seq::new(n, |i: int| inner_offset_name(i)) + seq!["current"@, "done"@]
}

/// The index bytes of a variable of a zip iterator's advance function.
pub open spec fn zip_var(n: nat, name: Seq<char>) -> Seq<u8> {
    spec_uleb128((spec_var_index(seq!["offset"@], zip_locals(n), name)->0 as u32) as nat)
}

/// The code that advances the `i`th inner iterator of a zip and notes
/// whether it is done.
pub open spec fn zip_advance_part(
    n: nat,
    iter_over_types: Seq<Numtype>,
    inner_offset_deltas: Seq<u32>,
    advance_fn_type_idx: u32,
    i: int,
) -> Seq<u8> {
    spec_iter_call_advance_on_inner(
        zip_var(n, "offset"@),
        zip_var(n, inner_offset_name(i)),
        inner_offset_deltas[i],
        iter_over_types[i],
        advance_fn_type_idx,
    ) + op(Opcode::LocalGet) + zip_var(n, "done"@) + op(Opcode::I32Or) + op(Opcode::LocalSet) + zip_var(
        n,
        "done"@,
    )
}

/// The code that loads the current value of the `i`th inner iterator of a
/// zip.
pub open spec fn zip_load_part(iter_over_types: Seq<Numtype>, i: int) -> Seq<u8> {
    op(Opcode::LocalGet) + zip_var(iter_over_types.len(), inner_offset_name(i)) + op(
        iter_over_types[i].spec_load_op(),
    ) + memarg()
}

/// Code of `define_builtin_zipmap_iter_advance`: advance every inner
/// iterator and note whether any is done; if none is, load each inner
/// value, map them, and store the result as the current value.
pub open spec fn spec_zipmap_iter_advance_code(
    iter_over_types: Seq<Numtype>,
    out_type: Numtype,
    inner_offset_deltas: Seq<u32>,
    map_fn_delta: u32,
    advance_fn_type_idx: u32,
    map_fn_type_idx: u32,
) -> Seq<u8> {
    let n = iter_over_types.len();
    let k = if inner_offset_deltas.len() < n { inner_offset_deltas.len() } else { n };
    concat_chunks(
        Seq::new(k, |i: int| zip_advance_part(n, iter_over_types, inner_offset_deltas, advance_fn_type_idx, i)),
    ) + op(Opcode::LocalGet) + zip_var(n, "done"@) + op(Opcode::If) + seq![Numtype::I32.spec_byte()] + op(
        Opcode::I32Const,
    ) + seq![1u8] + op(Opcode::Else) + concat_chunks(Seq::new(n, |i: int| zip_load_part(iter_over_types, i)))
        + spec_iter_call_map_fn(zip_var(n, "offset"@), map_fn_delta, map_fn_type_idx) + op(Opcode::LocalSet)
        + zip_var(n, "current"@) + op(Opcode::LocalGet) + zip_var(n, "offset"@) + op(Opcode::LocalGet) + zip_var(
        n,
        "current"@,
    ) + op(out_type.spec_store_op()) + memarg() + op(Opcode::I32Const) + seq![0u8] + op(Opcode::End) + op(
        Opcode::End,
    )
}

/// Advances a zip iterator: advances each inner iterator, and unless one of
/// them is done, maps their values together into the current value.
#[verifier::spinoff_prover]
#[verifier::rlimit(30)]
pub fn define_builtin_zipmap_iter_advance(
    iter_over_types: &[Numtype],
    out_type: Numtype,
    inner_offset_deltas: &[u32],
    map_fn_delta: u32,
    advance_fn_type_idx: u32,
    map_fn_type_idx: u32,
) -> (f: BuiltinFunc)
    requires
        iter_over_types@.len() + 3 < u32::MAX,
        out_type != Numtype::Void,
        forall|i: int| 0 <= i < iter_over_types@.len() ==> #[trigger] iter_over_types@[i] != Numtype::Void,
    ensures
        f.wf(),
        f.sig_args() == seq![Numtype::I32],
        f.sig_ret() == Option::Some(Numtype::I32),
        f.param_names() == seq!["offset"@],
        f.local_names() == zip_locals(iter_over_types@.len()),
        f.spec_local_types() == i32_types(iter_over_types@.len()) + seq![
            out_type,
            Numtype::I32,
        ],
        f.code() == spec_zipmap_iter_advance_code(
            iter_over_types@,
            out_type,
            inner_offset_deltas@,
            map_fn_delta,
            advance_fn_type_idx,
            map_fn_type_idx,
        ),
{
    let ghost n = iter_over_types@.len();
    let mut func = BuiltinFunc::advance_fn_template();
    let mut i: usize = 0;
    while i < iter_over_types.len()
        invariant
            n == iter_over_types@.len(),
            n + 3 < u32::MAX,
            0 <= i <= n,
            func.wf(),
            func.sig_args() == seq![Numtype::I32],
            func.sig_ret() == Option::Some(Numtype::I32),
            func.param_names() == seq!["offset"@],
            func.local_names() == Seq::new(i as nat, |j: int| inner_offset_name(j)),
            func.spec_local_types() == i32_types(i as nat),
            func.code() == Seq::<u8>::empty(),
        decreases n - i,
    {
        let name = indexed_name("inner_", i, "_offset");
        proof {
            assert forall|j: int| 0 <= j < func.local_names().len() implies func.local_names()[j] != name@ by {
                lemma_inner_offset_names(j as nat, i as nat);
            }
            assert forall|j: int| 0 <= j < func.param_names().len() implies func.param_names()[j] != name@ by {
                lemma_inner_offset_names(i as nat, 0);
            }
            lemma_no_var(func, name@);
        }
        func.add_local(name.as_str(), Numtype::I32);
        assert(func.local_names() =~= Seq::new((i + 1) as nat, |j: int| inner_offset_name(j)));
        assert(func.spec_local_types() =~= i32_types((i + 1) as nat));
        i = i + 1;
    }
    proof {
        reveal_strlit("current");
        reveal_strlit("done");
        reveal_strlit("offset");
        assert("current"@[0] != "offset"@[0]);
        assert forall|j: int| 0 <= j < func.local_names().len() implies func.local_names()[j] != "current"@ by {
            lemma_inner_offset_names(j as nat, 0);
        }
        lemma_no_var(func, "current"@);
    }
    func.add_local("current", out_type);
    proof {
        assert("done"@[0] != "offset"@[0]);
        assert("done"@[0] != "current"@[0]);
        assert forall|j: int| 0 <= j < func.local_names().len() implies func.local_names()[j] != "done"@ by {
            if j < n {
                lemma_inner_offset_names(j as nat, 0);
            }
        }
        lemma_no_var(func, "done"@);
    }
    func.add_local("done", Numtype::I32);
    proof {
        assert(func.spec_local_types() =~= i32_types(n) + seq![out_type, Numtype::I32]);
        assert(func.local_names() =~= zip_locals(n));
        assert(func.local_names()[n as int] == "current"@);
        assert(func.local_names()[(n + 1) as int] == "done"@);
        assert(func.param_names()[0] == "offset"@);
        lemma_has_var(func, "current"@);
        lemma_has_var(func, "done"@);
        lemma_has_var(func, "offset"@);
    }
    let ghost k: nat = if inner_offset_deltas@.len() < n { inner_offset_deltas@.len() } else { n };
    let mut i: usize = 0;
    while i < iter_over_types.len() && i < inner_offset_deltas.len()
        invariant
            n == iter_over_types@.len(),
            k == if inner_offset_deltas@.len() < n { inner_offset_deltas@.len() } else { n },
            0 <= i <= k,
            func.wf(),
            func.sig_args() == seq![Numtype::I32],
            func.sig_ret() == Option::Some(Numtype::I32),
            func.param_names() == seq!["offset"@],
            func.local_names() == zip_locals(n),
            func.spec_local_types() == i32_types(n) + seq![out_type, Numtype::I32],
            func.has_var("current"@),
            func.has_var("done"@),
            func.has_var("offset"@),
            func.code() == concat_chunks(Seq::new(i as nat, |j: int| zip_advance_part(n, iter_over_types@, inner_offset_deltas@, advance_fn_type_idx, j))),
        decreases k - i,
    {
        let ghost before = func.code();
        let name = indexed_name("inner_", i, "_offset");
        proof {
            assert(func.local_names()[i as int] == inner_offset_name(i as int));
            lemma_has_var(func, name@);
        }
        func.iter_call_advance_on_inner(
            "offset",
            name.as_str(),
            inner_offset_deltas[i],
            iter_over_types[i],
            advance_fn_type_idx,
        );
        func.write_opcode(Opcode::LocalGet);
        func.write_var("done");
        func.write_opcode(Opcode::I32Or);
        func.write_opcode(Opcode::LocalSet);
        func.write_var("done");
        proof {
            assert(Seq::new((i + 1) as nat, |j: int| zip_advance_part(n, iter_over_types@, inner_offset_deltas@, advance_fn_type_idx, j)).drop_last() =~= Seq::new(i as nat, |j: int| zip_advance_part(n, iter_over_types@, inner_offset_deltas@, advance_fn_type_idx, j)));
            assert(func.code() =~= before + zip_advance_part(n, iter_over_types@, inner_offset_deltas@, advance_fn_type_idx, i as int));
        }
        i = i + 1;
    }
    assert(i == k);
    let ghost adv_code = func.code();
    func.write_opcode(Opcode::LocalGet);
    func.write_var("done");
    func.write_opcode(Opcode::If);
    func.write_byte(Numtype::I32.to_byte());
    func.write_opcode(Opcode::I32Const);
    func.write_byte(1);
    func.write_opcode(Opcode::Else);
    let ghost mid_code = func.code();
    let mut i: usize = 0;
    while i < iter_over_types.len()
        invariant
            n == iter_over_types@.len(),
            forall|j: int| 0 <= j < n ==> #[trigger] iter_over_types@[j] != Numtype::Void,
            0 <= i <= n,
            func.wf(),
            func.sig_args() == seq![Numtype::I32],
            func.sig_ret() == Option::Some(Numtype::I32),
            func.param_names() == seq!["offset"@],
            func.local_names() == zip_locals(n),
            func.spec_local_types() == i32_types(n) + seq![out_type, Numtype::I32],
            func.has_var("current"@),
            func.has_var("done"@),
            func.has_var("offset"@),
            func.code() == mid_code + concat_chunks(Seq::new(i as nat, |j: int| zip_load_part(iter_over_types@, j))),
        decreases n - i,
    {
        let ghost before = func.code();
        let name = indexed_name("inner_", i, "_offset");
        proof {
            assert(func.local_names()[i as int] == inner_offset_name(i as int));
            lemma_has_var(func, name@);
        }
        func.write_opcode(Opcode::LocalGet);
        func.write_var(name.as_str());
        func.write_opcode(iter_over_types[i].load_op());
        func.write_byte(0x02);
        func.write_byte(0x00);
        proof {
            assert(Seq::new((i + 1) as nat, |j: int| zip_load_part(iter_over_types@, j)).drop_last() =~= Seq::new(i as nat, |j: int| zip_load_part(iter_over_types@, j)));
            assert(func.code() =~= before + zip_load_part(iter_over_types@, i as int));
        }
        i = i + 1;
    }
    func.iter_call_map_fn("offset", map_fn_delta, map_fn_type_idx);
    func.write_opcode(Opcode::LocalSet);
    func.write_var("current");
    func.write_opcode(Opcode::LocalGet);
    func.write_var("offset");
    func.write_opcode(Opcode::LocalGet);
    func.write_var("current");
    func.write_opcode(out_type.store_op());
    func.write_byte(0x02);
    func.write_byte(0x00);
    func.write_opcode(Opcode::I32Const);
    func.write_byte(0);
    func.write_opcode(Opcode::End);
    func.write_opcode(Opcode::End);
    assert(func.code() == spec_zipmap_iter_advance_code(
        iter_over_types@,
        out_type,
        inner_offset_deltas@,
        map_fn_delta,
        advance_fn_type_idx,
        map_fn_type_idx,
    ));
    func
}


/// The parameter holding the `i`th iterator given to a zip's factory.
pub open spec fn iter_over_name(i: int) -> Seq<char> {
    "iter_over_"@ + spec_decimal(i as nat) + ""@
}

/// The parameters of a zip iterator's factory over `n` iterators.
pub open spec fn zip_factory_params(n: nat) -> Seq<Seq<char>> {
    seq!["map_fn"@] + Seq::new(n, |i: int| iter_over_name(i))
}

/// The argument types of a zip iterator's factory over `n` iterators.
pub open spec fn zip_factory_args(n: nat) -> Seq<Numtype> {
    seq![Numtype::I32] + Seq::new(n, |i: int| Numtype::I64)
}

/// The index bytes of a parameter of a zip iterator's factory.
pub open spec fn zip_factory_var(n: nat, name: Seq<char>) -> Seq<u8> {
    spec_uleb128((spec_var_index(zip_factory_params(n), Seq::empty(), name)->0 as u32) as nat)
}

/// The code that passes the offset of the `i`th iterator to the constructor.
pub open spec fn zip_factory_part(n: nat, i: int) -> Seq<u8> {
    op(Opcode::LocalGet) + zip_factory_var(n, iter_over_name(i)) + op(Opcode::I64Const) + seq![0x20u8] + op(
        Opcode::I64ShrU,
    ) + op(Opcode::I32WrapI64)
}

/// Code of `define_builtin_zipmap_iter_factory`.
pub open spec fn spec_zipmap_iter_factory_code(
    n: nat,
    out_type: Numtype,
    advance_fn_table_idx: u32,
    constructor_idx: u32,
) -> Seq<u8> {
    op(out_type.spec_const_op()) + spec_zero_const(out_type) + op(Opcode::I32Const) + const_imm(advance_fn_table_idx)
        + op(Opcode::LocalGet) + zip_factory_var(n, "map_fn"@) + concat_chunks(
        Seq::new(n, |i: int| zip_factory_part(n, i)),
    ) + op(Opcode::Call) + imm(constructor_idx) + op(Opcode::End)
}

/// Builds a zip iterator over the iterators `iter_over_0`, `iter_over_1`,
/// ... that maps their values with `map_fn`.
#[verifier::spinoff_prover]
#[verifier::rlimit(30)]
pub fn define_builtin_zipmap_iter_factory(
    iter_over_types: &[Numtype],
    out_type: Numtype,
    advance_fn_table_idx: u32,
    constructor_idx: u32,
) -> (f: BuiltinFunc)
    requires
        iter_over_types@.len() + 1 < u32::MAX,
        out_type != Numtype::Void,
    ensures
        f.wf(),
        f.sig_args() == zip_factory_args(iter_over_types@.len()),
        f.sig_ret() == Option::Some(Numtype::I64),
        f.param_names() == zip_factory_params(iter_over_types@.len()),
        f.local_names() == Seq::<Seq<char>>::empty(),
        f.spec_local_types() == Seq::<Numtype>::empty(),
        f.code() == spec_zipmap_iter_factory_code(
            iter_over_types@.len(),
            out_type,
            advance_fn_table_idx,
            constructor_idx,
        ),
{
    let ghost n = iter_over_types@.len();
    let mut argtypes: Vec<Numtype> = Vec::new();
    argtypes.push(Numtype::I32);
    let mut param_names: Vec<String> = Vec::new();
    param_names.push(String::from_str("map_fn"));
    let mut i: usize = 0;
    while i < iter_over_types.len()
        invariant
            n == iter_over_types@.len(),
            0 <= i <= n,
            argtypes@ == zip_factory_args(i as nat),
            param_names@.map_values(|s: String| s@) == zip_factory_params(i as nat),
        decreases n - i,
    {
        let ghost prev = param_names@;
        argtypes.push(Numtype::I64);
        let name = indexed_name("iter_over_", i, "");
        param_names.push(name);
        assert(argtypes@ =~= zip_factory_args((i + 1) as nat));
        assert(param_names@.map_values(|s: String| s@) =~= prev.map_values(|s: String| s@).push(name@));
        assert(param_names@.map_values(|s: String| s@) =~= zip_factory_params((i + 1) as nat));
        i = i + 1;
    }
    let mut func = BuiltinFunc::new(FuncTypeSignature::new(argtypes, Option::Some(Numtype::I64)), param_names);
    proof {
        assert(func.param_names()[0] == "map_fn"@);
        lemma_has_var(func, "map_fn"@);
    }
    func.write_opcode(out_type.const_op());
    func.write_zero_const(out_type);
    func.write_opcode(Opcode::I32Const);
    let table_idx = i32_const_imm(advance_fn_table_idx);
    func.write_slice(table_idx.as_slice());
    func.write_opcode(Opcode::LocalGet);
    func.write_var("map_fn");
    let ghost head = func.code();
    assert(head =~= op(out_type.spec_const_op()) + spec_zero_const(out_type) + op(Opcode::I32Const) + const_imm(
        advance_fn_table_idx,
    ) + op(Opcode::LocalGet) + zip_factory_var(n, "map_fn"@));
    let mut i: usize = 0;
    while i < iter_over_types.len()
        invariant
            n == iter_over_types@.len(),
            0 <= i <= n,
            func.wf(),
            func.sig_args() == zip_factory_args(n),
            func.sig_ret() == Option::Some(Numtype::I64),
            func.param_names() == zip_factory_params(n),
            func.local_names() == Seq::<Seq<char>>::empty(),
            func.spec_local_types() == Seq::<Numtype>::empty(),
            func.code() == head + concat_chunks(Seq::new(i as nat, |j: int| zip_factory_part(n, j))),
        decreases n - i,
    {
        let ghost before = func.code();
        let name = indexed_name("iter_over_", i, "");
        proof {
            assert(func.param_names()[i + 1] == iter_over_name(i as int));
            lemma_has_var(func, name@);
        }
        func.write_opcode(Opcode::LocalGet);
        func.write_var(name.as_str());
        func.write_opcode(Opcode::I64Const);
        func.write_byte(0x20);
        func.write_opcode(Opcode::I64ShrU);
        func.write_opcode(Opcode::I32WrapI64);
        proof {
            assert(Seq::new((i + 1) as nat, |j: int| zip_factory_part(n, j)).drop_last() =~= Seq::new(
                i as nat,
                |j: int| zip_factory_part(n, j),
            ));
            assert(func.code() =~= before + zip_factory_part(n, i as int));
        }
        i = i + 1;
    }
    func.write_opcode(Opcode::Call);
    let ctor = unsigned_leb128(constructor_idx);
    func.write_slice(ctor.as_slice());
    func.write_opcode(Opcode::End);
    assert(func.code() == spec_zipmap_iter_factory_code(n, out_type, advance_fn_table_idx, constructor_idx));
    func
}


/// The remainder of `x` divided by `y` that takes the sign of `x`, as
/// `i32.rem_s` gives it.
pub open spec fn trunc_rem(x: int, y: int) -> int {
    let ay = if y < 0 { -y } else { y };
    if x >= 0 {
        x % ay
    } else {
        -((-x) % ay)
    }
}

/// What the code of `define_builtin_mod` computes, step by step: the
/// truncated remainder, moved up by `|y|` when negative.
pub open spec fn spec_mod_steps(x: int, y: int) -> int {
    let r = trunc_rem(x, y);
    if r < 0 {
        if y < 0 {
            r - y
        } else {
            r + y
        }
    } else {
        r
    }
}

/// The steps of `mod` give the Euclidean remainder of `x` by `y` (from zero up
/// to `|y|`), and on 32-bit operands no step leaves the 32-bit range.
pub proof fn law_mod_is_euclidean(x: i32, y: i32)
    requires
        y != 0,
    ensures
        ({
            let ay = if y < 0 { -(y as int) } else { y as int };
            let r = trunc_rem(x as int, y as int);
            &&& spec_mod_steps(x as int, y as int) == (x as int) % ay
            &&& 0 <= spec_mod_steps(x as int, y as int) < ay
            &&& i32::MIN <= r <= i32::MAX
            &&& r < 0 && y > 0 ==> i32::MIN <= r + y <= i32::MAX
            &&& r < 0 && y < 0 ==> i32::MIN <= r - y <= i32::MAX
        }),
{
    let ay: int = if y < 0 { -(y as int) } else { y as int };
    let xi = x as int;
    assert(0 < ay <= 0x8000_0000);
    if xi >= 0 {
        assert(0 <= xi % ay < ay);
        assert(trunc_rem(xi, y as int) == xi % ay);
    } else {
        let m = (-xi) % ay;
        let q = (-xi) / ay;
        assert(-xi == q * ay + m && 0 <= m < ay) by {
            vstd::arithmetic::div_mod::lemma_fundamental_div_mod(-xi, ay);
        }
        if m == 0 {
            assert(xi == (-q) * ay + 0) by (nonlinear_arith)
                requires
                    -xi == q * ay + m,
                    m == 0,
            ;
            vstd::arithmetic::div_mod::lemma_mod_multiples_vanish(-q, 0, ay);
            assert(xi % ay == 0) by {
                vstd::arithmetic::div_mod::lemma_mod_multiples_basic(-q, ay);
            }
        } else {
            assert(xi == (-q - 1) * ay + (ay - m)) by (nonlinear_arith)
                requires
                    -xi == q * ay + m,
            ;
            assert(xi % ay == ay - m) by {
                vstd::arithmetic::div_mod::lemma_mod_multiples_vanish(-q - 1, ay - m, ay);
                vstd::arithmetic::div_mod::lemma_small_mod((ay - m) as nat, ay as nat);
            }
        }
        assert(trunc_rem(xi, y as int) == -m);
    }
}

} // verus!
