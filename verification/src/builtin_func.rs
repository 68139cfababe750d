use vstd::prelude::*;

use crate::token::str_eq;
use crate::wasmtypes::{numtype_bytes, spec_uleb128, unsigned_leb128, const_imm, i32_const_imm, memcopy, spec_memcopy, signed_leb128, FuncTypeSignature, Numtype, Opcode};
use vstd::string::StringExecFns;

verus! {

/// A named parameter or local variable of a builtin function.
pub struct LocalVar {
    pub name: String,
    pub numtype: Numtype,
}

/// A function written directly in WebAssembly: its signature, its named
/// parameters and locals, and its code.
pub struct BuiltinFunc {
    signature: FuncTypeSignature,
    params: Vec<LocalVar>,
    locals: Vec<LocalVar>,
    bytes: Vec<u8>,
}

/// The names of a list of variables.
pub open spec fn var_names(vs: Seq<LocalVar>) -> Seq<Seq<char>> {
    vs.map_values(|v: LocalVar| v.name@)
}

/// The types of a list of variables.
pub open spec fn var_types(vs: Seq<LocalVar>) -> Seq<Numtype> {
    vs.map_values(|v: LocalVar| v.numtype)
}

/// The index of a variable: the first parameter with the name, else the
/// first local with it, locals being numbered after the parameters.
#[verifier::opaque]
pub open spec fn spec_var_index(params: Seq<Seq<char>>, locals: Seq<Seq<char>>, name: Seq<char>) -> Option<int> {
    match params.index_of_first(name) {
        Option::Some(i) => Option::Some(i),
        Option::None => match locals.index_of_first(name) {
            Option::Some(j) => Option::Some(params.len() + j),
            Option::None => Option::None,
        },
    }
}

/// One instruction byte.
pub open spec fn op(o: Opcode) -> Seq<u8> {
    seq![o.spec_byte()]
}

/// The alignment and offset immediates of a 4-byte-aligned memory access.
pub open spec fn memarg() -> Seq<u8> {
    seq![0x02u8, 0x00u8]
}

/// An unsigned LEB128 immediate.
pub open spec fn imm(v: u32) -> Seq<u8> {
    spec_uleb128(v as nat)
}

/// Finds the first index of a name in a list of variables.
fn find_var(vars: &Vec<LocalVar>, name: &str) -> (r: Option<usize>)
    ensures
        match var_names(vars@).index_of_first(name@) {
            Option::Some(i) => r == Option::Some(i as usize),
            Option::None => r is None,
        },
{
    let ghost names = var_names(vars@);
    let mut i: usize = 0;
    while i < vars.len()
        invariant
            0 <= i <= vars@.len(),
            names == var_names(vars@),
            forall|j: int| 0 <= j < i ==> names[j] != name@,
        decreases vars@.len() - i,
    {
        if str_eq(vars[i].name.as_str(), name) {
            proof {
                names.index_of_first_ensures(name@);
                assert(names[i as int] == name@);
                assert(names.contains(name@));
                let k = names.index_of_first(name@)->0;
                if k < i {
                    assert(names[k] != name@);
                }
            }
            return Option::Some(i);
        }
        i = i + 1;
    }
    proof {
        names.index_of_first_ensures(name@);
        if names.contains(name@) {
            let k = names.index_of_first(name@)->0;
            assert(names[k] != name@);
        }
    }
    Option::None
}

impl BuiltinFunc {
    /// Parameters match the signature, and there are fewer variables than
    /// an index can count.
    pub closed spec fn wf(&self) -> bool {
        &&& var_types(self.params@) == self.signature.args@
        &&& self.params@.len() + self.locals@.len() < u32::MAX
    }

    pub closed spec fn sig_args(&self) -> Seq<Numtype> {
        self.signature.args@
    }

    pub closed spec fn sig_ret(&self) -> Option<Numtype> {
        self.signature.ret
    }

    pub closed spec fn param_names(&self) -> Seq<Seq<char>> {
        var_names(self.params@)
    }

    pub closed spec fn local_names(&self) -> Seq<Seq<char>> {
        var_names(self.locals@)
    }

    pub closed spec fn spec_local_types(&self) -> Seq<Numtype> {
        var_types(self.locals@)
    }

    pub closed spec fn code(&self) -> Seq<u8> {
        self.bytes@
    }

    /// The index of a named variable of this function.
    pub open spec fn var_index(&self, name: Seq<char>) -> Option<int> {
        spec_var_index(self.param_names(), self.local_names(), name)
    }

    pub open spec fn has_var(&self, name: Seq<char>) -> bool {
        self.var_index(name) is Some
    }

    /// The code that names a variable.
    pub open spec fn var(&self, name: Seq<char>) -> Seq<u8> {
        spec_uleb128((self.var_index(name)->0 as u32) as nat)
    }

    /// What every emitting method keeps: signature, variables, and the code
    /// written so far.
    pub open spec fn extends(&self, next: &BuiltinFunc, added: Seq<u8>) -> bool {
        &&& next.wf()
        &&& next.sig_args() == self.sig_args()
        &&& next.sig_ret() == self.sig_ret()
        &&& next.param_names() == self.param_names()
        &&& next.local_names() == self.local_names()
        &&& next.spec_local_types() == self.spec_local_types()
        &&& next.code() == self.code() + added
    }

    pub fn new(signature: FuncTypeSignature, param_names: Vec<String>) -> (f: BuiltinFunc)
        requires
            param_names@.len() == signature.args@.len(),
            param_names@.len() < u32::MAX,
        ensures
            f.wf(),
            f.sig_args() == signature.args@,
            f.sig_ret() == signature.ret,
            f.param_names() == param_names@.map_values(|s: String| s@),
            f.local_names() == Seq::<Seq<char>>::empty(),
            f.spec_local_types() == Seq::<Numtype>::empty(),
            f.code() == Seq::<u8>::empty(),
    {
        let mut params: Vec<LocalVar> = Vec::new();
        let mut i: usize = 0;
        while i < param_names.len()
            invariant
                0 <= i <= param_names@.len(),
                param_names@.len() == signature.args@.len(),
                var_types(params@) == signature.args@.take(i as int),
                var_names(params@) == param_names@.take(i as int).map_values(|s: String| s@),
            decreases param_names@.len() - i,
        {
            let ghost prev = params@;
            let v = LocalVar { name: param_names[i].clone(), numtype: signature.args[i] };
            params.push(v);
            assert(params@ == prev.push(v));
            assert(var_types(params@) =~= var_types(prev).push(v.numtype));
            assert(var_names(params@) =~= var_names(prev).push(v.name@));
            assert(signature.args@.take(i + 1) =~= signature.args@.take(i as int).push(signature.args@[i as int]));
            assert(param_names@.take(i + 1).map_values(|s: String| s@) =~= param_names@.take(i as int).map_values(|s: String| s@).push(param_names@[i as int]@));
            assert(var_types(params@) =~= signature.args@.take(i + 1));
            assert(var_names(params@) =~= param_names@.take(i + 1).map_values(|s: String| s@));
            i = i + 1;
        }
        assert(signature.args@.take(i as int) =~= signature.args@);
        assert(param_names@.take(i as int) =~= param_names@);
        BuiltinFunc { signature, params, locals: Vec::new(), bytes: Vec::new() }
    }

    /// The index of a named variable, as the bytes that name it in code.
    pub fn get_var_idx(&self, name: &str) -> (r: Option<Vec<u8>>)
        requires
            self.wf(),
        ensures
            match self.var_index(name@) {
                Option::Some(i) => r is Some && r->0@ == spec_uleb128((i as u32) as nat),
                Option::None => r is None,
            },
    {
        proof {
            reveal(spec_var_index);
            self.param_names().index_of_first_ensures(name@);
            self.local_names().index_of_first_ensures(name@);
        }
        match find_var(&self.params, name) {
            Option::Some(i) => {
                return Option::Some(unsigned_leb128(i as u32));
            },
            Option::None => {},
        }
        match find_var(&self.locals, name) {
            Option::Some(i) => {
                proof {
                    self.local_names().index_of_first_ensures(name@);
                }
                Option::Some(unsigned_leb128((i + self.params.len()) as u32))
            },
            Option::None => Option::None,
        }
    }

    /// Declares a new local variable, whose name no variable has yet.
    pub fn add_local(&mut self, name: &str, numtype: Numtype)
        requires
            old(self).wf(),
            !old(self).has_var(name@),
            old(self).param_names().len() + old(self).local_names().len() + 1 < u32::MAX,
        ensures
            final(self).wf(),
            final(self).sig_args() == old(self).sig_args(),
            final(self).sig_ret() == old(self).sig_ret(),
            final(self).param_names() == old(self).param_names(),
            final(self).local_names() == old(self).local_names().push(name@),
            final(self).spec_local_types() == old(self).spec_local_types().push(numtype),
            final(self).code() == old(self).code(),
    {
        let name = String::from_str(name);
        self.locals.push(LocalVar { name, numtype });
        assert(var_names(self.locals@) =~= var_names(old(self).locals@).push(name@));
        assert(var_types(self.locals@) =~= var_types(old(self).locals@).push(numtype));
    }

    pub fn write_opcode(&mut self, opcode: Opcode)
        requires
            old(self).wf(),
        ensures
            old(self).extends(final(self), op(opcode)),
    {
        self.bytes.push(opcode.to_byte());
        assert(self.bytes@ =~= old(self).bytes@ + op(opcode));
    }

    pub fn write_byte(&mut self, byte: u8)
        requires
            old(self).wf(),
        ensures
            old(self).extends(final(self), seq![byte]),
    {
        self.bytes.push(byte);
        assert(self.bytes@ =~= old(self).bytes@ + seq![byte]);
    }

    pub fn write_slice(&mut self, bytes: &[u8])
        requires
            old(self).wf(),
        ensures
            old(self).extends(final(self), bytes@),
    {
        let mut i: usize = 0;
        while i < bytes.len()
            invariant
                0 <= i <= bytes@.len(),
                old(self).extends(self, bytes@.take(i as int)),
            decreases bytes@.len() - i,
        {
            self.bytes.push(bytes[i]);
            assert(bytes@.take(i + 1) =~= bytes@.take(i as int).push(bytes@[i as int]));
            assert(self.bytes@ =~= old(self).bytes@ + bytes@.take(i + 1));
            i = i + 1;
        }
        assert(bytes@.take(bytes@.len() as int) =~= bytes@);
    }

    /// Writes the index of a variable, which must exist.
    pub fn write_var(&mut self, name: &str)
        requires
            old(self).wf(),
            old(self).has_var(name@),
        ensures
            old(self).extends(final(self), old(self).var(name@)),
    {
        let idx = self.get_var_idx(name).unwrap();
        self.write_slice(idx.as_slice());
    }

    pub fn get_signature(&self) -> (s: &FuncTypeSignature)
        ensures
            s.args@ == self.sig_args(),
            s.ret == self.sig_ret(),
    {
        &self.signature
    }

    pub fn get_bytes(&self) -> (b: &[u8])
        ensures
            b@ == self.code(),
    {
        self.bytes.as_slice()
    }

    /// The encodings of the types of the locals.
    pub fn get_local_types(&self) -> (t: Vec<u8>)
        ensures
            t@ == numtype_bytes(self.spec_local_types()),
    {
        let mut t: Vec<u8> = Vec::new();
        let mut i: usize = 0;
        while i < self.locals.len()
            invariant
                0 <= i <= self.locals@.len(),
                t@ == numtype_bytes(var_types(self.locals@).take(i as int)),
            decreases self.locals@.len() - i,
        {
            t.push(self.locals[i].numtype.to_byte());
            assert(numtype_bytes(var_types(self.locals@).take(i + 1)) =~= numtype_bytes(
                var_types(self.locals@).take(i as int),
            ).push(self.locals@[i as int].numtype.spec_byte()));
            i = i + 1;
        }
        assert(var_types(self.locals@).take(self.locals@.len() as int) =~= var_types(self.locals@));
        t
    }

    /// Writes the immediate of a zero constant of the given type: four zero
    /// bytes for a float, a single zero byte for an integer.
    pub fn write_zero_const(&mut self, numtype: Numtype)
        requires
            old(self).wf(),
        ensures
            old(self).extends(final(self), spec_zero_const(numtype)),
    {
        match numtype {
            Numtype::F32 => {
                self.write_byte(0x00);
                self.write_byte(0x00);
                self.write_byte(0x00);
                self.write_byte(0x00);
            },
            _ => self.write_byte(0x00),
        }
        assert(self.code() =~= old(self).code() + spec_zero_const(numtype));
    }

    /// Aligns the memory pointer (global 0) up to a multiple of four:
    /// `memptr = 3 + memptr - (3 + memptr) % 4`.
    pub fn align_memptr(&mut self)
        requires
            old(self).wf(),
        ensures
            old(self).extends(final(self), spec_align_memptr()),
    {
        self.write_opcode(Opcode::GlobalGet);
        self.write_byte(0x00);
        self.write_opcode(Opcode::I32Const);
        self.write_byte(0x03);
        self.write_opcode(Opcode::I32Add);
        self.write_opcode(Opcode::GlobalGet);
        self.write_byte(0x00);
        self.write_opcode(Opcode::I32Const);
        self.write_byte(0x03);
        self.write_opcode(Opcode::I32Add);
        self.write_opcode(Opcode::I32Const);
        self.write_byte(0x04);
        self.write_opcode(Opcode::I32RemU);
        self.write_opcode(Opcode::I32Sub);
        self.write_opcode(Opcode::GlobalSet);
        self.write_byte(0x00);
        assert(self.code() =~= old(self).code() + spec_align_memptr());
    }

    /// Splits a fat pointer: `offset` gets its high 32 bits and `size` its
    /// low 32 bits.
    pub fn set_offset_and_size(&mut self, fatptr_name: &str, offset_name: &str, size_name: &str)
        requires
            old(self).wf(),
            old(self).has_var(fatptr_name@),
            old(self).has_var(offset_name@),
            old(self).has_var(size_name@),
        ensures
            old(self).extends(
                final(self),
                spec_set_offset_and_size(old(self).var(fatptr_name@), old(self).var(offset_name@), old(self).var(size_name@)),
            ),
    {
        self.write_opcode(Opcode::LocalGet);
        self.write_var(fatptr_name);
        self.write_opcode(Opcode::I64Const);
        self.write_byte(0x20);
        self.write_opcode(Opcode::I64ShrU);
        self.write_opcode(Opcode::I32WrapI64);
        self.write_opcode(Opcode::LocalSet);
        self.write_var(offset_name);
        self.write_opcode(Opcode::LocalGet);
        self.write_var(fatptr_name);
        self.write_opcode(Opcode::I32WrapI64);
        self.write_opcode(Opcode::LocalSet);
        self.write_var(size_name);
        assert(self.code() =~= old(self).code() + spec_set_offset_and_size(
            old(self).var(fatptr_name@),
            old(self).var(offset_name@),
            old(self).var(size_name@),
        ));
    }

    /// Pushes the fat pointer `offset << 32 + size`.
    pub fn create_fatptr(&mut self, offset_name: &str, size_name: &str)
        requires
            old(self).wf(),
            old(self).has_var(offset_name@),
            old(self).has_var(size_name@),
        ensures
            old(self).extends(
                final(self),
                spec_create_fatptr(old(self).var(offset_name@), old(self).var(size_name@)),
            ),
    {
        self.write_opcode(Opcode::LocalGet);
        self.write_var(offset_name);
        self.write_opcode(Opcode::I64ExtendI32U);
        self.write_opcode(Opcode::I64Const);
        self.write_byte(0x20);
        self.write_opcode(Opcode::I64Shl);
        self.write_opcode(Opcode::LocalGet);
        self.write_var(size_name);
        self.write_opcode(Opcode::I64ExtendI32U);
        self.write_opcode(Opcode::I64Add);
        assert(self.code() =~= old(self).code() + spec_create_fatptr(
            old(self).var(offset_name@),
            old(self).var(size_name@),
        ));
    }

    /// Copies `size` bytes from `offset` to the memory pointer, points
    /// `offset` at the copy, and moves the memory pointer past it.
    pub fn copy_mem(&mut self, offset_name: &str, size_name: &str)
        requires
            old(self).wf(),
            old(self).has_var(offset_name@),
            old(self).has_var(size_name@),
        ensures
            old(self).extends(final(self), spec_copy_mem(old(self).var(offset_name@), old(self).var(size_name@))),
    {
        self.write_opcode(Opcode::GlobalGet);
        self.write_byte(0x00);
        self.write_opcode(Opcode::LocalGet);
        self.write_var(offset_name);
        self.write_opcode(Opcode::LocalGet);
        self.write_var(size_name);
        let mc = memcopy();
        self.write_slice(mc.as_slice());
        self.write_opcode(Opcode::GlobalGet);
        self.write_byte(0x00);
        self.write_opcode(Opcode::LocalSet);
        self.write_var(offset_name);
        self.write_opcode(Opcode::GlobalGet);
        self.write_byte(0x00);
        self.write_opcode(Opcode::LocalGet);
        self.write_var(size_name);
        self.write_opcode(Opcode::I32Add);
        self.write_opcode(Opcode::GlobalSet);
        self.write_byte(0x00);
        assert(self.code() =~= old(self).code() + spec_copy_mem(old(self).var(offset_name@), old(self).var(size_name@)));
    }

    /// A new function to advance an iterator: it takes the iterator's offset
    /// and returns whether the iterator is done.
    pub fn advance_fn_template() -> (f: BuiltinFunc)
        ensures
            f.wf(),
            f.sig_args() == seq![Numtype::I32],
            f.sig_ret() == Option::Some(Numtype::I32),
            f.param_names() == seq!["offset"@],
            f.local_names() == Seq::<Seq<char>>::empty(),
            f.spec_local_types() == Seq::<Numtype>::empty(),
            f.code() == Seq::<u8>::empty(),
    {
        let mut args: Vec<Numtype> = Vec::new();
        args.push(Numtype::I32);
        let mut names: Vec<String> = Vec::new();
        names.push(String::from_str("offset"));
        let f = BuiltinFunc::new(FuncTypeSignature::new(args, Option::Some(Numtype::I32)), names);
        assert(f.param_names() =~= seq!["offset"@]);
        assert(f.sig_args() =~= seq![Numtype::I32]);
        f
    }

    /// Calls the advance function of the iterator stored in an outer
    /// iterator, keeping the inner iterator's offset in `inner_offset`.
    #[verifier::spinoff_prover]
    #[verifier::rlimit(50)]
    pub fn iter_call_advance_on_inner(
        &mut self,
        offset_name: &str,
        inner_offset_name: &str,
        inner_offset_delta: u32,
        inner_type: Numtype,
        advance_fn_type_idx: u32,
    )
        requires
            old(self).wf(),
            old(self).has_var(offset_name@),
            old(self).has_var(inner_offset_name@),
        ensures
            old(self).extends(
                final(self),
                spec_iter_call_advance_on_inner(
                    old(self).var(offset_name@),
                    old(self).var(inner_offset_name@),
                    inner_offset_delta,
                    inner_type,
                    advance_fn_type_idx,
                ),
            ),
    {
        self.write_opcode(Opcode::LocalGet);
        self.write_var(offset_name);
        self.write_opcode(Opcode::I32Const);
        let d = i32_const_imm(inner_offset_delta);
        self.write_slice(d.as_slice());
        self.write_opcode(Opcode::I32Add);
        self.write_opcode(Opcode::I32Load);
        self.write_byte(0x02);
        self.write_byte(0x00);
        self.write_opcode(Opcode::LocalTee);
        self.write_var(inner_offset_name);
        let ghost mid = self.code();
        assert(mid =~= old(self).code() + op(Opcode::LocalGet) + old(self).var(offset_name@) + op(Opcode::I32Const)
            + const_imm(inner_offset_delta) + op(Opcode::I32Add) + op(Opcode::I32Load) + memarg() + op(
            Opcode::LocalTee,
        ) + old(self).var(inner_offset_name@));
        self.write_opcode(Opcode::LocalGet);
        self.write_var(inner_offset_name);
        let inner_advance_fn_delta = i32_const_imm(inner_type.size());
        self.write_opcode(Opcode::I32Const);
        self.write_slice(inner_advance_fn_delta.as_slice());
        self.write_opcode(Opcode::I32Add);
        self.write_opcode(Opcode::I32Load);
        self.write_byte(0x02);
        self.write_byte(0x00);
        let sig = unsigned_leb128(advance_fn_type_idx);
        self.write_opcode(Opcode::CallIndirect);
        self.write_slice(sig.as_slice());
        self.write_byte(0x00);
        assert(self.code() =~= old(self).code() + spec_iter_call_advance_on_inner(
            old(self).var(offset_name@),
            old(self).var(inner_offset_name@),
            inner_offset_delta,
            inner_type,
            advance_fn_type_idx,
        ));
    }

    /// Calls the advance function of the iterator at `offset`.
    pub fn iter_call_advance(&mut self, offset_name: &str, advance_fn_delta: u32, advance_fn_type_idx: u32)
        requires
            old(self).wf(),
            old(self).has_var(offset_name@),
        ensures
            old(self).extends(
                final(self),
                spec_iter_call_advance(old(self).var(offset_name@), advance_fn_delta, advance_fn_type_idx),
            ),
    {
        self.write_opcode(Opcode::LocalGet);
        self.write_var(offset_name);
        self.write_opcode(Opcode::LocalGet);
        self.write_var(offset_name);
        self.write_opcode(Opcode::I32Const);
        let d = i32_const_imm(advance_fn_delta);
        self.write_slice(d.as_slice());
        self.write_opcode(Opcode::I32Add);
        self.write_opcode(Opcode::I32Load);
        self.write_byte(0x02);
        self.write_byte(0x00);
        self.write_opcode(Opcode::CallIndirect);
        let t = unsigned_leb128(advance_fn_type_idx);
        self.write_slice(t.as_slice());
        self.write_byte(0x00);
        assert(self.code() =~= old(self).code() + spec_iter_call_advance(
            old(self).var(offset_name@),
            advance_fn_delta,
            advance_fn_type_idx,
        ));
    }

    /// Calls the function stored in an iterator (a map or filter function).
    pub fn iter_call_map_fn(&mut self, offset_name: &str, map_fn_delta: u32, map_fn_type_idx: u32)
        requires
            old(self).wf(),
            old(self).has_var(offset_name@),
        ensures
            old(self).extends(final(self), spec_iter_call_map_fn(old(self).var(offset_name@), map_fn_delta, map_fn_type_idx)),
    {
        self.write_opcode(Opcode::LocalGet);
        self.write_var(offset_name);
        self.write_opcode(Opcode::I32Const);
        let d = i32_const_imm(map_fn_delta);
        self.write_slice(d.as_slice());
        self.write_opcode(Opcode::I32Add);
        self.write_opcode(Opcode::I32Load);
        self.write_byte(0x02);
        self.write_byte(0x00);
        self.write_opcode(Opcode::CallIndirect);
        let t = unsigned_leb128(map_fn_type_idx);
        self.write_slice(t.as_slice());
        self.write_byte(0x00);
        assert(self.code() =~= old(self).code() + spec_iter_call_map_fn(
            old(self).var(offset_name@),
            map_fn_delta,
            map_fn_type_idx,
        ));
    }
}

/// The immediate of a zero constant of the given type.
pub open spec fn spec_zero_const(t: Numtype) -> Seq<u8> {
    if t == Numtype::F32 {
        seq![0x00u8, 0x00u8, 0x00u8, 0x00u8]
    } else {
        seq![0x00u8]
    }
}

/// Code of `align_memptr`.
pub open spec fn spec_align_memptr() -> Seq<u8> {
    op(Opcode::GlobalGet) + seq![0x00u8] + op(Opcode::I32Const) + seq![0x03u8] + op(Opcode::I32Add) + op(
        Opcode::GlobalGet,
    ) + seq![0x00u8] + op(Opcode::I32Const) + seq![0x03u8] + op(Opcode::I32Add) + op(Opcode::I32Const) + seq![
        0x04u8,
    ] + op(Opcode::I32RemU) + op(Opcode::I32Sub) + op(Opcode::GlobalSet) + seq![0x00u8]
}

/// Code of `set_offset_and_size`, given the variables' index bytes.
pub open spec fn spec_set_offset_and_size(fatptr: Seq<u8>, offset: Seq<u8>, size: Seq<u8>) -> Seq<u8> {
    op(Opcode::LocalGet) + fatptr + op(Opcode::I64Const) + seq![0x20u8] + op(Opcode::I64ShrU) + op(
        Opcode::I32WrapI64,
    ) + op(Opcode::LocalSet) + offset + op(Opcode::LocalGet) + fatptr + op(Opcode::I32WrapI64) + op(
        Opcode::LocalSet,
    ) + size
}

/// Code of `create_fatptr`.
pub open spec fn spec_create_fatptr(offset: Seq<u8>, size: Seq<u8>) -> Seq<u8> {
    op(Opcode::LocalGet) + offset + op(Opcode::I64ExtendI32U) + op(Opcode::I64Const) + seq![0x20u8] + op(
        Opcode::I64Shl,
    ) + op(Opcode::LocalGet) + size + op(Opcode::I64ExtendI32U) + op(Opcode::I64Add)
}

/// Code of `copy_mem`.
pub open spec fn spec_copy_mem(offset: Seq<u8>, size: Seq<u8>) -> Seq<u8> {
    op(Opcode::GlobalGet) + seq![0x00u8] + op(Opcode::LocalGet) + offset + op(Opcode::LocalGet) + size
        + spec_memcopy() + op(Opcode::GlobalGet) + seq![0x00u8] + op(Opcode::LocalSet) + offset + op(
        Opcode::GlobalGet,
    ) + seq![0x00u8] + op(Opcode::LocalGet) + size + op(Opcode::I32Add) + op(Opcode::GlobalSet) + seq![0x00u8]
}

/// Code of `iter_call_advance_on_inner`.
pub open spec fn spec_iter_call_advance_on_inner(
    offset: Seq<u8>,
    inner_offset: Seq<u8>,
    inner_offset_delta: u32,
    inner_type: Numtype,
    advance_fn_type_idx: u32,
) -> Seq<u8> {
    op(Opcode::LocalGet) + offset + op(Opcode::I32Const) + const_imm(inner_offset_delta) + op(Opcode::I32Add) + op(
        Opcode::I32Load,
    ) + memarg() + op(Opcode::LocalTee) + inner_offset + op(Opcode::LocalGet) + inner_offset + op(
        Opcode::I32Const,
    ) + const_imm(inner_type.spec_size()) + op(Opcode::I32Add) + op(Opcode::I32Load) + memarg() + op(
        Opcode::CallIndirect,
    ) + imm(advance_fn_type_idx) + seq![0x00u8]
}

/// Code of `iter_call_advance`.
pub open spec fn spec_iter_call_advance(offset: Seq<u8>, advance_fn_delta: u32, advance_fn_type_idx: u32) -> Seq<u8> {
    op(Opcode::LocalGet) + offset + op(Opcode::LocalGet) + offset + op(Opcode::I32Const) + const_imm(advance_fn_delta)
        + op(Opcode::I32Add) + op(Opcode::I32Load) + memarg() + op(Opcode::CallIndirect) + imm(
        advance_fn_type_idx,
    ) + seq![0x00u8]
}

/// Code of `iter_call_map_fn`.
pub open spec fn spec_iter_call_map_fn(offset: Seq<u8>, map_fn_delta: u32, map_fn_type_idx: u32) -> Seq<u8> {
    op(Opcode::LocalGet) + offset + op(Opcode::I32Const) + const_imm(map_fn_delta) + op(Opcode::I32Add) + op(
        Opcode::I32Load,
    ) + memarg() + op(Opcode::CallIndirect) + imm(map_fn_type_idx) + seq![0x00u8]
}

/// The first occurrence of `x` in `s` is at `k`.
pub proof fn lemma_index_of_first_at<A>(s: Seq<A>, x: A, k: int)
    requires
        0 <= k < s.len(),
        s[k] == x,
        forall|j: int| 0 <= j < k ==> s[j] != x,
    ensures
        s.index_of_first(x) == Option::Some(k),
{
    s.index_of_first_ensures(x);
    assert(s.contains(x));
    let i = s.index_of_first(x)->0;
    if i < k {
        assert(s[i] != x);
    } else if i > k {
        assert(s[k] != x);
    }
}

/// `x` does not occur in `s`.
pub proof fn lemma_index_of_first_none<A>(s: Seq<A>, x: A)
    requires
        forall|j: int| 0 <= j < s.len() ==> s[j] != x,
    ensures
        s.index_of_first(x) is None,
{
    s.index_of_first_ensures(x);
    if s.contains(x) {
        let i = s.index_of_first(x)->0;
        assert(s[i] != x);
    }
}

/// A parameter whose name occurs at no earlier position has its position as
/// index.
pub proof fn lemma_param_at(f: BuiltinFunc, name: Seq<char>, k: int)
    requires
        0 <= k < f.param_names().len(),
        f.param_names()[k] == name,
        forall|j: int| 0 <= j < k ==> f.param_names()[j] != name,
    ensures
        f.var_index(name) == Option::Some(k),
{
    reveal(spec_var_index);
    lemma_index_of_first_at(f.param_names(), name, k);
}

/// A local whose name is no parameter's and occurs at no earlier local
/// position is numbered after the parameters.
pub proof fn lemma_local_at(f: BuiltinFunc, name: Seq<char>, k: int)
    requires
        0 <= k < f.local_names().len(),
        f.local_names()[k] == name,
        forall|j: int| 0 <= j < k ==> f.local_names()[j] != name,
        forall|j: int| 0 <= j < f.param_names().len() ==> f.param_names()[j] != name,
    ensures
        f.var_index(name) == Option::Some(f.param_names().len() + k),
{
    reveal(spec_var_index);
    lemma_index_of_first_none(f.param_names(), name);
    lemma_index_of_first_at(f.local_names(), name, k);
}

/// A name that is neither a parameter's nor a local's names no variable.
pub proof fn lemma_no_var(f: BuiltinFunc, name: Seq<char>)
    requires
        forall|j: int| 0 <= j < f.param_names().len() ==> f.param_names()[j] != name,
        forall|j: int| 0 <= j < f.local_names().len() ==> f.local_names()[j] != name,
    ensures
        !f.has_var(name),
{
    reveal(spec_var_index);
    lemma_index_of_first_none(f.param_names(), name);
    lemma_index_of_first_none(f.local_names(), name);
}

/// A name that is a parameter's or a local's names a variable.
pub proof fn lemma_has_var(f: BuiltinFunc, name: Seq<char>)
    requires
        f.param_names().contains(name) || f.local_names().contains(name),
    ensures
        f.has_var(name),
{
    reveal(spec_var_index);
    f.param_names().index_of_first_ensures(name);
    f.local_names().index_of_first_ensures(name);
}


/// The value the code of `create_fatptr` leaves: the offset widened
/// unsigned (`i64.extend_i32_u`) and shifted left by 32 (`i64.shl`), plus the
/// size widened unsigned (`i64.add`, modulo 2^64).
pub open spec fn fatptr_value(offset: u32, size: u32) -> u64 {
    ((((offset as u64) << 32u64) + (size as u64)) % 0x1_0000_0000_0000_0000) as u64
}

/// The offset and size the code of `set_offset_and_size` stores: the high
/// half (`i64.shr_u` by 32, then `i32.wrap_i64`) and the low half
/// (`i32.wrap_i64`).
pub open spec fn fatptr_parts(fatptr: u64) -> (u32, u32) {
    ((fatptr >> 32u64) as u32, fatptr as u32)
}

/// Splitting a fat pointer gives back the offset and size it was made from:
/// `set_offset_and_size` undoes `create_fatptr`.
pub proof fn law_fatptr_roundtrip(offset: u32, size: u32)
    ensures
        fatptr_parts(fatptr_value(offset, size)) == (offset, size),
{
    let fp = fatptr_value(offset, size);
    assert((fp >> 32u64) as u32 == offset && fp as u32 == size) by (bit_vector)
        requires
            fp == ((((offset as u64) << 32u64) + (size as u64)) % 0x1_0000_0000_0000_0000) as u64,
    ;
}


/// A step model of straight-line WebAssembly code over 64-bit values (32-bit
/// values are held in the low half), for the instructions that fat pointers
/// are built and split with: `local.get` and `local.set` (one-byte indices),
/// `i64.const` (small non-negative one-byte immediates), `i64.extend_i32_u`,
/// `i32.wrap_i64`, `i64.shl`, `i64.shr_u` and `i64.add`. From `pc` on, it gives
/// the locals and the operand stack at the end of the code, or `None` where
/// the code leaves this model.
pub open spec fn run_code(code: Seq<u8>, pc: int, locals: Seq<u64>, stack: Seq<u64>) -> Option<(Seq<u64>, Seq<u64>)>
    decreases code.len() - pc,
{
    if pc < 0 || pc > code.len() {
        None
    } else if pc == code.len() {
        Some((locals, stack))
    } else {
        let b = code[pc];
        let n = stack.len();
        if b == 0x20u8 {
            if pc + 1 < code.len() && code[pc + 1] < 128 && (code[pc + 1] as int) < locals.len() {
                run_code(code, pc + 2, locals, stack.push(locals[code[pc + 1] as int]))
            } else {
                None
            }
        } else if b == 0x21u8 {
            if pc + 1 < code.len() && code[pc + 1] < 128 && (code[pc + 1] as int) < locals.len() && n > 0 {
                run_code(code, pc + 2, locals.update(code[pc + 1] as int, stack.last()), stack.drop_last())
            } else {
                None
            }
        } else if b == 0x42u8 {
            if pc + 1 < code.len() && code[pc + 1] < 64 {
                run_code(code, pc + 2, locals, stack.push(code[pc + 1] as u64))
            } else {
                None
            }
        } else if b == 0xadu8 || b == 0xa7u8 {
            if n > 0 {
                run_code(code, pc + 1, locals, stack.drop_last().push((stack.last() % 0x1_0000_0000) as u64))
            } else {
                None
            }
        } else if b == 0x86u8 || b == 0x88u8 || b == 0x7cu8 {
            if n > 1 {
                let x = stack[n - 2];
                let y = stack[n - 1];
                let v: u64 = if b == 0x86u8 {
                    x << (y % 64)
                } else if b == 0x88u8 {
                    x >> (y % 64)
                } else {
                    ((x + y) % 0x1_0000_0000_0000_0000) as u64
                };
                run_code(code, pc + 1, locals, stack.drop_last().drop_last().push(v))
            } else {
                None
            }
        } else {
            None
        }
    }
}

/// Running the code of `create_fatptr` on two 32-bit locals, storing the
/// result with `local.set`, then running the code of `set_offset_and_size`
/// on it, leaves the fat pointer in its local and the offset and size
/// back in theirs, with the operand stack as it was: `set_offset_and_size`
/// undoes `create_fatptr`.
pub proof fn law_fatptr_code_roundtrip(o: u8, s: u8, fp: u8, o2: u8, s2: u8, locals: Seq<u64>, stack: Seq<u64>)
    requires
        o < 128 && s < 128 && fp < 128 && o2 < 128 && s2 < 128,
        (o as int) < locals.len() && (s as int) < locals.len() && (fp as int) < locals.len(),
        (o2 as int) < locals.len() && (s2 as int) < locals.len(),
        fp != o2 && fp != s2 && o2 != s2,
        locals[o as int] < 0x1_0000_0000 && locals[s as int] < 0x1_0000_0000,
    ensures
        ({
            let a = locals[o as int];
            let b = locals[s as int];
            run_code(
                spec_create_fatptr(seq![o], seq![s]) + op(Opcode::LocalSet) + seq![fp]
                    + spec_set_offset_and_size(seq![fp], seq![o2], seq![s2]),
                0,
                locals,
                stack,
            ) == Some((
                locals.update(fp as int, fatptr_value(a as u32, b as u32) as u64).update(o2 as int, a).update(
                    s2 as int,
                    b,
                ),
                stack,
            ))
        }),
{
    let a = locals[o as int];
    let b = locals[s as int];
    let code = spec_create_fatptr(seq![o], seq![s]) + op(Opcode::LocalSet) + seq![fp]
        + spec_set_offset_and_size(seq![fp], seq![o2], seq![s2]);
    assert(code =~= seq![
        0x20u8, o, 0xadu8, 0x42u8, 0x20u8, 0x86u8, 0x20u8, s, 0xadu8, 0x7cu8, 0x21u8, fp,
        0x20u8, fp, 0x42u8, 0x20u8, 0x88u8, 0xa7u8, 0x21u8, o2, 0x20u8, fp, 0xa7u8, 0x21u8, s2,
    ]);
    let v: u64 = ((((a << 32u64) + b) % 0x1_0000_0000_0000_0000) as u64);
    assert(a % 0x1_0000_0000 == a && b % 0x1_0000_0000 == b);
    assert(v == fatptr_value(a as u32, b as u32) as u64 && (v >> 32u64) % 0x1_0000_0000 == a
        && v % 0x1_0000_0000 == b) by (bit_vector)
        requires
            a < 0x1_0000_0000,
            b < 0x1_0000_0000,
            v == ((((a << 32u64) + b) % 0x1_0000_0000_0000_0000) as u64),
    ;
    let l1 = locals.update(fp as int, v);
    let l2 = l1.update(o2 as int, a);
    let l3 = l2.update(s2 as int, b);
    assert(l1[fp as int] == v);
    assert(l2[fp as int] == v);
    assert(run_code(code, 25, l3, stack) == Some((l3, stack)));
    assert(run_code(code, 23, l2, stack.push(b)) == run_code(code, 25, l3, stack)) by {
        assert(stack.push(b).drop_last() =~= stack);
    }
    assert(run_code(code, 22, l2, stack.push(v)) == run_code(code, 23, l2, stack.push(b))) by {
        assert(stack.push(v).drop_last().push(b) =~= stack.push(b));
    }
    assert(run_code(code, 20, l2, stack) == run_code(code, 22, l2, stack.push(v)));
    assert(run_code(code, 18, l1, stack.push(a)) == run_code(code, 20, l2, stack)) by {
        assert(stack.push(a).drop_last() =~= stack);
    }
    assert(run_code(code, 17, l1, stack.push(v >> 32u64)) == run_code(code, 18, l1, stack.push(a))) by {
        assert(stack.push(v >> 32u64).drop_last().push(a) =~= stack.push(a));
    }
    assert(run_code(code, 16, l1, stack.push(v).push(32)) == run_code(code, 17, l1, stack.push(v >> 32u64))) by {
        assert(stack.push(v).push(32).drop_last().drop_last().push(v >> 32u64) =~= stack.push(v >> 32u64));
    }
    assert(run_code(code, 14, l1, stack.push(v)) == run_code(code, 16, l1, stack.push(v).push(32)));
    assert(run_code(code, 12, l1, stack) == run_code(code, 14, l1, stack.push(v)));
    assert(run_code(code, 10, locals, stack.push(v)) == run_code(code, 12, l1, stack)) by {
        assert(stack.push(v).drop_last() =~= stack);
    }
    let sh = a << 32u64;
    assert(run_code(code, 9, locals, stack.push(sh).push(b)) == run_code(code, 10, locals, stack.push(v))) by {
        assert(stack.push(sh).push(b).drop_last().drop_last().push(v) =~= stack.push(v));
    }
    assert(run_code(code, 8, locals, stack.push(sh).push(b)) == run_code(code, 9, locals, stack.push(sh).push(b))) by {
        assert(stack.push(sh).push(b).drop_last().push(b) =~= stack.push(sh).push(b));
    }
    assert(run_code(code, 6, locals, stack.push(sh)) == run_code(code, 8, locals, stack.push(sh).push(b)));
    assert(run_code(code, 5, locals, stack.push(a).push(32)) == run_code(code, 6, locals, stack.push(sh))) by {
        assert(stack.push(a).push(32).drop_last().drop_last().push(sh) =~= stack.push(sh));
    }
    assert(run_code(code, 3, locals, stack.push(a)) == run_code(code, 5, locals, stack.push(a).push(32)));
    assert(run_code(code, 2, locals, stack.push(a)) == run_code(code, 3, locals, stack.push(a))) by {
        assert(stack.push(a).drop_last().push(a) =~= stack.push(a));
    }
    assert(run_code(code, 0, locals, stack) == run_code(code, 2, locals, stack.push(a)));
}

} // verus!
