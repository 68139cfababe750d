use vstd::prelude::*;

use crate::ast::{Type, TypeView, VarType};
use crate::builtin_func::{op, spec_align_memptr};
use crate::builtin_func::BuiltinFunc;
use crate::builtin_funcs::{
    define_builtin_alloc, define_builtin_concat_heap_objs, define_builtin_get_f32_field, define_builtin_get_i32_field,
    define_builtin_get_i64_field, define_builtin_heap_objs_equal, define_builtin_iter_len, define_builtin_str_len,
    define_builtin_struct_constructor, field_names, field_types, spec_struct_constructor_code,
    indexed_name, spec_decimal, spec_iter_len_code, spec_str_len_code, spec_alloc_code, spec_concat_heap_objs_code,
    spec_get_f32_field_code, spec_get_i32_field_code, spec_get_i64_field_code, spec_heap_objs_equal_code,
};
use crate::env::{Env, Import};
use crate::module_builder::{
    lemma_functype_idx_keeps, lemma_wf_bounds, registered_keys, sig_key, spec_import, ModuleBuilder,
};
use crate::structs::{Struct, StructField};
use crate::token::{str_chars, str_eq};
use crate::wasm_model::{
    int_add_code, int_division_code, int_eq_code, int_ge_code, int_gt_code, int_le_code, int_lt_code, int_mul_code,
    int_ne_code, int_negation_code, int_sub_code,
};
use crate::wasmtypes::{
    meminit, spec_meminit, concat_chunks, numtype_bytes, numtype_error, const_imm, i32_const_imm, signed_leb128_wide, signed_leb128, spec_function_body, spec_sleb128, spec_uleb128, unsigned_leb128, ExportType, FuncTypeSignature, Numtype, Opcode,
};
use vstd::string::StringExecFns;
use vstd::string::{StrSliceExecFns, StringSliceAdditionalSpecFns};
use vstd::utf8::is_char_boundary;

verus! {

/// A local variable of a function being compiled.
pub struct Local {
    /// The variable's name.
    pub name: String,
    /// The scope depth at which it was declared.
    pub depth: i32,
    /// Its index among the function's locals.
    pub index: u32,
    /// The global that shadows it when a closure captures it.
    pub global_shadow: Option<u32>,
}

/// The names of a list of locals.
pub open spec fn local_names(locals: Seq<Local>) -> Seq<Seq<char>> {
    locals.map_values(|l: Local| l.name@)
}

/// The last index of `x` in `s`: `s[k] == x`, and no later entry is `x`.
pub proof fn lemma_index_of_last_at<A>(s: Seq<A>, x: A, k: int)
    requires
        0 <= k < s.len(),
        s[k] == x,
        forall|j: int| k < j < s.len() ==> s[j] != x,
    ensures
        s.index_of_last(x) == Option::Some(k),
{
    s.index_of_last_ensures(x);
    assert(s.contains(x));
    let i = s.index_of_last(x)->0;
    if i < k {
        assert(s[k] != x);
    } else if i > k {
        assert(s[i] != x);
    }
}

/// `x` does not occur in `s`.
pub proof fn lemma_index_of_last_none<A>(s: Seq<A>, x: A)
    requires
        forall|j: int| 0 <= j < s.len() ==> s[j] != x,
    ensures
        s.index_of_last(x) is None,
{
    s.index_of_last_ensures(x);
    if s.contains(x) {
        let i = s.index_of_last(x)->0;
        assert(s[i] != x);
    }
}

/// The locals of a function being compiled: those in scope, the types of
/// all locals ever declared, and the current scope depth.
pub struct LocalData {
    pub locals: Vec<Local>,
    pub types: Vec<u8>,
    pub scope_depth: i32,
    /// The number of locals ever declared in the function.
    pub n_locals: u32,
}

/// The locals in scope were declared in order, each with an index below the
/// number of locals declared so far.
pub open spec fn fresh_locals(locals: Seq<Local>, n: nat) -> bool {
    &&& forall|k: int| 0 <= k < locals.len() ==> #[trigger] locals[k].index < n
    &&& forall|j: int, k: int| 0 <= j < k < locals.len() ==> #[trigger] locals[j].index < #[trigger] locals[k].index
}

/// Leaving scopes keeps a prefix of the locals and the count, so what is left
/// still has fresh indices.
pub proof fn law_scope_end_keeps_fresh(locals: Seq<Local>, n: nat, kept: int)
    requires
        fresh_locals(locals, n),
        0 <= kept <= locals.len(),
    ensures
        fresh_locals(locals.take(kept), n),
{
}

/// A step a function's locals go through: declaring a local (`add_local`),
/// or leaving a scope (`end_scope`, which keeps the count of locals).
pub enum LocalStep {
    Add,
    EndScope,
}

/// After the steps, from `n` locals declared: the count of locals declared,
/// and the index each `Add` handed out, in order.
pub open spec fn run_local_steps(n: nat, steps: Seq<LocalStep>) -> (nat, Seq<nat>)
    decreases steps.len(),
{
    if steps.len() == 0 {
        (n, Seq::empty())
    } else {
        let (m, handed) = run_local_steps(n, steps.drop_last());
        match steps.last() {
            LocalStep::Add => (m + 1, handed.push(m)),
            LocalStep::EndScope => (m, handed),
        }
    }
}

/// However declarations and scope ends interleave, every index handed out is
/// new: each is larger than all those before it, and below the count.
pub proof fn law_local_indices_never_reused(n: nat, steps: Seq<LocalStep>)
    ensures
        ({
            let (m, handed) = run_local_steps(n, steps);
            &&& n <= m
            &&& forall|i: int| 0 <= i < handed.len() ==> n <= #[trigger] handed[i] < m
            &&& forall|i: int, j: int| 0 <= i < j < handed.len() ==> #[trigger] handed[i] < #[trigger] handed[j]
        }),
    decreases steps.len(),
{
    if steps.len() > 0 {
        law_local_indices_never_reused(n, steps.drop_last());
    }
}

impl Default for LocalData {
    /// No locals, outside any scope.
    fn default() -> (d: LocalData)
        ensures
            d.fresh(),
            d.locals@.len() == 0,
            d.types@.len() == 0,
            d.scope_depth == -1,
            d.n_locals == 0,
    {
        LocalData { locals: Vec::new(), types: Vec::new(), scope_depth: -1, n_locals: 0 }
    }
}

impl LocalData {
    /// One type per local ever declared, and the locals in scope have fresh
    /// indices.
    pub open spec fn fresh(&self) -> bool {
        &&& self.types@.len() == self.n_locals
        &&& fresh_locals(self.locals@, self.n_locals as nat)
    }

    /// Declares a local at the current depth with the next index, and
    /// returns that index. The index was never handed out before: every
    /// earlier one is below the count, which only grows.
    pub fn add_local(&mut self, name: String, typ: u8) -> (index: u32)
        requires
            old(self).n_locals < u32::MAX,
        ensures
            old(self).fresh() ==> final(self).fresh(),
            old(self).fresh() ==> forall|k: int| 0 <= k < old(self).locals@.len() ==> #[trigger] old(self).locals@[k].index < index,
            index == old(self).n_locals,
            final(self).n_locals == old(self).n_locals + 1,
            final(self).locals@ == old(self).locals@.push(
                Local { name, depth: old(self).scope_depth, index, global_shadow: Option::None },
            ),
            final(self).types@ == old(self).types@.push(typ),
            final(self).scope_depth == old(self).scope_depth,
    {
        let index = self.n_locals;
        self.n_locals = self.n_locals + 1;
        self.locals.push(Local { name, depth: self.scope_depth, index, global_shadow: Option::None });
        self.types.push(typ);
        index
    }

    /// The index of the innermost local in scope with the given name.
    pub fn get_idx(&self, name: &str) -> (r: Option<u32>)
        ensures
            r == match local_names(self.locals@).index_of_last(name@) {
                Option::Some(k) => Option::Some(self.locals@[k].index),
                Option::None => Option::None,
            },
    {
        let ghost names = local_names(self.locals@);
        let mut i: usize = self.locals.len();
        while i > 0
            invariant
                names == local_names(self.locals@),
                0 <= i <= self.locals@.len(),
                forall|j: int| i <= j < self.locals@.len() ==> names[j] != name@,
            decreases i,
        {
            i = i - 1;
            if str_eq(self.locals[i].name.as_str(), name) {
                proof {
                    lemma_index_of_last_at(names, name@, i as int);
                }
                return Option::Some(self.locals[i].index);
            }
        }
        proof {
            lemma_index_of_last_none(names, name@);
        }
        Option::None
    }
}

/// A parameter of a function being compiled.
pub struct Param {
    pub name: String,
    /// The global that shadows it when a closure captures it.
    pub global_shadow: Option<u32>,
}

impl Param {
    pub fn new(name: String) -> (p: Param)
        ensures
            p.name == name,
            p.global_shadow is None,
    {
        Param { name, global_shadow: Option::None }
    }
}

/// The names of a list of parameters.
pub open spec fn param_names(params: Seq<Param>) -> Seq<Seq<char>> {
    params.map_values(|p: Param| p.name@)
}

/// A function being compiled.
pub struct WasmFunc {
    pub name: String,
    pub signature: FuncTypeSignature,
    pub params: Vec<Param>,
    pub locals: LocalData,
    pub bytes: Vec<u8>,
    pub export: bool,
}

impl WasmFunc {
    /// A function with no code yet.
    pub fn new(name: String, signature: FuncTypeSignature, export: bool) -> (f: WasmFunc)
        ensures
            f.name == name,
            f.signature == signature,
            f.params@.len() == 0,
            f.locals.locals@.len() == 0,
            f.locals.types@.len() == 0,
            f.locals.scope_depth == -1,
            f.locals.n_locals == 0,
            f.bytes@.len() == 0,
            f.export == export,
    {
        WasmFunc {
            name,
            signature,
            params: Vec::new(),
            locals: LocalData::default(),
            bytes: Vec::new(),
            export,
        }
    }

    /// The number of parameters of the function's signature.
    pub fn n_params(&self) -> (n: u32)
        requires
            self.signature.args@.len() <= u32::MAX,
        ensures
            n == self.signature.args@.len(),
    {
        self.signature.args.len() as u32
    }

    /// The position of the first parameter with the given name.
    pub fn get_param_idx(&self, name: &str) -> (r: Option<u32>)
        requires
            self.params@.len() <= u32::MAX,
        ensures
            r == match param_names(self.params@).index_of_first(name@) {
                Option::Some(k) => Option::Some(k as u32),
                Option::None => Option::None,
            },
    {
        let ghost names = param_names(self.params@);
        let mut i: usize = 0;
        while i < self.params.len()
            invariant
                names == param_names(self.params@),
                self.params@.len() <= u32::MAX,
                0 <= i <= self.params@.len(),
                forall|j: int| 0 <= j < i ==> names[j] != name@,
            decreases self.params@.len() - i,
        {
            if str_eq(self.params[i].name.as_str(), name) {
                proof {
                    crate::builtin_func::lemma_index_of_first_at(names, name@, i as int);
                }
                return Option::Some(i as u32);
            }
            i = i + 1;
        }
        proof {
            crate::builtin_func::lemma_index_of_first_none(names, name@);
        }
        Option::None
    }

    /// The index of the innermost local with the given name, counting the
    /// parameters first.
    pub fn get_local_idx(&self, name: &str) -> (r: Option<u32>)
        requires
            self.signature.args@.len() + self.locals.n_locals <= u32::MAX,
            forall|k: int| 0 <= k < self.locals.locals@.len() ==> #[trigger] self.locals.locals@[k].index < self.locals.n_locals,
        ensures
            r == match local_names(self.locals.locals@).index_of_last(name@) {
                Option::Some(k) => Option::Some(
                    (self.locals.locals@[k].index + self.signature.args@.len()) as u32,
                ),
                Option::None => Option::None,
            },
    {
        match self.locals.get_idx(name) {
            Option::Some(x) => {
                proof {
                    local_names(self.locals.locals@).index_of_last_ensures(name@);
                }
                Option::Some(x + self.n_params())
            },
            Option::None => Option::None,
        }
    }
    /// The index of a variable, local or parameter, and the global that
    /// shadows it. The local is found by its index shifted by the number of
    /// parameters, which must be a position among the locals in scope.
    pub fn get_idx_and_global_shadow(&self, name: &str) -> (r: Option<(u32, Option<u32>)>)
        requires
            self.signature.args@.len() + self.locals.n_locals <= u32::MAX,
            self.params@.len() <= u32::MAX,
            forall|k: int| 0 <= k < self.locals.locals@.len() ==> #[trigger] self.locals.locals@[k].index < self.locals.n_locals,
            match local_names(self.locals.locals@).index_of_last(name@) {
                Option::Some(k) => self.locals.locals@[k].index + self.signature.args@.len() < self.locals.locals@.len(),
                Option::None => true,
            },
        ensures
            r == match local_names(self.locals.locals@).index_of_last(name@) {
                Option::Some(k) => {
                    let li = self.locals.locals@[k].index + self.signature.args@.len();
                    Option::Some((li as u32, self.locals.locals@[li].global_shadow))
                },
                Option::None => match param_names(self.params@).index_of_first(name@) {
                    Option::Some(p) => Option::Some((p as u32, self.params@[p].global_shadow)),
                    Option::None => Option::None,
                },
            },
    {
        proof {
            local_names(self.locals.locals@).index_of_last_ensures(name@);
        }
        if let Option::Some(local_idx) = self.get_local_idx(name) {
            return Option::Some((local_idx, self.locals.locals[local_idx as usize].global_shadow));
        }
        if let Option::Some(param_idx) = self.get_param_idx(name) {
            proof {
                param_names(self.params@).index_of_first_ensures(name@);
            }
            return Option::Some((param_idx, self.params[param_idx as usize].global_shadow));
        }
        Option::None
    }

    /// Records the global that shadows the innermost local with the given
    /// name, or else the last parameter with it.
    pub fn add_global_shadow(&mut self, name: &str, global_idx: u32)
        ensures
            final(self).name == old(self).name,
            final(self).signature == old(self).signature,
            final(self).bytes == old(self).bytes,
            final(self).export == old(self).export,
            final(self).locals.types == old(self).locals.types,
            final(self).locals.scope_depth == old(self).locals.scope_depth,
            final(self).locals.n_locals == old(self).locals.n_locals,
            match local_names(old(self).locals.locals@).index_of_last(name@) {
                Option::Some(k) => {
                    &&& final(self).locals.locals@ == old(self).locals.locals@.update(
                        k,
                        Local { global_shadow: Option::Some(global_idx), ..old(self).locals.locals@[k] },
                    )
                    &&& final(self).params@ == old(self).params@
                },
                Option::None => {
                    &&& final(self).locals.locals@ == old(self).locals.locals@
                    &&& match param_names(old(self).params@).index_of_last(name@) {
                        Option::Some(p) => final(self).params@ == old(self).params@.update(
                            p,
                            Param { global_shadow: Option::Some(global_idx), ..old(self).params@[p] },
                        ),
                        Option::None => final(self).params@ == old(self).params@,
                    }
                },
            },
    {
        let ghost lnames = local_names(self.locals.locals@);
        let ghost pnames = param_names(self.params@);
        proof {
            lnames.index_of_last_ensures(name@);
            pnames.index_of_last_ensures(name@);
        }
        let mut i: usize = self.locals.locals.len();
        while i > 0
            invariant
                *self == *old(self),
                lnames == local_names(self.locals.locals@),
                0 <= i <= self.locals.locals@.len(),
                forall|j: int| i <= j < self.locals.locals@.len() ==> lnames[j] != name@,
            decreases i,
        {
            i = i - 1;
            if str_eq(self.locals.locals[i].name.as_str(), name) {
                proof {
                    lemma_index_of_last_at(lnames, name@, i as int);
                }
                let ghost prev = self.locals.locals@[i as int];
                self.locals.locals[i].global_shadow = Option::Some(global_idx);
                assert(self.locals.locals@ =~= old(self).locals.locals@.update(
                    i as int,
                    Local { global_shadow: Option::Some(global_idx), ..prev },
                ));
                return;
            }
        }
        proof {
            lemma_index_of_last_none(lnames, name@);
        }
        let mut i: usize = self.params.len();
        while i > 0
            invariant
                *self == *old(self),
                pnames == param_names(self.params@),
                local_names(old(self).locals.locals@).index_of_last(name@) is None,
                0 <= i <= self.params@.len(),
                forall|j: int| i <= j < self.params@.len() ==> pnames[j] != name@,
            decreases i,
        {
            i = i - 1;
            if str_eq(self.params[i].name.as_str(), name) {
                proof {
                    lemma_index_of_last_at(pnames, name@, i as int);
                }
                let ghost prev = self.params@[i as int];
                self.params[i].global_shadow = Option::Some(global_idx);
                assert(self.params@ =~= old(self).params@.update(
                    i as int,
                    Param { global_shadow: Option::Some(global_idx), ..prev },
                ));
                return;
            }
        }
        proof {
            lemma_index_of_last_none(pnames, name@);
        }
    }
}


/// Everything of a function being compiled but its code.
pub open spec fn same_but_code(a: WasmFunc, b: WasmFunc) -> bool {
    &&& a.name == b.name
    &&& a.signature == b.signature
    &&& a.params == b.params
    &&& a.locals == b.locals
    &&& a.export == b.export
}

/// Compiles to a WebAssembly module: the module so far, the functions
/// being compiled, innermost last, the functions defined in the module by
/// name, and the struct definitions by name.
pub struct Wasmizer {
    pub typecontext: Vec<VarType>,
    pub global_vars: Vec<(String, u64)>,
    builder: ModuleBuilder,
    frames: Vec<WasmFunc>,
    builtins: Vec<(String, u32)>,
    structs: Vec<(String, Struct)>,
}

impl Wasmizer {
    pub closed spec fn builder(&self) -> ModuleBuilder {
        self.builder
    }

    pub closed spec fn frames(&self) -> Seq<WasmFunc> {
        self.frames@
    }

    /// The functions registered by name, in the order of registration.
    pub closed spec fn builtins(&self) -> Seq<(Seq<char>, u32)> {
        self.builtins@.map_values(|b: (String, u32)| (b.0@, b.1))
    }

    /// The struct definitions by name, in the order of definition.
    pub closed spec fn structs(&self) -> Seq<(Seq<char>, Struct)> {
        self.structs@.map_values(|d: (String, Struct)| (d.0@, d.1))
    }

    /// The index of the function last registered under a name.
    pub open spec fn builtin_idx(&self, name: Seq<char>) -> Option<u32> {
        match self.builtins().map_values(|b: (Seq<char>, u32)| b.0).index_of_last(name) {
            Option::Some(k) => Option::Some(self.builtins()[k].1),
            Option::None => Option::None,
        }
    }

    /// The types of the names known to the program.
    pub closed spec fn types(&self) -> Vec<VarType> {
        self.typecontext
    }

    /// The global variables of the program, by name.
    pub closed spec fn globals(&self) -> Vec<(String, u64)> {
        self.global_vars
    }

    /// The types and global variables of the names known to the program are
    /// those of `other`.
    pub open spec fn same_names(&self, other: &Wasmizer) -> bool {
        &&& self.types() == other.types()
        &&& self.globals() == other.globals()
    }

    /// The code of the function being compiled.
    pub open spec fn code(&self) -> Seq<u8> {
        self.frames().last().bytes@
    }

    /// `next` is this state with `added` written at the end of the code of the
    /// function being compiled.
    pub open spec fn emits(&self, next: &Wasmizer, added: Seq<u8>) -> bool {
        &&& next.same_names(self)
        &&& next.builder() == self.builder()
        &&& next.builtins() == self.builtins()
        &&& next.structs() == self.structs()
        &&& next.frames().len() == self.frames().len()
        &&& forall|i: int| 0 <= i < self.frames().len() - 1 ==> #[trigger] next.frames()[i] == self.frames()[i]
        &&& same_but_code(next.frames().last(), self.frames().last())
        &&& next.code() == self.code() + added
    }

    fn write_byte(&mut self, byte: u8)
        requires
            old(self).frames().len() > 0,
        ensures
            old(self).emits(final(self), seq![byte]),
    {
        let n = self.frames.len();
        self.frames[n - 1].bytes.push(byte);
        assert(self.frames@.len() == n);
        assert(forall|i: int| 0 <= i < n - 1 ==> #[trigger] self.frames@[i] == old(self).frames@[i]);
        assert(same_but_code(self.frames@.last(), old(self).frames@.last()));
        assert(self.frames@.last().bytes@ == old(self).frames@.last().bytes@.push(byte));
        assert(self.code() =~= old(self).code() + seq![byte]);
    }

    fn write_opcode(&mut self, opcode: Opcode)
        requires
            old(self).frames().len() > 0,
        ensures
            old(self).emits(final(self), op(opcode)),
    {
        self.write_byte(opcode.to_byte());
    }

    fn write_slice(&mut self, slice: &[u8])
        requires
            old(self).frames().len() > 0,
        ensures
            old(self).emits(final(self), slice@),
    {
        let n = self.frames.len();
        let mut i: usize = 0;
        while i < slice.len()
            invariant
                n == self.frames@.len(),
                n > 0,
                0 <= i <= slice@.len(),
                old(self).emits(self, slice@.take(i as int)),
            decreases slice@.len() - i,
        {
            self.frames[n - 1].bytes.push(slice[i]);
            assert(slice@.take(i + 1) =~= slice@.take(i as int).push(slice@[i as int]));
            i = i + 1;
        }
        assert(slice@.take(slice@.len() as int) =~= slice@);
    }
}


/// Writing `x` and then `y` writes `x + y`.
pub proof fn lemma_emits_trans(a: Wasmizer, b: Wasmizer, c: Wasmizer, x: Seq<u8>, y: Seq<u8>)
    requires
        a.emits(&b, x),
        b.emits(&c, y),
    ensures
        a.emits(&c, x + y),
{
    assert(c.code() =~= a.code() + (x + y));
}

/// A message made of a text and a type as `Debug` writes it.
fn type_message(text: &str, typ: &Type) -> (r: String)
    ensures
        r@ == text@ + typ.view().debug(),
{
    let mut r = String::from_str(text);
    let d = typ.debug_string();
    r.append(d.as_str());
    r
}

impl Wasmizer {
    /// The index of the function last registered under a name.
    fn get_builtin(&self, name: &str) -> (r: Option<u32>)
        ensures
            r == self.builtin_idx(name@),
    {
        let ghost names = self.builtins().map_values(|b: (Seq<char>, u32)| b.0);
        assert(names =~= self.builtins@.map_values(|b: (String, u32)| b.0@));
        let mut i: usize = self.builtins.len();
        while i > 0
            invariant
                names == self.builtins().map_values(|b: (Seq<char>, u32)| b.0),
                names =~= self.builtins@.map_values(|b: (String, u32)| b.0@),
                0 <= i <= self.builtins@.len(),
                forall|j: int| i <= j < self.builtins@.len() ==> names[j] != name@,
            decreases i,
        {
            i = i - 1;
            if str_eq(self.builtins[i].0.as_str(), name) {
                proof {
                    lemma_index_of_last_at(names, name@, i as int);
                }
                return Option::Some(self.builtins[i].1);
            }
        }
        proof {
            lemma_index_of_last_none(names, name@);
        }
        Option::None
    }

    /// Calls the function registered under a name.
    pub fn call_builtin(&mut self, name: &str) -> (r: Result<(), String>)
        requires
            old(self).frames().len() > 0,
        ensures
            match old(self).builtin_idx(name@) {
                Option::Some(i) => r is Ok && old(self).emits(final(self), op(Opcode::Call) + spec_uleb128(i as nat)),
                Option::None => r is Err && r->Err_0@ == "Unknown builtin function: "@ + name@ && *final(self)
                    == *old(self),
            },
    {
        let idx = match self.get_builtin(name) {
            Option::Some(idx) => idx,
            Option::None => {
                let mut msg = String::from_str("Unknown builtin function: ");
                msg.append(name);
                return Err(msg);
            },
        };
        let ghost s0 = *self;
        self.write_opcode(Opcode::Call);
        let ghost s1 = *self;
        let bytes = unsigned_leb128(idx);
        self.write_slice(bytes.as_slice());
        proof {
            lemma_emits_trans(s0, s1, *self, op(Opcode::Call), bytes@);
        }
        Ok(())
    }
}


impl Wasmizer {
    /// Negates a value of the type: an integer is multiplied by -1 and a
    /// boolean is flipped.
    pub fn write_negate(&mut self, typ: &Type) -> (r: Result<(), String>)
        requires
            old(self).frames().len() > 0,
        ensures
            match typ.view() {
                TypeView::Int => r is Ok && old(self).emits(
                    final(self),
                    int_negation_code(),
                ),
                TypeView::Bool => r is Ok && old(self).emits(final(self), op(Opcode::I32Eqz)),
                TypeView::Float => r is Ok && old(self).emits(final(self), op(Opcode::F32Neg)),
                _ => r is Err && r->Err_0@ == "Cannot take negative of values of type "@ + typ.view().debug()
                    && *final(self) == *old(self),
            },
    {
        match typ {
            Type::Int => {
                let ghost s0 = *self;
                self.write_opcode(Opcode::I32Const);
                let ghost s1 = *self;
                self.write_byte(0x7f);
                let ghost s2 = *self;
                self.write_opcode(Opcode::I32Mul);
                proof {
                    lemma_emits_trans(s0, s1, s2, op(Opcode::I32Const), seq![0x7fu8]);
                    lemma_emits_trans(s0, s2, *self, op(Opcode::I32Const) + seq![0x7fu8], op(Opcode::I32Mul));
                }
                Ok(())
            },
            Type::Bool => {
                self.write_opcode(Opcode::I32Eqz);
                Ok(())
            },
            Type::Float => {
                self.write_opcode(Opcode::F32Neg);
                Ok(())
            },
            _ => Err(type_message("Cannot take negative of values of type ", typ)),
        }
    }

    pub fn write_drop(&mut self)
        requires
            old(self).frames().len() > 0,
        ensures
            old(self).emits(final(self), op(Opcode::Drop)),
    {
        self.write_opcode(Opcode::Drop);
    }

    pub fn write_else(&mut self) -> (r: Result<(), String>)
        requires
            old(self).frames().len() > 0,
        ensures
            r is Ok,
            old(self).emits(final(self), op(Opcode::Else)),
    {
        self.write_opcode(Opcode::Else);
        Ok(())
    }

    pub fn write_end(&mut self) -> (r: Result<(), String>)
        requires
            old(self).frames().len() > 0,
        ensures
            r is Ok,
            old(self).emits(final(self), op(Opcode::End)),
    {
        self.write_opcode(Opcode::End);
        Ok(())
    }

    /// Starts an `if` whose branches give a value of the type.
    pub fn write_if(&mut self, typ: &Type) -> (r: Result<(), String>)
        requires
            old(self).frames().len() > 0,
        ensures
            match Numtype::spec_from_ast_type(*typ) {
                Option::Some(nt) => r is Ok && old(self).emits(final(self), op(Opcode::If) + seq![nt.spec_byte()]),
                Option::None => r is Err && r->Err_0@ == numtype_error(*typ) && old(self).emits(final(self), op(Opcode::If)),
            },
    {
        self.write_opcode(Opcode::If);
        let nt = Numtype::from_ast_type(typ)?;
        let ghost s1 = *self;
        self.write_byte(nt.to_byte());
        proof {
            lemma_emits_trans(*old(self), s1, *self, op(Opcode::If), seq![nt.spec_byte()]);
        }
        Ok(())
    }

    /// Aligns the memory pointer to 4 bytes:
    /// `memptr = 3 + memptr - (3 + memptr) % 4`.
    #[verifier::spinoff_prover]
    #[verifier::rlimit(30)]
    fn align_memptr(&mut self)
        requires
            old(self).frames().len() > 0,
        ensures
            old(self).emits(final(self), spec_align_memptr()),
    {
        let ghost s0 = *self;
        self.write_opcode(Opcode::GlobalGet);
        self.write_byte(0x00);
        self.write_opcode(Opcode::I32Const);
        self.write_byte(0x03);
        self.write_opcode(Opcode::I32Add);
        self.write_opcode(Opcode::GlobalGet);
        self.write_byte(0x00);
        self.write_opcode(Opcode::I32Const);
        self.write_byte(0x03);
        self.write_opcode(Opcode::I32Add);
        self.write_opcode(Opcode::I32Const);
        self.write_byte(0x04);
        self.write_opcode(Opcode::I32RemU);
        self.write_opcode(Opcode::I32Sub);
        self.write_opcode(Opcode::GlobalSet);
        self.write_byte(0x00);
        assert(self.code() =~= s0.code() + spec_align_memptr());
    }
}

impl Wasmizer {
    /// Compares two values of the type for equality.
    pub fn write_equal(&mut self, typ: &Type) -> (r: Result<(), String>)
        requires
            old(self).frames().len() > 0,
        ensures
            match typ.view() {
                TypeView::Int | TypeView::Bool => r is Ok && old(self).emits(final(self), int_eq_code()),
                TypeView::Float => r is Ok && old(self).emits(final(self), op(Opcode::F32Eq)),
                TypeView::Str | TypeView::Arr(_) => match old(self).builtin_idx("heap_objs_equal"@) {
                    Option::Some(i) => r is Ok && old(self).emits(final(self), op(Opcode::Call) + spec_uleb128(i as nat)),
                    Option::None => r is Err && r->Err_0@ == "Unknown builtin function: "@ + "heap_objs_equal"@ && *final(self) == *old(self),
                },
                _ => r is Err && r->Err_0@ == "Cannot compare values of type "@ + typ.view().debug() && *final(self) == *old(self),
            },
    {
        match typ {
            Type::Int | Type::Bool => {
                self.write_opcode(Opcode::I32Eq);
                Ok(())
            },
            Type::Float => {
                self.write_opcode(Opcode::F32Eq);
                Ok(())
            },
            Type::Str | Type::Arr(_) => self.call_builtin("heap_objs_equal"),
            _ => Err(type_message("Cannot compare values of type ", typ)),
        }
    }

    /// Compares two values of the type for inequality.
    pub fn write_not_equal(&mut self, typ: &Type) -> (r: Result<(), String>)
        requires
            old(self).frames().len() > 0,
        ensures
            match typ.view() {
                TypeView::Int | TypeView::Bool => r is Ok && old(self).emits(final(self), int_ne_code()),
                TypeView::Float => r is Ok && old(self).emits(final(self), op(Opcode::F32Ne)),
                _ => r is Err && r->Err_0@ == "Cannot compare values of type "@ + typ.view().debug() && *final(self) == *old(self),
            },
    {
        match typ {
            Type::Int | Type::Bool => {
                self.write_opcode(Opcode::I32Ne);
                Ok(())
            },
            Type::Float => {
                self.write_opcode(Opcode::F32Ne);
                Ok(())
            },
            _ => Err(type_message("Cannot compare values of type ", typ)),
        }
    }

    /// Compares two values of the type by `>`.
    pub fn write_greater(&mut self, typ: &Type) -> (r: Result<(), String>)
        requires
            old(self).frames().len() > 0,
        ensures
            match typ.view() {
                TypeView::Int => r is Ok && old(self).emits(final(self), int_gt_code()),
                TypeView::Float => r is Ok && old(self).emits(final(self), op(Opcode::F32Gt)),
                _ => r is Err && r->Err_0@ == "Order is not defined for type "@ + typ.view().debug() && *final(self) == *old(self),
            },
    {
        match typ {
            Type::Int => {
                self.write_opcode(Opcode::I32GtS);
                Ok(())
            },
            Type::Float => {
                self.write_opcode(Opcode::F32Gt);
                Ok(())
            },
            _ => Err(type_message("Order is not defined for type ", typ)),
        }
    }

    /// Compares two values of the type by `>=`.
    pub fn write_greater_equal(&mut self, typ: &Type) -> (r: Result<(), String>)
        requires
            old(self).frames().len() > 0,
        ensures
            match typ.view() {
                TypeView::Int => r is Ok && old(self).emits(final(self), int_ge_code()),
                TypeView::Float => r is Ok && old(self).emits(final(self), op(Opcode::F32Ge)),
                _ => r is Err && r->Err_0@ == "Order is not defined for type "@ + typ.view().debug() && *final(self) == *old(self),
            },
    {
        match typ {
            Type::Int => {
                self.write_opcode(Opcode::I32GeS);
                Ok(())
            },
            Type::Float => {
                self.write_opcode(Opcode::F32Ge);
                Ok(())
            },
            _ => Err(type_message("Order is not defined for type ", typ)),
        }
    }

    /// Compares two values of the type by `<`.
    pub fn write_less(&mut self, typ: &Type) -> (r: Result<(), String>)
        requires
            old(self).frames().len() > 0,
        ensures
            match typ.view() {
                TypeView::Int => r is Ok && old(self).emits(final(self), int_lt_code()),
                TypeView::Float => r is Ok && old(self).emits(final(self), op(Opcode::F32Lt)),
                _ => r is Err && r->Err_0@ == "Order is not defined for type "@ + typ.view().debug() && *final(self) == *old(self),
            },
    {
        match typ {
            Type::Int => {
                self.write_opcode(Opcode::I32LtS);
                Ok(())
            },
            Type::Float => {
                self.write_opcode(Opcode::F32Lt);
                Ok(())
            },
            _ => Err(type_message("Order is not defined for type ", typ)),
        }
    }

    /// Compares two values of the type by `<=`.
    pub fn write_less_equal(&mut self, typ: &Type) -> (r: Result<(), String>)
        requires
            old(self).frames().len() > 0,
        ensures
            match typ.view() {
                TypeView::Int => r is Ok && old(self).emits(final(self), int_le_code()),
                TypeView::Float => r is Ok && old(self).emits(final(self), op(Opcode::F32Le)),
                _ => r is Err && r->Err_0@ == "Order is not defined for type "@ + typ.view().debug() && *final(self) == *old(self),
            },
    {
        match typ {
            Type::Int => {
                self.write_opcode(Opcode::I32LeS);
                Ok(())
            },
            Type::Float => {
                self.write_opcode(Opcode::F32Le);
                Ok(())
            },
            _ => Err(type_message("Order is not defined for type ", typ)),
        }
    }

    /// Adds two values of the type; strings and arrays are concatenated.
    pub fn write_add(&mut self, typ: &Type) -> (r: Result<(), String>)
        requires
            old(self).frames().len() > 0,
        ensures
            match typ.view() {
                TypeView::Int => r is Ok && old(self).emits(final(self), int_add_code()),
                TypeView::Float => r is Ok && old(self).emits(final(self), op(Opcode::F32Add)),
                TypeView::Str | TypeView::Arr(_) => match old(self).builtin_idx("concat_heap_objs"@) {
                    Option::Some(i) => r is Ok && old(self).emits(final(self), op(Opcode::Call) + spec_uleb128(i as nat)),
                    Option::None => r is Err && r->Err_0@ == "Unknown builtin function: "@ + "concat_heap_objs"@ && *final(self) == *old(self),
                },
                _ => r is Err && r->Err_0@ == "Cannot add values of type "@ + typ.view().debug() && *final(self) == *old(self),
            },
    {
        match typ {
            Type::Int => {
                self.write_opcode(Opcode::I32Add);
                Ok(())
            },
            Type::Float => {
                self.write_opcode(Opcode::F32Add);
                Ok(())
            },
            Type::Str | Type::Arr(_) => self.call_builtin("concat_heap_objs"),
            _ => Err(type_message("Cannot add values of type ", typ)),
        }
    }

    /// Subtracts two values of the type.
    pub fn write_sub(&mut self, typ: &Type) -> (r: Result<(), String>)
        requires
            old(self).frames().len() > 0,
        ensures
            match typ.view() {
                TypeView::Int => r is Ok && old(self).emits(final(self), int_sub_code()),
                TypeView::Float => r is Ok && old(self).emits(final(self), op(Opcode::F32Sub)),
                _ => r is Err && r->Err_0@ == "Cannot subtract values of type "@ + typ.view().debug() && *final(self) == *old(self),
            },
    {
        match typ {
            Type::Int => {
                self.write_opcode(Opcode::I32Sub);
                Ok(())
            },
            Type::Float => {
                self.write_opcode(Opcode::F32Sub);
                Ok(())
            },
            _ => Err(type_message("Cannot subtract values of type ", typ)),
        }
    }

    /// Multiplies two values of the type.
    pub fn write_mul(&mut self, typ: &Type) -> (r: Result<(), String>)
        requires
            old(self).frames().len() > 0,
        ensures
            match typ.view() {
                TypeView::Int => r is Ok && old(self).emits(final(self), int_mul_code()),
                TypeView::Float => r is Ok && old(self).emits(final(self), op(Opcode::F32Mul)),
                _ => r is Err && r->Err_0@ == "Cannot multiply values of type "@ + typ.view().debug() && *final(self) == *old(self),
            },
    {
        match typ {
            Type::Int => {
                self.write_opcode(Opcode::I32Mul);
                Ok(())
            },
            Type::Float => {
                self.write_opcode(Opcode::F32Mul);
                Ok(())
            },
            _ => Err(type_message("Cannot multiply values of type ", typ)),
        }
    }

    /// Divides two values of the type.
    pub fn write_div(&mut self, typ: &Type) -> (r: Result<(), String>)
        requires
            old(self).frames().len() > 0,
        ensures
            match typ.view() {
                TypeView::Int => r is Ok && old(self).emits(final(self), int_division_code()),
                TypeView::Float => r is Ok && old(self).emits(final(self), op(Opcode::F32Div)),
                _ => r is Err && r->Err_0@ == "Cannot divide values of type "@ + typ.view().debug() && *final(self) == *old(self),
            },
    {
        match typ {
            Type::Int => {
                self.write_opcode(Opcode::I32DivS);
                Ok(())
            },
            Type::Float => {
                self.write_opcode(Opcode::F32Div);
                Ok(())
            },
            _ => Err(type_message("Cannot divide values of type ", typ)),
        }
    }

    /// The logical and of two booleans.
    pub fn write_and(&mut self, typ: &Type) -> (r: Result<(), String>)
        requires
            old(self).frames().len() > 0,
        ensures
            match typ.view() {
                TypeView::Bool => r is Ok && old(self).emits(final(self), op(Opcode::I32And)),
                _ => r is Err && r->Err_0@ == "Cannot AND values of type "@ + typ.view().debug() && *final(self) == *old(self),
            },
    {
        match typ {
            Type::Bool => {
                self.write_opcode(Opcode::I32And);
                Ok(())
            },
            _ => Err(type_message("Cannot AND values of type ", typ)),
        }
    }

    /// The logical or of two booleans.
    pub fn write_or(&mut self, typ: &Type) -> (r: Result<(), String>)
        requires
            old(self).frames().len() > 0,
        ensures
            match typ.view() {
                TypeView::Bool => r is Ok && old(self).emits(final(self), op(Opcode::I32Or)),
                _ => r is Err && r->Err_0@ == "Cannot OR values of type "@ + typ.view().debug() && *final(self) == *old(self),
            },
    {
        match typ {
            Type::Bool => {
                self.write_opcode(Opcode::I32Or);
                Ok(())
            },
            _ => Err(type_message("Cannot OR values of type ", typ)),
        }
    }
}


impl Wasmizer {
    /// Everything but the function being compiled is as in `other`.
    pub open spec fn same_outside(&self, other: &Wasmizer) -> bool {
        &&& self.same_names(other)
        &&& self.builder() == other.builder()
        &&& self.builtins() == other.builtins()
        &&& self.structs() == other.structs()
        &&& self.frames().len() == other.frames().len()
        &&& forall|i: int| 0 <= i < other.frames().len() - 1 ==> #[trigger] self.frames()[i] == other.frames()[i]
    }

    /// Enters a scope that gives a value of the type. The outermost scope of
    /// a function is its body; every inner scope is a block.
    pub fn begin_scope(&mut self, typ: &Type) -> (r: Result<(), String>)
        requires
            old(self).frames().len() > 0,
            old(self).frames().last().locals.scope_depth < i32::MAX,
        ensures
            final(self).same_outside(old(self)),
            ({
                let f = old(self).frames().last();
                let g = final(self).frames().last();
                let depth = f.locals.scope_depth + 1;
                &&& g.name == f.name && g.signature == f.signature && g.params == f.params && g.export == f.export
                &&& g.locals.locals == f.locals.locals && g.locals.types == f.locals.types
                &&& g.locals.n_locals == f.locals.n_locals
                &&& g.locals.scope_depth == depth
                &&& depth <= 0 ==> r is Ok && g.bytes@ == f.bytes@
                &&& depth > 0 ==> match Numtype::spec_from_ast_type(*typ) {
                    Option::Some(nt) => r is Ok && g.bytes@ == f.bytes@ + op(Opcode::Block) + seq![nt.spec_byte()],
                    Option::None => r is Err && r->Err_0@ == numtype_error(*typ) && g.bytes@ == f.bytes@
                        + op(Opcode::Block),
                }
            }),
    {
        let n = self.frames.len();
        self.frames[n - 1].locals.scope_depth = self.frames[n - 1].locals.scope_depth + 1;
        if self.frames[n - 1].locals.scope_depth > 0 {
            self.write_opcode(Opcode::Block);
            let nt = Numtype::from_ast_type(typ)?;
            self.write_byte(nt.to_byte());
        }
        Ok(())
    }

    /// Leaves the current scope: ends its block unless it is the body of the
    /// function, and drops the locals declared in it, which are the last
    /// locals of a depth beyond the new one.
    #[verifier::spinoff_prover]
    #[verifier::rlimit(30)]
    pub fn end_scope(&mut self) -> (r: Result<(), String>)
        requires
            old(self).frames().len() > 0,
            old(self).frames().last().locals.scope_depth > i32::MIN,
        ensures
            r is Ok,
            final(self).same_outside(old(self)),
            ({
                let f = old(self).frames().last();
                let depth = f.locals.scope_depth - 1;
                let g = final(self).frames().last();
                let kept = g.locals.locals@.len();
                &&& g.name == f.name && g.signature == f.signature && g.params == f.params && g.export == f.export
                &&& g.bytes@ == if f.locals.scope_depth > 0 {
                    f.bytes@ + op(Opcode::End)
                } else {
                    f.bytes@
                }
                &&& g.locals.scope_depth == depth
                &&& g.locals.types == f.locals.types
                &&& g.locals.n_locals == f.locals.n_locals
                &&& kept <= f.locals.locals@.len()
                &&& g.locals.locals@ == f.locals.locals@.take(kept as int)
                &&& kept > 0 ==> g.locals.locals@[kept - 1].depth <= depth
                &&& forall|k: int| kept <= k < f.locals.locals@.len() ==> #[trigger] f.locals.locals@[k].depth > depth
            }),
    {
        let n = self.frames.len();
        let ghost s0 = *self;
        if self.frames[n - 1].locals.scope_depth > 0 {
            self.write_opcode(Opcode::End);
        }
        self.frames[n - 1].locals.scope_depth = self.frames[n - 1].locals.scope_depth - 1;
        let depth = self.frames[n - 1].locals.scope_depth;
        let ghost before = *self;
        let ghost start = self.frames@[n - 1].locals.locals@;
        loop
            invariant
                n == self.frames@.len(),
                n == before.frames@.len(),
                n > 0,
                self.same_outside(&before),
                self.frames@[n - 1].name == before.frames@[n - 1].name,
                self.frames@[n - 1].signature == before.frames@[n - 1].signature,
                self.frames@[n - 1].params == before.frames@[n - 1].params,
                self.frames@[n - 1].export == before.frames@[n - 1].export,
                self.frames@[n - 1].bytes == before.frames@[n - 1].bytes,
                self.frames@[n - 1].locals.scope_depth == depth,
                self.frames@[n - 1].locals.types == before.frames@[n - 1].locals.types,
                self.frames@[n - 1].locals.n_locals == before.frames@[n - 1].locals.n_locals,
                self.frames@[n - 1].locals.locals@.len() <= start.len(),
                self.frames@[n - 1].locals.locals@ == start.take(self.frames@[n - 1].locals.locals@.len() as int),
                forall|k: int|
                    self.frames@[n - 1].locals.locals@.len() <= k < start.len() ==> #[trigger] start[k].depth > depth,
            ensures
                n == self.frames@.len(),
                self.same_outside(&before),
                self.frames@[n - 1].name == before.frames@[n - 1].name,
                self.frames@[n - 1].signature == before.frames@[n - 1].signature,
                self.frames@[n - 1].params == before.frames@[n - 1].params,
                self.frames@[n - 1].export == before.frames@[n - 1].export,
                self.frames@[n - 1].bytes == before.frames@[n - 1].bytes,
                self.frames@[n - 1].locals.scope_depth == depth,
                self.frames@[n - 1].locals.types == before.frames@[n - 1].locals.types,
                self.frames@[n - 1].locals.n_locals == before.frames@[n - 1].locals.n_locals,
                self.frames@[n - 1].locals.locals@.len() <= start.len(),
                self.frames@[n - 1].locals.locals@ == start.take(self.frames@[n - 1].locals.locals@.len() as int),
                self.frames@[n - 1].locals.locals@.len() > 0 ==> self.frames@[n - 1].locals.locals@.last().depth
                    <= depth,
                forall|k: int|
                    self.frames@[n - 1].locals.locals@.len() <= k < start.len() ==> #[trigger] start[k].depth > depth,
            decreases self.frames@[n - 1].locals.locals@.len(),
        {
            let len = self.frames[n - 1].locals.locals.len();
            if len == 0 {
                break;
            }
            if self.frames[n - 1].locals.locals[len - 1].depth <= depth {
                break;
            }
            self.frames[n - 1].locals.locals.pop();
            assert(self.frames@[n - 1].locals.locals@ =~= start.take(len - 1));
        }
        Ok(())
    }

    /// Adds a parameter name to the function being compiled.
    pub fn add_param_name(&mut self, name: String)
        requires
            old(self).frames().len() > 0,
        ensures
            final(self).same_names(old(self)),
            ({
                let f = old(self).frames().last();
                &&& final(self).builder() == old(self).builder()
                &&& final(self).builtins() == old(self).builtins()
                &&& final(self).structs() == old(self).structs()
                &&& final(self).frames().len() == old(self).frames().len()
                &&& forall|i: int|
                    0 <= i < old(self).frames().len() - 1 ==> #[trigger] final(self).frames()[i] == old(
                        self,
                    ).frames()[i]
                &&& final(self).frames().last().params@ == f.params@.push(Param { name, global_shadow: Option::None })
                &&& final(self).frames().last().locals == f.locals
                &&& final(self).frames().last().bytes == f.bytes
                &&& final(self).frames().last().name == f.name
                &&& final(self).frames().last().signature == f.signature
                &&& final(self).frames().last().export == f.export
            }),
    {
        let n = self.frames.len();
        self.frames[n - 1].params.push(Param::new(name));
    }

    /// Declares a local variable of the type in the function being compiled,
    /// and returns its index, counting the parameters first.
    pub fn create_variable(&mut self, name: String, typ: &Type) -> (r: Result<u32, String>)
        requires
            old(self).frames().len() > 0,
            old(self).frames().last().locals.n_locals + old(self).frames().last().signature.args@.len() < u32::MAX,
        ensures
            match Numtype::spec_from_ast_type(*typ) {
                Option::None => r is Err && r->Err_0@ == numtype_error(*typ) && *final(self) == *old(self),
                Option::Some(nt) => {
                    let f = old(self).frames().last();
                    let g = final(self).frames().last();
                    &&& final(self).same_outside(old(self))
                    &&& r == Ok::<u32, String>((f.locals.n_locals + f.signature.args@.len()) as u32)
                    &&& g.name == f.name && g.signature == f.signature && g.params == f.params && g.export
                        == f.export && g.bytes == f.bytes
                    &&& g.locals.scope_depth == f.locals.scope_depth
                    &&& g.locals.n_locals == f.locals.n_locals + 1
                    &&& g.locals.locals@ == f.locals.locals@.push(
                        Local { name, depth: f.locals.scope_depth, index: f.locals.n_locals, global_shadow: Option::None },
                    )
                    &&& g.locals.types@ == f.locals.types@.push(nt.spec_byte())
                },
            },
    {
        let nt = Numtype::from_ast_type(typ)?;
        let n = self.frames.len();
        let idx = self.frames[n - 1].locals.add_local(name, nt.to_byte());
        let np = self.frames[n - 1].n_params();
        Ok(idx + np)
    }

    /// Stores the value on the stack in a local, leaving it on the stack.
    pub fn set_variable(&mut self, idx: u32, typ: &Type) -> (r: Result<(), String>)
        requires
            old(self).frames().len() > 0,
        ensures
            r is Ok,
            old(self).emits(final(self), op(Opcode::LocalTee) + spec_uleb128(idx as nat)),
    {
        let ghost s0 = *self;
        self.write_opcode(Opcode::LocalTee);
        let ghost s1 = *self;
        let bytes = unsigned_leb128(idx);
        self.write_slice(bytes.as_slice());
        proof {
            lemma_emits_trans(s0, s1, *self, op(Opcode::LocalTee), bytes@);
        }
        Ok(())
    }
}


impl Wasmizer {
    /// `next` is this state with `added` written at the end of the code of the
    /// function being compiled, the module aside.
    pub open spec fn emits_besides_module(&self, next: &Wasmizer, added: Seq<u8>) -> bool {
        &&& next.same_names(self)
        &&& next.builtins() == self.builtins()
        &&& next.structs() == self.structs()
        &&& next.frames().len() == self.frames().len()
        &&& forall|i: int| 0 <= i < self.frames().len() - 1 ==> #[trigger] next.frames()[i] == self.frames()[i]
        &&& same_but_code(next.frames().last(), self.frames().last())
        &&& next.code() == self.code() + added
    }

    /// Starts compiling a function of the given argument and result types;
    /// every one of them must have a value type.
    pub fn init_func(&mut self, name: String, argtypes: &[Type], rettype: &Type, export: bool) -> (r: Result<
        (),
        String,
    >)
        ensures
            final(self).same_names(old(self)),
            (forall|i: int| 0 <= i < argtypes@.len() ==> #[trigger] Numtype::spec_from_ast_type(argtypes@[i]) is Some)
                && Numtype::spec_from_ast_type(*rettype) is Some ==> {
                let f = final(self).frames().last();
                &&& r is Ok
                &&& final(self).builder() == old(self).builder()
                &&& final(self).builtins() == old(self).builtins()
                &&& final(self).structs() == old(self).structs()
                &&& final(self).frames().drop_last() == old(self).frames()
                &&& f.name == name
                &&& f.signature.args@ == argtypes@.map_values(|t: Type| Numtype::spec_from_ast_type(t)->0)
                &&& f.signature.ret == Option::Some(Numtype::spec_from_ast_type(*rettype)->0)
                &&& f.params@.len() == 0
                &&& f.locals.locals@.len() == 0
                &&& f.locals.types@.len() == 0
                &&& f.locals.scope_depth == -1
                &&& f.locals.n_locals == 0
                &&& f.bytes@.len() == 0
                &&& f.export == export
            },
            !((forall|i: int| 0 <= i < argtypes@.len() ==> #[trigger] Numtype::spec_from_ast_type(argtypes@[i]) is Some)
                && Numtype::spec_from_ast_type(*rettype) is Some) ==> r is Err && *final(self) == *old(self),
    {
        let mut args: Vec<Numtype> = Vec::new();
        let mut i: usize = 0;
        while i < argtypes.len()
            invariant
                0 <= i <= argtypes@.len(),
                args@ == argtypes@.take(i as int).map_values(|t: Type| Numtype::spec_from_ast_type(t)->0),
                forall|j: int| 0 <= j < i ==> #[trigger] Numtype::spec_from_ast_type(argtypes@[j]) is Some,
            decreases argtypes@.len() - i,
        {
            let nt = Numtype::from_ast_type(&argtypes[i])?;
            args.push(nt);
            assert(args@ =~= argtypes@.take(i + 1).map_values(|t: Type| Numtype::spec_from_ast_type(t)->0));
            i = i + 1;
        }
        assert(argtypes@.take(argtypes@.len() as int) =~= argtypes@);
        let ret = Numtype::from_ast_type(rettype)?;
        let func = WasmFunc::new(name, FuncTypeSignature::new(args, Option::Some(ret)), export);
        self.frames.push(func);
        assert(self.frames@.drop_last() =~= old(self).frames@);
        Ok(())
    }

    /// Finishes the function being compiled: ends its code and adds it to the
    /// module, exported under its name when it is to be exported.
    #[verifier::spinoff_prover]
    #[verifier::rlimit(30)]
    pub fn finish_func(&mut self) -> (r: Result<u32, String>)
        requires
            old(self).frames().len() > 0,
            old(self).builder().wf(),
            old(self).builder().functype_keys().len() < u32::MAX,
        ensures
            final(self).same_names(old(self)),
            ({
                let f = old(self).frames().last();
                let m0 = old(self).builder();
                let m1 = final(self).builder();
                let idx = (m0.imports_view().len() + m0.funcs_view().len()) as u32;
                let ftype = ModuleBuilder::spec_functype_idx(m0.functype_keys(), sig_key(f.signature));
                &&& final(self).builtins() == old(self).builtins()
                &&& final(self).structs() == old(self).structs()
                &&& final(self).frames() == old(self).frames().drop_last()
                &&& m1.wf()
                &&& m1.functype_keys() == ftype.1
                &&& m1.imports_view() == m0.imports_view()
                &&& m1.data_view() == m0.data_view()
                &&& m1.globals_view() == m0.globals_view()
                &&& m0.imports_view().len() + m0.funcs_view().len() == u32::MAX ==> {
                    &&& r is Err && r->Err_0@ == "too many functions"@
                    &&& m1.funcs_view() == m0.funcs_view()
                    &&& m1.bodies_view() == m0.bodies_view()
                    &&& m1.exports_view() == m0.exports_view()
                }
                &&& m0.imports_view().len() + m0.funcs_view().len() < u32::MAX ==> {
                    &&& r == Ok::<u32, String>(idx)
                    &&& m1.funcs_view() == m0.funcs_view().push(ftype.0 as u32)
                    &&& m1.bodies_view() == m0.bodies_view().push(
                        spec_function_body(f.locals.types@, f.bytes@ + op(Opcode::End)),
                    )
                    &&& m1.exports_view() == if f.export {
                        m0.exports_view().push((f.name@, idx, ExportType::Func))
                    } else {
                        m0.exports_view()
                    }
                }
            }),
    {
        let n = self.frames.len();
        self.frames[n - 1].bytes.push(Opcode::End.to_byte());
        let export_name = if self.frames[n - 1].export {
            Option::Some(self.frames[n - 1].name.clone())
        } else {
            Option::None
        };
        let func = self.frames.pop().unwrap();
        assert(self.frames@ =~= old(self).frames@.drop_last());
        assert(func.bytes@ =~= old(self).frames().last().bytes@ + op(Opcode::End));
        assert(func.signature == old(self).frames().last().signature);
        assert(func.locals == old(self).frames().last().locals);
        self.builder.add_function(&func.signature, func.locals.types, func.bytes, export_name)
    }

    /// The module compiled so far, in the binary format.
    pub fn to_bytes(&self) -> (r: Vec<u8>)
        requires
            self.builder().wf(),
        ensures
            r@ == self.builder().spec_program(),
    {
        self.builder.program()
    }

    /// Pushes the index of the last defined function as a constant.
    pub fn write_last_func_index(&mut self)
        requires
            old(self).frames().len() > 0,
            old(self).builder().funcs_view().len() <= i32::MAX,
        ensures
            old(self).emits(
                final(self),
                op(Opcode::I32Const) + spec_sleb128(
                    old(self).builder().funcs_view().len() - 1,
                ),
            ),
    {
        let idx: i32 = self.builder.n_funcs() as i32 - 1;
        let ghost s0 = *self;
        self.write_opcode(Opcode::I32Const);
        let ghost s1 = *self;
        let bytes = signed_leb128(idx);
        self.write_slice(bytes.as_slice());
        proof {
            lemma_emits_trans(s0, s1, *self, op(Opcode::I32Const), bytes@);
        }
    }

    /// Calls a function value of the given function type through the table.
    pub fn call_indirect(&mut self, typ: &Type) -> (r: Result<(), String>)
        requires
            old(self).frames().len() > 0,
            old(self).builder().wf(),
            old(self).builder().functype_keys().len() < u32::MAX,
        ensures
            match FuncTypeSignature::spec_from_ast_type(*typ) {
                Option::None => r is Err && *final(self) == *old(self),
                Option::Some((args, ret)) => {
                    let (idx, keys) = ModuleBuilder::spec_functype_idx(
                        old(self).builder().functype_keys(),
                        (args, Option::Some(ret)),
                    );
                    &&& r is Ok
                    &&& final(self).builder().wf()
                    &&& final(self).builder().same_but_types(&old(self).builder())
                    &&& final(self).builder().functype_keys() == keys
                    &&& old(self).emits_besides_module(
                        final(self),
                        op(Opcode::CallIndirect) + spec_uleb128(idx as nat) + seq![0x00u8],
                    )
                },
            },
    {
        let sig = FuncTypeSignature::from_ast_type(typ)?;
        let idx = self.builder.get_functype_idx(&sig);
        let ghost s0 = *self;
        self.write_opcode(Opcode::CallIndirect);
        let bytes = unsigned_leb128(idx);
        self.write_slice(bytes.as_slice());
        self.write_byte(0x00);
        assert(self.code() =~= s0.code() + (op(Opcode::CallIndirect) + bytes@ + seq![0x00u8]));
        Ok(())
    }

    /// Turns the last constant pushed, a function index of one byte, into a
    /// direct call of that function.
    pub fn call(&mut self) -> (r: Result<(), String>)
        requires
            old(self).frames().len() > 0,
            old(self).code().len() >= 2,
        ensures
            r is Ok,
            final(self).same_outside(old(self)),
            same_but_code(final(self).frames().last(), old(self).frames().last()),
            final(self).code() == old(self).code().drop_last().drop_last() + op(Opcode::Call) + seq![
                old(self).code().last(),
            ],
    {
        let n = self.frames.len();
        let fn_idx = self.frames[n - 1].bytes.pop().unwrap();
        self.frames[n - 1].bytes.pop();
        self.write_opcode(Opcode::Call);
        self.write_byte(fn_idx);
        Ok(())
    }

    /// Reads the entry of an array: the array's fat pointer and the index are
    /// on the stack.
    pub fn get_array_entry(&mut self, array_type: &Type) -> (r: Result<(), String>)
        requires
            old(self).frames().len() > 0,
        ensures
            match Numtype::spec_from_ast_type(*array_type) {
                Option::None => r is Err && r->Err_0@ == numtype_error(*array_type) && *final(self)
                    == *old(self),
                Option::Some(nt) => {
                    let head = op(Opcode::I32Const) + seq![nt.spec_size() as u8] + op(Opcode::I32Mul);
                    let getter = if nt == Numtype::I32 {
                        "get_i32_field"@
                    } else if nt == Numtype::I64 {
                        "get_i64_field"@
                    } else {
                        "get_f32_field"@
                    };
                    match old(self).builtin_idx(getter) {
                        Option::Some(i) => r is Ok && old(self).emits(
                            final(self),
                            head + (op(Opcode::Call) + spec_uleb128(i as nat)),
                        ),
                        Option::None => r is Err && old(self).emits(final(self), head),
                    }
                },
            },
    {
        let nt = Numtype::from_ast_type(array_type)?;
        let ghost s0 = *self;
        self.write_opcode(Opcode::I32Const);
        let ghost sa = *self;
        self.write_byte(nt.size() as u8);
        let ghost sb = *self;
        self.write_opcode(Opcode::I32Mul);
        let ghost s1 = *self;
        proof {
            lemma_emits_trans(s0, sa, sb, op(Opcode::I32Const), seq![nt.spec_size() as u8]);
            lemma_emits_trans(s0, sb, s1, op(Opcode::I32Const) + seq![nt.spec_size() as u8], op(Opcode::I32Mul));
        }
        let r = match nt {
            Numtype::I32 => self.call_builtin("get_i32_field"),
            Numtype::I64 => self.call_builtin("get_i64_field"),
            _ => self.call_builtin("get_f32_field"),
        };
        proof {
            if r is Ok {
                let i = s1.builtin_idx(
                    if nt == Numtype::I32 {
                        "get_i32_field"@
                    } else if nt == Numtype::I64 {
                        "get_i64_field"@
                    } else {
                        "get_f32_field"@
                    },
                )->0;
                lemma_emits_trans(
                    s0,
                    s1,
                    *self,
                    op(Opcode::I32Const) + seq![nt.spec_size() as u8] + op(Opcode::I32Mul),
                    op(Opcode::Call) + spec_uleb128(i as nat),
                );
            }
        }
        r
    }
}


/// The functions every module starts with: their names, signatures, and
/// bodies.
pub open spec fn start_builtins() -> Seq<(Seq<char>, (Seq<Numtype>, Option<Numtype>), Seq<u8>)> {
    seq![
        (
            "alloc"@,
            (seq![Numtype::I32], Option::Some(Numtype::I32)),
            spec_function_body(numtype_bytes(seq![Numtype::I32, Numtype::I32]), spec_alloc_code()),
        ),
        (
            "concat_heap_objs"@,
            (seq![Numtype::I64, Numtype::I64], Option::Some(Numtype::I64)),
            spec_function_body(
                numtype_bytes(seq![Numtype::I32, Numtype::I32, Numtype::I32, Numtype::I32]),
                spec_concat_heap_objs_code(),
            ),
        ),
        (
            "heap_objs_equal"@,
            (seq![Numtype::I64, Numtype::I64], Option::Some(Numtype::I32)),
            spec_function_body(
                numtype_bytes(
                    seq![Numtype::I32, Numtype::I32, Numtype::I32, Numtype::I32, Numtype::I32, Numtype::I32],
                ),
                spec_heap_objs_equal_code(),
            ),
        ),
        (
            "get_i32_field"@,
            (seq![Numtype::I64, Numtype::I32], Option::Some(Numtype::I32)),
            spec_function_body(numtype_bytes(seq![Numtype::I32]), spec_get_i32_field_code()),
        ),
        (
            "get_f32_field"@,
            (seq![Numtype::I64, Numtype::I32], Option::Some(Numtype::F32)),
            spec_function_body(numtype_bytes(seq![Numtype::I32]), spec_get_f32_field_code()),
        ),
        (
            "get_i64_field"@,
            (seq![Numtype::I64, Numtype::I32], Option::Some(Numtype::I64)),
            spec_function_body(numtype_bytes(seq![Numtype::I32]), spec_get_i64_field_code()),
        ),
    ]
}

/// The first `i` imports are in the module, each with the index of its
/// signature.
pub open spec fn imports_registered(m: ModuleBuilder, imports: Seq<Import>, i: int) -> bool {
    forall|j: int|
        #![trigger imports[j]]
        0 <= j < i ==> {
            &&& m.functype_keys().index_of_first(sig_key(imports[j].sig)) is Some
            &&& m.imports_view()[j] == spec_import(
                imports[j].module@,
                imports[j].field@,
                m.functype_keys().index_of_first(sig_key(imports[j].sig))->0 as u32,
            )
        }
}

/// The signatures of the imported functions, in order.
pub open spec fn import_keys(imports: Seq<Import>) -> Seq<(Seq<Numtype>, Option<Numtype>)> {
    imports.map_values(|i: Import| sig_key(i.sig))
}

/// The first `k` starting functions are in the module, each with the index
/// of its signature and its body.
pub open spec fn builtins_registered(m: ModuleBuilder, k: int) -> bool {
    forall|q: int|
        #![trigger start_builtins()[q]]
        0 <= q < k ==> {
            &&& m.functype_keys().index_of_first(start_builtins()[q].1) == Option::Some(m.funcs_view()[q] as int)
            &&& m.bodies_view()[q] == start_builtins()[q].2
        }
}

/// The functions every module starts with, built.
#[verifier::spinoff_prover]
#[verifier::rlimit(30)]
fn start_builtin_funcs() -> (r: Vec<(&'static str, BuiltinFunc)>)
    ensures
        r@.len() == start_builtins().len(),
        forall|k: int|
            0 <= k < r@.len() ==> {
                &&& (#[trigger] r@[k]).0@ == start_builtins()[k].0
                &&& (r@[k].1.sig_args(), r@[k].1.sig_ret()) == start_builtins()[k].1
                &&& spec_function_body(numtype_bytes(r@[k].1.spec_local_types()), r@[k].1.code())
                    == start_builtins()[k].2
            },
{
    let mut r: Vec<(&'static str, BuiltinFunc)> = Vec::new();
    r.push(("alloc", define_builtin_alloc()));
    r.push(("concat_heap_objs", define_builtin_concat_heap_objs()));
    r.push(("heap_objs_equal", define_builtin_heap_objs_equal()));
    r.push(("get_i32_field", define_builtin_get_i32_field()));
    r.push(("get_f32_field", define_builtin_get_f32_field()));
    r.push(("get_i64_field", define_builtin_get_i64_field()));
    r
}

impl Wasmizer {
    /// A compiler for a module that imports the functions of the environment,
    /// each registered under its field, and starts with the functions of
    /// `start_builtins`, registered under their names after the imports. The
    /// types and global variables of the environment are kept as they are.
    #[verifier::spinoff_prover]
    #[verifier::rlimit(30)]
    pub fn new(global_env: Env) -> (r: Result<Wasmizer, String>)
        requires
            global_env.imports@.len() + 6 < u32::MAX,
        ensures
            r is Ok,
            ({
                let w = r->Ok_0;
                let imports = global_env.imports;
                let n = imports@.len();
                let m = w.builder();
                &&& w.types() == global_env.global_types
                &&& w.globals() == global_env.global_vars
                &&& m.wf()
                &&& m.functype_keys() == registered_keys(
                    Seq::empty(),
                    import_keys(imports@) + start_builtins().map_values(
                        |b: (Seq<char>, (Seq<Numtype>, Option<Numtype>), Seq<u8>)| b.1,
                    ),
                )
                &&& w.frames().len() == 0
                &&& w.structs().len() == 0
                &&& w.builtins() == Seq::new(n, |i: int| (imports@[i].field@, i as u32)) + Seq::new(
                    start_builtins().len(),
                    |k: int| (start_builtins()[k].0, (n + k) as u32),
                )
                &&& m.imports_view().len() == n
                &&& imports_registered(m, imports@, n as int)
                &&& m.funcs_view().len() == start_builtins().len()
                &&& m.bodies_view().len() == start_builtins().len()
                &&& builtins_registered(m, start_builtins().len() as int)
                &&& m.exports_view() == seq![("memory"@, 0u32, ExportType::Memory)]
                &&& m.data_view().len() == 0
                &&& m.globals_view() == seq![(Numtype::I32, true, 0u32), (Numtype::I32, true, 1u32)]
            }),
    {
        let Env { global_vars, global_types, imports } = global_env;
        let mut builder = ModuleBuilder::default();
        let mut builtins: Vec<(String, u32)> = Vec::new();
        let ghost n = imports@.len();
        let mut i: usize = 0;
        while i < imports.len()
            invariant
                n == imports@.len(),
                n + 6 < u32::MAX,
                0 <= i <= n,
                builder.wf(),
                builder.functype_keys().len() <= i,
                builder.functype_keys() == registered_keys(Seq::empty(), import_keys(imports@).take(i as int)),
                builder.funcs_view().len() == 0,
                builder.bodies_view().len() == 0,
                builder.imports_view().len() == i,
                builder.exports_view() == seq![("memory"@, 0u32, ExportType::Memory)],
                builder.data_view().len() == 0,
                builder.globals_view() == seq![(Numtype::I32, true, 0u32), (Numtype::I32, true, 1u32)],
                builtins@.map_values(|b: (String, u32)| (b.0@, b.1)) == Seq::new(
                    i as nat,
                    |j: int| (imports@[j].field@, j as u32),
                ),
                imports_registered(builder, imports@, i as int),
            decreases n - i,
        {
            let ghost m0 = builder;
            proof {
                lemma_wf_bounds(m0);
            }
            let idx = builder.add_import(&imports[i]);
            let ghost key = sig_key(imports@[i as int].sig);
            let ghost ft = ModuleBuilder::spec_functype_idx(m0.functype_keys(), key).0;
            proof {
                let ik = import_keys(imports@);
                assert(ik.take(i + 1).drop_last() =~= ik.take(i as int));
                assert(ik.take(i + 1).last() == key);
                lemma_functype_idx_keeps(m0.functype_keys(), key, key);
                assert(builder.imports_view()[i as int] == spec_import(
                    imports@[i as int].module@,
                    imports@[i as int].field@,
                    ft as u32,
                ));
                assert forall|j: int| #![trigger imports@[j]] 0 <= j < i + 1 implies {
                    &&& builder.functype_keys().index_of_first(sig_key(imports@[j].sig)) is Some
                    &&& builder.imports_view()[j] == spec_import(
                        imports@[j].module@,
                        imports@[j].field@,
                        builder.functype_keys().index_of_first(sig_key(imports@[j].sig))->0 as u32,
                    )
                } by {
                    lemma_functype_idx_keeps(m0.functype_keys(), key, sig_key(imports@[j].sig));
                    if j < i {
                        assert(m0.imports_view()[j] == spec_import(
                            imports@[j].module@,
                            imports@[j].field@,
                            m0.functype_keys().index_of_first(sig_key(imports@[j].sig))->0 as u32,
                        ));
                        assert(builder.imports_view()[j] == m0.imports_view()[j]);
                    }
                }
                assert(imports_registered(builder, imports@, i + 1));
            }
            let ghost prev = builtins@;
            let field = String::from_str(imports[i].field);
            builtins.push((field, idx));
            proof {
                assert(builtins@ == prev.push((field, idx)));
                assert(idx == i);
                assert(builtins@.map_values(|b: (String, u32)| (b.0@, b.1)) =~= prev.map_values(
                    |b: (String, u32)| (b.0@, b.1),
                ).push((imports@[i as int].field@, i as u32)));
            }
            assert(builtins@.map_values(|b: (String, u32)| (b.0@, b.1)) =~= Seq::new(
                (i + 1) as nat,
                |j: int| (imports@[j].field@, j as u32),
            ));
            i = i + 1;
        }
        let table = start_builtin_funcs();
        let ghost imported = builtins@.map_values(|b: (String, u32)| (b.0@, b.1));
        let ghost bt = start_builtins();
        proof {
            let ik = import_keys(imports@);
            let bk = bt.map_values(|b: (Seq<char>, (Seq<Numtype>, Option<Numtype>), Seq<u8>)| b.1);
            assert(ik.take(n as int) =~= ik);
            assert(ik + bk.take(0) =~= ik);
        }
        let mut k: usize = 0;
        while k < table.len()
            invariant
                n == imports@.len(),
                n + 6 < u32::MAX,
                table@.len() == bt.len(),
                bt == start_builtins(),
                forall|q: int|
                    0 <= q < table@.len() ==> {
                        &&& (#[trigger] table@[q]).0@ == bt[q].0
                        &&& (table@[q].1.sig_args(), table@[q].1.sig_ret()) == bt[q].1
                        &&& spec_function_body(numtype_bytes(table@[q].1.spec_local_types()), table@[q].1.code())
                            == bt[q].2
                    },
                0 <= k <= table@.len(),
                builder.wf(),
                builder.functype_keys().len() <= n + k,
                builder.functype_keys() == registered_keys(
                    Seq::empty(),
                    import_keys(imports@) + bt.map_values(
                        |b: (Seq<char>, (Seq<Numtype>, Option<Numtype>), Seq<u8>)| b.1,
                    ).take(k as int),
                ),
                builder.funcs_view().len() == k,
                builder.bodies_view().len() == k,
                builder.imports_view().len() == n,
                builder.exports_view() == seq![("memory"@, 0u32, ExportType::Memory)],
                builder.data_view().len() == 0,
                builder.globals_view() == seq![(Numtype::I32, true, 0u32), (Numtype::I32, true, 1u32)],
                imported == Seq::new(n, |j: int| (imports@[j].field@, j as u32)),
                builtins@.map_values(|b: (String, u32)| (b.0@, b.1)) == imported + Seq::new(
                    k as nat,
                    |q: int| (bt[q].0, (n + q) as u32),
                ),
                imports_registered(builder, imports@, n as int),
                builtins_registered(builder, k as int),
            decreases table@.len() - k,
        {
            let ghost m0 = builder;
            proof {
                lemma_wf_bounds(m0);
            }
            proof {
                assert((table@[k as int]).0@ == bt[k as int].0);
            }
            let idx = builder.add_builtin(&table[k].1)?;
            let ghost key = bt[k as int].1;
            let ghost ft = ModuleBuilder::spec_functype_idx(m0.functype_keys(), key).0;
            proof {
                let ik = import_keys(imports@);
                let bk = bt.map_values(|b: (Seq<char>, (Seq<Numtype>, Option<Numtype>), Seq<u8>)| b.1);
                assert((ik + bk.take(k + 1)).drop_last() =~= ik + bk.take(k as int));
                assert((ik + bk.take(k + 1)).last() == key);
                assert forall|j: int| #![trigger imports@[j]] 0 <= j < n implies {
                    &&& builder.functype_keys().index_of_first(sig_key(imports@[j].sig)) is Some
                    &&& builder.imports_view()[j] == spec_import(
                        imports@[j].module@,
                        imports@[j].field@,
                        builder.functype_keys().index_of_first(sig_key(imports@[j].sig))->0 as u32,
                    )
                } by {
                    lemma_functype_idx_keeps(m0.functype_keys(), key, sig_key(imports@[j].sig));
                    assert(m0.imports_view()[j] == spec_import(
                        imports@[j].module@,
                        imports@[j].field@,
                        m0.functype_keys().index_of_first(sig_key(imports@[j].sig))->0 as u32,
                    ));
                }
                assert(imports_registered(builder, imports@, n as int));
                lemma_functype_idx_keeps(m0.functype_keys(), key, key);
                assert forall|q: int| #![trigger start_builtins()[q]] 0 <= q < k + 1 implies {
                    &&& builder.functype_keys().index_of_first(start_builtins()[q].1) == Option::Some(
                        builder.funcs_view()[q] as int,
                    )
                    &&& builder.bodies_view()[q] == start_builtins()[q].2
                } by {
                    lemma_functype_idx_keeps(m0.functype_keys(), key, start_builtins()[q].1);
                    m0.functype_keys().index_of_first_ensures(key);
                    if q == k {
                        assert(builder.funcs_view()[q] == ft as u32);
                        assert(0 <= ft <= m0.functype_keys().len());
                    }
                    if q < k {
                        assert(m0.functype_keys().index_of_first(start_builtins()[q].1) == Option::Some(
                            m0.funcs_view()[q] as int,
                        ));
                        assert(builder.funcs_view()[q] == m0.funcs_view()[q]);
                    }
                }
                assert(builtins_registered(builder, k + 1));
            }
            let ghost prev = builtins@;
            let name = String::from_str(table[k].0);
            builtins.push((name, idx));
            proof {
                assert(builtins@ == prev.push((name, idx)));
                assert(idx == n + k);
                assert(builtins@.map_values(|b: (String, u32)| (b.0@, b.1)) =~= prev.map_values(
                    |b: (String, u32)| (b.0@, b.1),
                ).push((bt[k as int].0, (n + k) as u32)));
            }
            assert(builtins@.map_values(|b: (String, u32)| (b.0@, b.1)) =~= imported + Seq::new(
                (k + 1) as nat,
                |q: int| (bt[q].0, (n + q) as u32),
            ));
            k = k + 1;
        }
        proof {
            let bk = bt.map_values(|b: (Seq<char>, (Seq<Numtype>, Option<Numtype>), Seq<u8>)| b.1);
            assert(bk.take(k as int) =~= bk);
        }
        let w = Wasmizer {
            typecontext: global_types,
            global_vars,
            builder,
            frames: Vec::new(),
            builtins,
            structs: Vec::new(),
        };
        assert(w.structs() =~= Seq::<(Seq<char>, Struct)>::empty());
        Ok(w)
    }
}


/// The code that stores the value on the stack at `memptr` and moves
/// `memptr` on by the size of the value.
pub open spec fn spec_to_memory(memptr: Seq<u8>, value: Seq<u8>, store_op: Opcode, memsize: u8) -> Seq<u8> {
    op(Opcode::LocalSet) + value + op(Opcode::LocalGet) + memptr + op(Opcode::LocalGet) + value + seq![
        store_op.spec_byte(),
    ] + seq![0x02u8, 0x00u8] + op(Opcode::LocalGet) + memptr + op(Opcode::I32Const) + seq![memsize] + op(
        Opcode::I32Add,
    ) + op(Opcode::LocalSet) + memptr
}

/// The code that builds an array of `len` values of a value type from the
/// stack once `alloc` has given its start: the start is kept, each value is
/// stored in turn, and the fat pointer is built.
pub open spec fn spec_array_tail(
    len: u16,
    nt: Numtype,
    startptr: Seq<u8>,
    memptr: Seq<u8>,
    value: Seq<u8>,
) -> Seq<u8> {
    let size = (len * nt.spec_size()) as u32;
    op(Opcode::LocalTee) + startptr + op(Opcode::LocalSet) + memptr + concat_chunks(
        Seq::new(len as nat, |i: int| spec_to_memory(memptr, value, nt.spec_store_op(), nt.spec_size() as u8)),
    ) + op(Opcode::LocalGet) + startptr + op(Opcode::I64ExtendI32U) + op(Opcode::I64Const) + seq![32u8] + op(
        Opcode::I64Shl,
    ) + op(Opcode::I64Const) + spec_sleb128(size as int) + op(Opcode::I64Add)
}

impl Wasmizer {
    /// Declares a local in the function being compiled and returns the bytes
    /// of its index, counting the parameters first.
    fn add_local(&mut self, name: &str, numtype: Numtype) -> (r: Vec<u8>)
        requires
            old(self).frames().len() > 0,
            old(self).frames().last().locals.n_locals + old(self).frames().last().signature.args@.len() < u32::MAX,
        ensures
            final(self).same_outside(old(self)),
            ({
                let f = old(self).frames().last();
                let g = final(self).frames().last();
                &&& r@ == spec_uleb128((f.locals.n_locals + f.signature.args@.len()) as nat)
                &&& g.name == f.name && g.signature == f.signature && g.params == f.params && g.export == f.export
                    && g.bytes == f.bytes
                &&& g.locals.scope_depth == f.locals.scope_depth
                &&& g.locals.n_locals == f.locals.n_locals + 1
                &&& g.locals.locals@.len() == f.locals.locals@.len() + 1
                &&& g.locals.locals@.drop_last() == f.locals.locals@
                &&& g.locals.locals@.last().name@ == name@
                &&& g.locals.locals@.last().depth == f.locals.scope_depth
                &&& g.locals.locals@.last().index == f.locals.n_locals
                &&& g.locals.locals@.last().global_shadow is None
                &&& g.locals.types@ == f.locals.types@.push(numtype.spec_byte())
            }),
    {
        let n = self.frames.len();
        let idx = self.frames[n - 1].locals.add_local(String::from_str(name), numtype.to_byte());
        let np = self.frames[n - 1].n_params();
        assert(self.frames@[n - 1].locals.locals@.drop_last() =~= old(self).frames@[n - 1].locals.locals@);
        unsigned_leb128(idx + np)
    }

    /// Stores the value on the stack at `memptr` and moves `memptr` on.
    #[verifier::spinoff_prover]
    #[verifier::rlimit(30)]
    fn write_to_memory(&mut self, memptr_idx: &[u8], value_idx: &[u8], store_op: Opcode, memsize: u8) -> (r: Result<
        (),
        String,
    >)
        requires
            old(self).frames().len() > 0,
        ensures
            r is Ok,
            old(self).emits(final(self), spec_to_memory(memptr_idx@, value_idx@, store_op, memsize)),
    {
        let ghost s0 = *self;
        self.write_opcode(Opcode::LocalSet);
        self.write_slice(value_idx);
        self.write_opcode(Opcode::LocalGet);
        self.write_slice(memptr_idx);
        self.write_opcode(Opcode::LocalGet);
        self.write_slice(value_idx);
        self.write_byte(store_op.to_byte());
        self.write_byte(0x02);
        self.write_byte(0x00);
        self.write_opcode(Opcode::LocalGet);
        self.write_slice(memptr_idx);
        self.write_opcode(Opcode::I32Const);
        self.write_byte(memsize);
        self.write_opcode(Opcode::I32Add);
        self.write_opcode(Opcode::LocalSet);
        self.write_slice(memptr_idx);
        assert(self.code() =~= s0.code() + spec_to_memory(memptr_idx@, value_idx@, store_op, memsize));
        Ok(())
    }

    /// Builds an array from the `len` values on top of the stack, the first
    /// value deepest, and leaves its fat pointer.
    #[verifier::spinoff_prover]
    #[verifier::rlimit(30)]
    pub fn write_array(&mut self, len: u16, typ: &Type) -> (r: Result<(), String>)
        requires
            old(self).frames().len() > 0,
            old(self).frames().last().locals.n_locals + old(self).frames().last().signature.args@.len() + 3
                < u32::MAX,
        ensures
            match Numtype::spec_from_ast_type(*typ) {
                Option::None => r is Err && r->Err_0@ == numtype_error(*typ) && *final(self) == *old(self),
                Option::Some(nt) => {
                    let f = old(self).frames().last();
                    let g = final(self).frames().last();
                    let base = f.locals.n_locals + f.signature.args@.len();
                    let startptr = spec_uleb128(base as nat);
                    let memptr = spec_uleb128((base + 1) as nat);
                    let value = spec_uleb128((base + 2) as nat);
                    let size = (len * nt.spec_size()) as u32;
                    &&& final(self).same_outside(old(self))
                    &&& g.name == f.name && g.signature == f.signature && g.params == f.params && g.export
                        == f.export
                    &&& g.locals.scope_depth == f.locals.scope_depth
                    &&& g.locals.n_locals == f.locals.n_locals + 3
                    &&& g.locals.types@ == f.locals.types@ + seq![
                        Numtype::I32.spec_byte(),
                        Numtype::I32.spec_byte(),
                        nt.spec_byte(),
                    ]
                    &&& g.locals.locals@.len() == f.locals.locals@.len() + 3
                    &&& g.locals.locals@.take(f.locals.locals@.len() as int) == f.locals.locals@
                    &&& match old(self).builtin_idx("alloc"@) {
                        Option::None => r is Err && g.bytes@ == f.bytes@ + op(Opcode::I32Const) + const_imm(size),
                        Option::Some(alloc) => r is Ok && g.bytes@ == f.bytes@ + op(Opcode::I32Const) + const_imm(size) + (op(Opcode::Call) + spec_uleb128(alloc as nat)) + spec_array_tail(
                            len,
                            nt,
                            startptr,
                            memptr,
                            value,
                        ),
                    }
                },
            },
    {
        let nt = Numtype::from_ast_type(typ)?;
        let ghost f = self.frames@.last();
        let startptr_idx = self.add_local("<startptr>", Numtype::I32);
        let ghost f1 = self.frames@.last();
        let memptr_idx = self.add_local("<memptr>", Numtype::I32);
        let ghost f2 = self.frames@.last();
        let value_idx = self.add_local("<value>", nt);
        let ghost f3 = self.frames@.last();
        proof {
            assert(f3.locals.types@ =~= f.locals.types@ + seq![
                Numtype::I32.spec_byte(),
                Numtype::I32.spec_byte(),
                nt.spec_byte(),
            ]);
            assert(f3.locals.locals@.take(f.locals.locals@.len() as int) =~= f.locals.locals@) by {
                assert(f3.locals.locals@.drop_last() == f2.locals.locals@);
                assert(f2.locals.locals@.drop_last() == f1.locals.locals@);
                assert(f1.locals.locals@.drop_last() == f.locals.locals@);
            }
        }
        let memsize = nt.size();
        let size: u32 = len as u32 * memsize;
        let ghost s0 = *self;
        self.write_opcode(Opcode::I32Const);
        let size_bytes = i32_const_imm(size);
        self.write_slice(size_bytes.as_slice());
        let ghost s1 = *self;
        self.call_builtin("alloc")?;
        let ghost s2 = *self;
        self.write_opcode(Opcode::LocalTee);
        self.write_slice(startptr_idx.as_slice());
        self.write_opcode(Opcode::LocalSet);
        self.write_slice(memptr_idx.as_slice());
        let store_op = match nt {
            Numtype::I32 => Opcode::I32Store,
            Numtype::F32 => Opcode::F32Store,
            _ => Opcode::I64Store,
        };
        let ghost head = self.code();
        let ghost piece = spec_to_memory(memptr_idx@, value_idx@, nt.spec_store_op(), nt.spec_size() as u8);
        let mut k: u16 = 0;
        while k < len
            invariant
                self.frames@.len() > 0,
                self.same_outside(&s1),
                same_but_code(self.frames@.last(), s1.frames@.last()),
                0 <= k <= len,
                piece == spec_to_memory(memptr_idx@, value_idx@, nt.spec_store_op(), nt.spec_size() as u8),
                store_op == nt.spec_store_op(),
                memsize == nt.spec_size(),
                self.code() == head + concat_chunks(Seq::new(k as nat, |i: int| piece)),
            decreases len - k,
        {
            self.write_to_memory(memptr_idx.as_slice(), value_idx.as_slice(), store_op, memsize as u8);
            proof {
                assert(Seq::new((k + 1) as nat, |i: int| piece).drop_last() =~= Seq::new(k as nat, |i: int| piece));
            }
            k = k + 1;
        }
        let ghost mid = self.code();
        self.write_opcode(Opcode::LocalGet);
        self.write_slice(startptr_idx.as_slice());
        self.write_opcode(Opcode::I64ExtendI32U);
        self.write_opcode(Opcode::I64Const);
        self.write_byte(32);
        self.write_opcode(Opcode::I64Shl);
        self.write_opcode(Opcode::I64Const);
        let size_wide = signed_leb128_wide(size as i64);
        self.write_slice(size_wide.as_slice());
        self.write_opcode(Opcode::I64Add);
        proof {
            assert(Seq::new(len as nat, |i: int| piece) =~= Seq::new(
                len as nat,
                |i: int| spec_to_memory(memptr_idx@, value_idx@, nt.spec_store_op(), nt.spec_size() as u8),
            ));
            assert(self.code() =~= s2.code() + spec_array_tail(len, nt, startptr_idx@, memptr_idx@, value_idx@));
        }
        Ok(())
    }
}


impl Wasmizer {
    /// `next` is this state with `added` written at the end of the code of the
    /// function being compiled, the module and the registered functions
    /// aside.
    pub open spec fn emits_besides_registry(&self, next: &Wasmizer, added: Seq<u8>) -> bool {
        &&& next.same_names(self)
        &&& next.structs() == self.structs()
        &&& next.frames().len() == self.frames().len()
        &&& forall|i: int| 0 <= i < self.frames().len() - 1 ==> #[trigger] next.frames()[i] == self.frames()[i]
        &&& same_but_code(next.frames().last(), self.frames().last())
        &&& next.code() == self.code() + added
    }
}

/// `m1` is `m0` with a function of the given signature and body added, not
/// exported, at index `idx`.
pub open spec fn adds_function(
    m0: ModuleBuilder,
    m1: ModuleBuilder,
    key: (Seq<Numtype>, Option<Numtype>),
    body: Seq<u8>,
    idx: u32,
) -> bool {
    let ftype = ModuleBuilder::spec_functype_idx(m0.functype_keys(), key);
    &&& m1.wf()
    &&& m1.functype_keys() == ftype.1
    &&& idx == m0.imports_view().len() + m0.funcs_view().len()
    &&& m1.funcs_view() == m0.funcs_view().push(ftype.0 as u32)
    &&& m1.bodies_view() == m0.bodies_view().push(body)
    &&& m1.imports_view() == m0.imports_view()
    &&& m1.exports_view() == m0.exports_view()
    &&& m1.data_view() == m0.data_view()
    &&& m1.globals_view() == m0.globals_view()
}

/// `m1` is `m0` after a function of the given signature could not be added:
/// only the signature is there now.
pub open spec fn fails_to_add_function(
    m0: ModuleBuilder,
    m1: ModuleBuilder,
    key: (Seq<Numtype>, Option<Numtype>),
) -> bool {
    &&& m0.imports_view().len() + m0.funcs_view().len() == u32::MAX
    &&& m1.wf()
    &&& m1.functype_keys() == ModuleBuilder::spec_functype_idx(m0.functype_keys(), key).1
    &&& m1.funcs_view() == m0.funcs_view()
    &&& m1.bodies_view() == m0.bodies_view()
    &&& m1.imports_view() == m0.imports_view()
    &&& m1.exports_view() == m0.exports_view()
    &&& m1.data_view() == m0.data_view()
    &&& m1.globals_view() == m0.globals_view()
}

/// The signature of the functions that advance an iterator.
pub open spec fn advance_fn_key() -> (Seq<Numtype>, Option<Numtype>) {
    (seq![Numtype::I32], Option::Some(Numtype::I32))
}

impl Wasmizer {
    /// The index of the signature of the functions that advance an iterator.
    fn get_advance_fn_type_idx(&mut self) -> (r: u32)
        requires
            old(self).builder().wf(),
            old(self).builder().functype_keys().len() < u32::MAX,
        ensures
            final(self).same_names(old(self)),
            final(self).builder().wf(),
            final(self).builder().same_but_types(&old(self).builder()),
            (r as int, final(self).builder().functype_keys()) == ModuleBuilder::spec_functype_idx(
                old(self).builder().functype_keys(),
                advance_fn_key(),
            ),
            final(self).builtins() == old(self).builtins(),
            final(self).structs() == old(self).structs(),
            final(self).frames() == old(self).frames(),
    {
        let mut args: Vec<Numtype> = Vec::new();
        args.push(Numtype::I32);
        let sig = FuncTypeSignature::new(args, Option::Some(Numtype::I32));
        assert(sig_key(sig) =~= advance_fn_key());
        self.builder.get_functype_idx(&sig)
    }

    /// Adds a builtin function to the module and registers it under a name.
    fn register_builtin(&mut self, name: String, func: &BuiltinFunc) -> (r: Result<u32, String>)
        requires
            old(self).builder().wf(),
            old(self).builder().functype_keys().len() < u32::MAX,
        ensures
            final(self).same_names(old(self)),
            final(self).structs() == old(self).structs(),
            final(self).frames() == old(self).frames(),
            ({
                let key = (func.sig_args(), func.sig_ret());
                let body = spec_function_body(numtype_bytes(func.spec_local_types()), func.code());
                match r {
                    Ok(idx) => adds_function(old(self).builder(), final(self).builder(), key, body, idx)
                        && final(self).builtins() == old(self).builtins().push((name@, idx)),
                    Err(_) => fails_to_add_function(old(self).builder(), final(self).builder(), key)
                        && final(self).builtins() == old(self).builtins(),
                }
            }),
    {
        proof {
            lemma_wf_bounds(self.builder);
        }
        let idx = self.builder.add_builtin(func)?;
        let ghost prev = self.builtins@;
        self.builtins.push((name, idx));
        assert(self.builtins() =~= old(self).builtins().push((name@, idx)));
        Ok(idx)
    }

    /// The index of the function that counts the characters of a string,
    /// adding it to the module the first time.
    fn init_str_len(&mut self) -> (r: Result<u32, String>)
        requires
            old(self).builder().wf(),
            old(self).builder().functype_keys().len() < u32::MAX,
        ensures
            final(self).same_names(old(self)),
            final(self).structs() == old(self).structs(),
            final(self).frames() == old(self).frames(),
            match old(self).builtin_idx("str_len"@) {
                Option::Some(idx) => r == Ok::<u32, String>(idx) && *final(self) == *old(self),
                Option::None => {
                    let key = (seq![Numtype::I64], Option::Some(Numtype::I32));
                    let body = spec_function_body(
                        numtype_bytes(seq![Numtype::I32, Numtype::I32, Numtype::I32, Numtype::I32]),
                        spec_str_len_code(),
                    );
                    match r {
                        Ok(idx) => adds_function(old(self).builder(), final(self).builder(), key, body, idx)
                            && final(self).builtins() == old(self).builtins().push(("str_len"@, idx)),
                        Err(_) => fails_to_add_function(old(self).builder(), final(self).builder(), key)
                            && final(self).builtins() == old(self).builtins(),
                    }
                },
            },
    {
        if let Option::Some(idx) = self.get_builtin("str_len") {
            return Ok(idx);
        }
        let func = define_builtin_str_len();
        self.register_builtin(String::from_str("str_len"), &func)
    }

    /// The index of the function that counts the values of an iterator of
    /// values of the given type, adding it to the module the first time.
    #[verifier::spinoff_prover]
    #[verifier::rlimit(30)]
    fn init_iter_len(&mut self, numtype: Numtype) -> (r: Result<u32, String>)
        requires
            old(self).builder().wf(),
            old(self).builder().functype_keys().len() + 1 < u32::MAX,
        ensures
            final(self).same_names(old(self)),
            final(self).structs() == old(self).structs(),
            final(self).frames() == old(self).frames(),
            ({
                let name = "iter_len_"@ + spec_decimal(numtype.spec_size() as nat) + ""@;
                match old(self).builtin_idx(name) {
                    Option::Some(idx) => r == Ok::<u32, String>(idx) && *final(self) == *old(self),
                    Option::None => {
                        let (adv, keys) = ModuleBuilder::spec_functype_idx(
                            old(self).builder().functype_keys(),
                            advance_fn_key(),
                        );
                        let key = (seq![Numtype::I64], Option::Some(Numtype::I32));
                        let body = spec_function_body(
                            numtype_bytes(seq![Numtype::I32, Numtype::I32]),
                            spec_iter_len_code(numtype.spec_size(), adv as u32),
                        );
                        exists|m: ModuleBuilder|
                            {
                                &&& m.wf()
                                &&& m.same_but_types(&old(self).builder())
                                &&& m.functype_keys() == keys
                                &&& match r {
                                    Ok(idx) => adds_function(m, final(self).builder(), key, body, idx)
                                        && final(self).builtins() == old(self).builtins().push((name, idx)),
                                    Err(_) => fails_to_add_function(m, final(self).builder(), key)
                                        && final(self).builtins() == old(self).builtins(),
                                }
                            }
                    },
                }
            }),
    {
        let memsize = numtype.size();
        let name = indexed_name("iter_len_", memsize as usize, "");
        if let Option::Some(idx) = self.get_builtin(name.as_str()) {
            return Ok(idx);
        }
        let advance_fn_type_idx = self.get_advance_fn_type_idx();
        let ghost m = self.builder;
        proof {
            lemma_wf_bounds(old(self).builder);
            lemma_functype_idx_keeps(old(self).builder().functype_keys(), advance_fn_key(), advance_fn_key());
        }
        let func = define_builtin_iter_len(memsize, advance_fn_type_idx);
        let r = self.register_builtin(name, &func);
        assert(m.wf() && m.same_but_types(&old(self).builder()));
        r
    }

    /// The length of a value of the type: the number of elements of an array,
    /// of values of an iterator, or of characters of a string.
    #[verifier::spinoff_prover]
    #[verifier::rlimit(30)]
    pub fn write_len(&mut self, typ: &Type) -> (r: Result<(), String>)
        requires
            old(self).frames().len() > 0,
            old(self).builder().wf(),
            old(self).builder().functype_keys().len() + 1 < u32::MAX,
        ensures
            final(self).same_names(old(self)),
            match typ.view() {
                TypeView::Arr(_) => match *typ {
                    Type::Arr(inner) => match Numtype::spec_from_ast_type(*inner) {
                        Option::Some(nt) => r is Ok && old(self).emits(
                            final(self),
                            op(Opcode::I32WrapI64) + op(Opcode::I32Const) + const_imm(nt.spec_size())
                                + op(Opcode::I32DivU),
                        ),
                        Option::None => r is Err && *final(self) == *old(self),
                    },
                    _ => false,
                },
                TypeView::Iter(_) => match *typ {
                    Type::Iter(inner) => match Numtype::spec_from_ast_type(*inner) {
                        Option::Some(nt) => {
                            let name = "iter_len_"@ + spec_decimal(nt.spec_size() as nat) + ""@;
                            match old(self).builtin_idx(name) {
                                Option::Some(idx) => r is Ok && old(self).emits(
                                    final(self),
                                    op(Opcode::Call) + spec_uleb128(idx as nat),
                                ),
                                Option::None => {
                                    let (adv, keys) = ModuleBuilder::spec_functype_idx(
                                        old(self).builder().functype_keys(),
                                        advance_fn_key(),
                                    );
                                    let key = (seq![Numtype::I64], Option::Some(Numtype::I32));
                                    let body = spec_function_body(
                                        numtype_bytes(seq![Numtype::I32, Numtype::I32]),
                                        spec_iter_len_code(nt.spec_size(), adv as u32),
                                    );
                                    exists|m: ModuleBuilder|
                                        {
                                            &&& m.wf()
                                            &&& m.same_but_types(&old(self).builder())
                                            &&& m.functype_keys() == keys
                                            &&& match r {
                                                Ok(_) => {
                                                    let idx = final(self).builtin_idx(name)->0;
                                                    &&& adds_function(m, final(self).builder(), key, body, idx)
                                                    &&& final(self).builtins() == old(self).builtins().push(
                                                        (name, idx),
                                                    )
                                                    &&& old(self).emits_besides_registry(
                                                        final(self),
                                                        op(Opcode::Call) + spec_uleb128(idx as nat),
                                                    )
                                                },
                                                Err(_) => fails_to_add_function(m, final(self).builder(), key)
                                                    && final(self).builtins() == old(self).builtins()
                                                    && final(self).frames() == old(self).frames()
                                                    && final(self).structs() == old(self).structs(),
                                            }
                                        }
                                },
                            }
                        },
                        Option::None => r is Err && *final(self) == *old(self),
                    },
                    _ => false,
                },
                TypeView::Str => match old(self).builtin_idx("str_len"@) {
                    Option::Some(idx) => r is Ok && old(self).emits(final(self), op(Opcode::Call) + spec_uleb128(idx as nat)),
                    Option::None => {
                        let key = (seq![Numtype::I64], Option::Some(Numtype::I32));
                        let body = spec_function_body(
                            numtype_bytes(seq![Numtype::I32, Numtype::I32, Numtype::I32, Numtype::I32]),
                            spec_str_len_code(),
                        );
                        match r {
                            Ok(_) => {
                                let idx = final(self).builtin_idx("str_len"@)->0;
                                &&& adds_function(old(self).builder(), final(self).builder(), key, body, idx)
                                &&& final(self).builtins() == old(self).builtins().push(("str_len"@, idx))
                                &&& old(self).emits_besides_registry(
                                    final(self),
                                    op(Opcode::Call) + spec_uleb128(idx as nat),
                                )
                            },
                            Err(_) => fails_to_add_function(old(self).builder(), final(self).builder(), key)
                                && final(self).builtins() == old(self).builtins() && final(self).frames() == old(
                                self,
                            ).frames() && final(self).structs() == old(self).structs(),
                        }
                    },
                },
                _ => r is Err && r->Err_0@ == "Cannot get length of type "@ + typ.view().debug() && *final(self)
                    == *old(self),
            },
    {
        match typ {
            Type::Arr(inner) => {
                let nt = Numtype::from_ast_type(inner)?;
                let ghost s0 = *self;
                self.write_opcode(Opcode::I32WrapI64);
                self.write_opcode(Opcode::I32Const);
                let size = i32_const_imm(nt.size());
                self.write_slice(size.as_slice());
                self.write_opcode(Opcode::I32DivU);
                assert(self.code() =~= s0.code() + (op(Opcode::I32WrapI64) + op(Opcode::I32Const) + const_imm(nt.spec_size()) + op(Opcode::I32DivU)));
                Ok(())
            },
            Type::Iter(inner) => {
                let nt = Numtype::from_ast_type(inner)?;
                let idx = self.init_iter_len(nt)?;
                let ghost s1 = *self;
                self.write_opcode(Opcode::Call);
                let bytes = unsigned_leb128(idx);
                self.write_slice(bytes.as_slice());
                proof {
                    let name = "iter_len_"@ + spec_decimal(nt.spec_size() as nat) + ""@;
                    if old(self).builtin_idx(name) is None {
                        let names = s1.builtins().map_values(|b: (Seq<char>, u32)| b.0);
                        assert(names.last() == name);
                        lemma_index_of_last_at(names, name, names.len() - 1);
                    }
                    assert(self.code() =~= old(self).code() + (op(Opcode::Call) + bytes@));
                }
                Ok(())
            },
            Type::Str => {
                let idx = self.init_str_len()?;
                let ghost s1 = *self;
                self.write_opcode(Opcode::Call);
                let bytes = unsigned_leb128(idx);
                self.write_slice(bytes.as_slice());
                proof {
                    if old(self).builtin_idx("str_len"@) is None {
                        let names = s1.builtins().map_values(|b: (Seq<char>, u32)| b.0);
                        assert(names.last() == "str_len"@);
                        lemma_index_of_last_at(names, "str_len"@, names.len() - 1);
                    }
                    assert(self.code() =~= old(self).code() + (op(Opcode::Call) + bytes@));
                }
                Ok(())
            },
            _ => Err(type_message("Cannot get length of type ", typ)),
        }
    }
}


/// The data of a string literal: its bytes without the quotes around them.
pub open spec fn literal_data(value: &str) -> Seq<u8> {
    value.spec_bytes().subrange(1, value.spec_bytes().len() - 1)
}

/// `code` followed by the code that copies a passive data segment of
/// `size` bytes to the end of the used memory, moves the memory pointer past
/// it and aligns it, and leaves the fat pointer of the copy, kept in the
/// local `offset`.
pub open spec fn with_string_code(code: Seq<u8>, offset: Seq<u8>, size: Seq<u8>, segment: u32) -> Seq<u8> {
    code + op(Opcode::GlobalGet) + seq![0x00u8] + op(Opcode::LocalTee) + offset + op(Opcode::I32Const) + seq![
        0x00u8,
    ] + op(Opcode::I32Const) + size + spec_meminit() + spec_uleb128(segment as nat) + seq![0x00u8] + op(
        Opcode::GlobalGet,
    ) + seq![0x00u8] + op(Opcode::I32Const) + size + op(Opcode::I32Add) + op(Opcode::GlobalSet) + seq![0x00u8]
        + spec_align_memptr() + op(Opcode::LocalGet) + offset + op(Opcode::I64ExtendI32U) + op(Opcode::I64Const)
        + seq![32u8] + op(Opcode::I64Shl) + op(Opcode::I64Const) + size + op(Opcode::I64Add)
}

impl Wasmizer {
    /// What writing a string literal leaves in `next`: its data, as a data
    /// segment that is added unless an equal one is there, and code in the
    /// function being compiled that copies it to memory; or, where no segment
    /// can be added, `next` is this state and `r` an error.
    pub open spec fn writes_string(&self, next: &Wasmizer, value: &str, r: Result<(), String>) -> bool {
        let data = literal_data(value);
        let segs = self.builder().data_view();
        let f = self.frames().last();
        let g = next.frames().last();
        let found = segs.index_of_first(data);
        if found is None && segs.len() == u32::MAX {
            r is Err && r->Err_0@ == "too many data segments"@ && *next == *self
        } else {
            let seg = match found {
                Option::Some(i) => i as u32,
                Option::None => segs.len() as u32,
            };
            let offset = spec_uleb128((f.locals.n_locals + f.signature.args@.len()) as nat);
            let size = spec_uleb128((data.len() as u32) as nat);
            &&& r is Ok
            &&& next.same_names(self)
            &&& next.builder().wf()
            &&& next.builder().data_view() == if found is Some {
                segs
            } else {
                segs.push(data)
            }
            &&& next.builder().functype_keys() == self.builder().functype_keys()
            &&& next.builder().funcs_view() == self.builder().funcs_view()
            &&& next.builder().bodies_view() == self.builder().bodies_view()
            &&& next.builder().imports_view() == self.builder().imports_view()
            &&& next.builder().exports_view() == self.builder().exports_view()
            &&& next.builder().globals_view() == self.builder().globals_view()
            &&& next.builtins() == self.builtins()
            &&& next.structs() == self.structs()
            &&& next.frames().len() == self.frames().len()
            &&& forall|i: int|
                0 <= i < self.frames().len() - 1 ==> #[trigger] next.frames()[i] == self.frames()[i]
            &&& g.name == f.name && g.signature == f.signature && g.params == f.params && g.export == f.export
            &&& g.locals.scope_depth == f.locals.scope_depth
            &&& g.locals.n_locals == f.locals.n_locals + 1
            &&& g.locals.types@ == f.locals.types@.push(Numtype::I32.spec_byte())
            &&& g.locals.locals@.drop_last() == f.locals.locals@
            &&& g.locals.locals@.last().name@ == "<offset>"@
            &&& g.bytes@ == with_string_code(f.bytes@, offset, size, seg)
        }
    }

    /// Writes a string literal: its bytes, without the quotes, become a data
    /// segment, copied to memory where the code runs.
    #[verifier::spinoff_prover]
    #[verifier::rlimit(30)]
    fn write_string(&mut self, value: &str) -> (r: Result<(), String>)
        requires
            old(self).frames().len() > 0,
            old(self).builder().wf(),
            old(self).frames().last().locals.n_locals + old(self).frames().last().signature.args@.len() < u32::MAX,
            value.spec_bytes().len() >= 2,
            is_char_boundary(value.spec_bytes(), 1),
            is_char_boundary(value.spec_bytes(), value.spec_bytes().len() - 1),
        ensures
            old(self).writes_string(final(self), value, r),

    {
        let bytes = value.as_bytes_vec();
        let mut data: Vec<u8> = Vec::new();
        let mut i: usize = 1;
        while i < bytes.len() - 1
            invariant
                bytes@ == value.spec_bytes(),
                bytes@.len() >= 2,
                1 <= i <= bytes@.len() - 1,
                data@ == bytes@.subrange(1, i as int),
            decreases bytes@.len() - 1 - i,
        {
            data.push(bytes[i]);
            assert(data@ =~= bytes@.subrange(1, i + 1));
            i = i + 1;
        }
        let size = unsigned_leb128(data.len() as u32);
        let ghost m0 = self.builder;
        let segment_idx = self.builder.add_data(data)?;
        let ghost s1 = *self;
        let offset_idx = self.add_local("<offset>", Numtype::I32);
        let ghost s2 = *self;
        let ghost c = s2.code();
        self.write_opcode(Opcode::GlobalGet);
        self.write_byte(0x00);
        self.write_opcode(Opcode::LocalTee);
        self.write_slice(offset_idx.as_slice());
        self.write_opcode(Opcode::I32Const);
        self.write_byte(0x00);
        assert(self.code() == c + op(Opcode::GlobalGet) + seq![0x00u8] + op(Opcode::LocalTee) + offset_idx@ + op(
            Opcode::I32Const,
        ) + seq![0x00u8]);
        self.write_opcode(Opcode::I32Const);
        self.write_slice(size.as_slice());
        let init = meminit();
        self.write_slice(init.as_slice());
        let seg = unsigned_leb128(segment_idx);
        self.write_slice(seg.as_slice());
        self.write_byte(0x00);
        let ghost c2 = self.code();
        assert(c2 == c + op(Opcode::GlobalGet) + seq![0x00u8] + op(Opcode::LocalTee) + offset_idx@ + op(
            Opcode::I32Const,
        ) + seq![0x00u8] + op(Opcode::I32Const) + size@ + spec_meminit() + spec_uleb128(segment_idx as nat)
            + seq![0x00u8]);
        self.write_opcode(Opcode::GlobalGet);
        self.write_byte(0x00);
        self.write_opcode(Opcode::I32Const);
        self.write_slice(size.as_slice());
        self.write_opcode(Opcode::I32Add);
        self.write_opcode(Opcode::GlobalSet);
        self.write_byte(0x00);
        self.align_memptr();
        let ghost c3 = self.code();
        assert(c3 == c2 + op(Opcode::GlobalGet) + seq![0x00u8] + op(Opcode::I32Const) + size@ + op(Opcode::I32Add)
            + op(Opcode::GlobalSet) + seq![0x00u8] + spec_align_memptr());
        self.write_opcode(Opcode::LocalGet);
        self.write_slice(offset_idx.as_slice());
        self.write_opcode(Opcode::I64ExtendI32U);
        self.write_opcode(Opcode::I64Const);
        self.write_byte(32);
        self.write_opcode(Opcode::I64Shl);
        self.write_opcode(Opcode::I64Const);
        self.write_slice(size.as_slice());
        self.write_opcode(Opcode::I64Add);
        assert(self.code() == c3 + op(Opcode::LocalGet) + offset_idx@ + op(Opcode::I64ExtendI32U) + op(
            Opcode::I64Const,
        ) + seq![32u8] + op(Opcode::I64Shl) + op(Opcode::I64Const) + size@ + op(Opcode::I64Add));
        assert(self.code() == with_string_code(c, offset_idx@, size@, segment_idx));
        Ok(())
    }
}


/// The message of `str::parse` for an empty string.
pub open spec fn parse_empty() -> Seq<char> {
    "cannot parse integer from empty string"@
}

/// The message of `str::parse` for a character that is no digit.
pub open spec fn parse_invalid() -> Seq<char> {
    "invalid digit found in string"@
}

/// The message of `str::parse` for a number above the type's range.
pub open spec fn parse_too_large() -> Seq<char> {
    "number too large to fit in target type"@
}

/// The message of `str::parse` for a number below the type's range.
pub open spec fn parse_too_small() -> Seq<char> {
    "number too small to fit in target type"@
}

pub open spec fn is_digit(c: char) -> bool {
    '0' <= c && c <= '9'
}

pub open spec fn digit_value(c: char) -> int {
    c as int - '0' as int
}

/// Reads decimal digits after `acc`, left to right, stopping at the first
/// character that is no digit or the first step out of the range of `i32`.
pub open spec fn parse_digits(ds: Seq<char>, neg: bool, acc: int) -> Result<i32, Seq<char>>
    decreases ds.len(),
{
    if ds.len() == 0 {
        Ok(acc as i32)
    } else if !is_digit(ds[0]) {
        Err(parse_invalid())
    } else {
        let next = if neg {
            acc * 10 - digit_value(ds[0])
        } else {
            acc * 10 + digit_value(ds[0])
        };
        if next > i32::MAX {
            Err(parse_too_large())
        } else if next < i32::MIN {
            Err(parse_too_small())
        } else {
            parse_digits(ds.drop_first(), neg, next)
        }
    }
}

/// What `str::parse::<i32>` gives: an optional sign, then decimal digits.
pub open spec fn spec_parse_i32(s: Seq<char>) -> Result<i32, Seq<char>> {
    if s.len() == 0 {
        Err(parse_empty())
    } else if (s[0] == '+' || s[0] == '-') && s.len() == 1 {
        Err(parse_invalid())
    } else if s[0] == '+' || s[0] == '-' {
        parse_digits(s.drop_first(), s[0] == '-', 0)
    } else {
        parse_digits(s, false, 0)
    }
}

/// Parses an integer literal as `str::parse::<i32>` does, with its error
/// messages.
pub fn parse_i32(value: &str) -> (r: Result<i32, String>)
    ensures
        match spec_parse_i32(value@) {
            Ok(v) => r == Ok::<i32, String>(v),
            Err(e) => r is Err && r->Err_0@ == e,
        },
{
    let chars = str_chars(value);
    if chars.len() == 0 {
        return Err(String::from_str("cannot parse integer from empty string"));
    }
    let signed = chars[0] == '+' || chars[0] == '-';
    if signed && chars.len() == 1 {
        return Err(String::from_str("invalid digit found in string"));
    }
    let neg = chars[0] == '-';
    let mut i: usize = if signed { 1 } else { 0 };
    let ghost ds = if signed { value@.drop_first() } else { value@ };
    let mut acc: i64 = 0;
    assert(ds =~= chars@.subrange(i as int, chars@.len() as int));
    while i < chars.len()
        invariant
            spec_parse_i32(value@) == parse_digits(ds, neg, 0),
            chars@ == value@,
            chars@.len() > 0,
            neg == (chars@[0] == '-'),
            ds == if signed { value@.drop_first() } else { value@ },
            (if signed { 1int } else { 0int }) <= i <= chars@.len(),
            i32::MIN <= acc <= i32::MAX,
            parse_digits(ds, neg, 0) == parse_digits(chars@.subrange(i as int, chars@.len() as int), neg, acc as int),
        decreases chars@.len() - i,
    {
        let c = chars[i];
        let ghost rest = chars@.subrange(i as int, chars@.len() as int);
        assert(rest[0] == c);
        if !('0' <= c && c <= '9') {
            return Err(String::from_str("invalid digit found in string"));
        }
        let d: i64 = (c as u32 - '0' as u32) as i64;
        assert(d == digit_value(c));
        let next: i64 = if neg { acc * 10 - d } else { acc * 10 + d };
        if next > 2147483647 {
            return Err(String::from_str("number too large to fit in target type"));
        }
        if next < -2147483648 {
            return Err(String::from_str("number too small to fit in target type"));
        }
        assert(rest.drop_first() =~= chars@.subrange(i + 1, chars@.len() as int));
        acc = next;
        i = i + 1;
    }
    assert(chars@.subrange(i as int, chars@.len() as int).len() == 0);
    Ok(acc as i32)
}

/// What `str::parse::<bool>` gives.
pub open spec fn spec_parse_bool(s: Seq<char>) -> Result<bool, Seq<char>> {
    if s == "true"@ {
        Ok(true)
    } else if s == "false"@ {
        Ok(false)
    } else {
        Err("provided string was not `true` or `false`"@)
    }
}

/// Parses a boolean literal as `str::parse::<bool>` does.
pub fn parse_bool(value: &str) -> (r: Result<bool, String>)
    ensures
        match spec_parse_bool(value@) {
            Ok(v) => r == Ok::<bool, String>(v),
            Err(e) => r is Err && r->Err_0@ == e,
        },
{
    if str_eq(value, "true") {
        Ok(true)
    } else if str_eq(value, "false") {
        Ok(false)
    } else {
        Err(String::from_str("provided string was not `true` or `false`"))
    }
}

impl Wasmizer {
    /// Pushes a constant of the type written as a literal: an integer, a
    /// boolean, or a string in quotes. A float literal is pushed by
    /// `write_float_const` from the bits of its value.
    pub fn write_const(&mut self, value: &str, typ: &Type) -> (r: Result<(), String>)
        requires
            old(self).frames().len() > 0,
            !(*typ is Float),
            *typ is Str ==> {
                &&& old(self).builder().wf()
                &&& old(self).frames().last().locals.n_locals + old(self).frames().last().signature.args@.len()
                    < u32::MAX
                &&& value.spec_bytes().len() >= 2
                &&& is_char_boundary(value.spec_bytes(), 1)
                &&& is_char_boundary(value.spec_bytes(), value.spec_bytes().len() - 1)
            },
        ensures
            match *typ {
                Type::Int => match spec_parse_i32(value@) {
                    Ok(v) => r is Ok && old(self).emits(
                        final(self),
                        op(Opcode::I32Const) + spec_sleb128(v as int),
                    ),
                    Err(e) => r is Err && r->Err_0@ == e && *final(self) == *old(self),
                },
                Type::Bool => match spec_parse_bool(value@) {
                    Ok(b) => r is Ok && old(self).emits(
                        final(self),
                        op(Opcode::I32Const) + seq![if b { 1u8 } else { 0u8 }],
                    ),
                    Err(e) => r is Err && r->Err_0@ == e && *final(self) == *old(self),
                },
                Type::Str => old(self).writes_string(final(self), value, r),
                _ => r is Err && r->Err_0@ == "unsupported literal of type: "@ + typ.view().debug() && *final(self)
                    == *old(self),
            },
    {
        match typ {
            Type::Int => {
                let v = parse_i32(value)?;
                let ghost s0 = *self;
                self.write_opcode(Opcode::I32Const);
                let ghost s1 = *self;
                let bytes = signed_leb128(v);
                self.write_slice(bytes.as_slice());
                proof {
                    lemma_emits_trans(s0, s1, *self, op(Opcode::I32Const), bytes@);
                }
                Ok(())
            },
            Type::Bool => {
                let b = parse_bool(value)?;
                let ghost s0 = *self;
                self.write_opcode(Opcode::I32Const);
                let ghost s1 = *self;
                self.write_byte(if b { 1 } else { 0 });
                proof {
                    lemma_emits_trans(s0, s1, *self, op(Opcode::I32Const), seq![if b { 1u8 } else { 0u8 }]);
                }
                Ok(())
            },
            Type::Str => self.write_string(value),
            _ => Err(type_message("unsupported literal of type: ", typ)),
        }
    }

    /// Pushes a float constant, given the bits of its value.
    pub fn write_float_const(&mut self, bits: u32)
        requires
            old(self).frames().len() > 0,
        ensures
            old(self).emits(
                final(self),
                op(Opcode::F32Const) + seq![
                    (bits % 256) as u8,
                    ((bits / 256) % 256) as u8,
                    ((bits / 65536) % 256) as u8,
                    (bits / 16777216) as u8,
                ],
            ),
    {
        let ghost s0 = *self;
        self.write_opcode(Opcode::F32Const);
        let ghost s1 = *self;
        let mut le: Vec<u8> = Vec::new();
        le.push((bits % 256) as u8);
        le.push(((bits / 256) % 256) as u8);
        le.push(((bits / 65536) % 256) as u8);
        le.push((bits / 16777216) as u8);
        self.write_slice(le.as_slice());
        proof {
            assert(le@ =~= seq![
                (bits % 256) as u8,
                ((bits / 256) % 256) as u8,
                ((bits / 65536) % 256) as u8,
                (bits / 16777216) as u8,
            ]);
            lemma_emits_trans(s0, s1, *self, op(Opcode::F32Const), le@);
        }
    }
}


/// The field of a struct with the given name: the first one so named.
pub open spec fn struct_field(s: Struct, name: Seq<char>) -> Option<StructField> {
    match s.fields@.map_values(|f: (String, StructField)| f.0@).index_of_first(name) {
        Option::Some(k) => Option::Some(s.fields@[k].1),
        Option::None => Option::None,
    }
}

/// The builtin that reads a field of the given value type.
pub open spec fn field_getter(nt: Numtype) -> Seq<char> {
    if nt == Numtype::I32 {
        "get_i32_field"@
    } else if nt == Numtype::F32 {
        "get_f32_field"@
    } else {
        "get_i64_field"@
    }
}

impl Wasmizer {
    /// The struct definition last made under a name.
    pub open spec fn struct_def(&self, name: Seq<char>) -> Option<Struct> {
        match self.structs().map_values(|d: (Seq<char>, Struct)| d.0).index_of_last(name) {
            Option::Some(k) => Option::Some(self.structs()[k].1),
            Option::None => Option::None,
        }
    }

    /// Adds the constructor of a struct to the module, registered under the
    /// struct's name, and keeps the definition under that name; pushes the
    /// constructor's index when asked to.
    pub fn create_struct(&mut self, struct_name: String, struct_def: Struct, write_constructor: bool) -> (r: Result<
        u32,
        String,
    >)
        requires
            old(self).builder().wf(),
            old(self).builder().functype_keys().len() < u32::MAX,
            old(self).builtin_idx("alloc"@) is Some,
            struct_def.fields@.len() + 2 < u32::MAX,
            forall|i: int|
                0 <= i < struct_def.fields@.len() ==> (#[trigger] struct_def.fields@[i]).1.nt != Numtype::Void,
            !field_names(struct_def.fields@).contains("<offset>"@),
            !field_names(struct_def.fields@).contains("<size>"@),
            write_constructor ==> old(self).frames().len() > 0 && old(self).builder().funcs_view().len() + 1
                <= i32::MAX,
        ensures
            final(self).same_names(old(self)),
            ({
                let key = (field_types(struct_def.fields@), Option::Some(Numtype::I64));
                let body = spec_function_body(
                    numtype_bytes(seq![Numtype::I32, Numtype::I32]),
                    spec_struct_constructor_code(
                        struct_def.fields@,
                        struct_def.size,
                        old(self).builtin_idx("alloc"@)->0,
                    ),
                );
                match r {
                    Ok(idx) => {
                        &&& adds_function(old(self).builder(), final(self).builder(), key, body, idx)
                        &&& final(self).builtins() == old(self).builtins().push((struct_name@, idx))
                        &&& final(self).structs() == old(self).structs().push((struct_name@, struct_def))
                        &&& final(self).frames().len() == old(self).frames().len()
                        &&& forall|i: int|
                            0 <= i < old(self).frames().len() - 1 ==> #[trigger] final(self).frames()[i] == old(
                                self,
                            ).frames()[i]
                        &&& if write_constructor {
                            &&& same_but_code(final(self).frames().last(), old(self).frames().last())
                            &&& final(self).code() == old(self).code() + op(Opcode::I32Const) + spec_sleb128(
                                old(self).builder().funcs_view().len() as int,
                            )
                        } else {
                            final(self).frames() == old(self).frames()
                        }
                    },
                    Err(_) => {
                        &&& fails_to_add_function(old(self).builder(), final(self).builder(), key)
                        &&& final(self).builtins() == old(self).builtins()
                        &&& final(self).structs() == old(self).structs()
                        &&& final(self).frames() == old(self).frames()
                    },
                }
            }),
    {
        let alloc = self.get_builtin("alloc").unwrap();
        let func = define_builtin_struct_constructor(&struct_def, alloc);
        let idx = self.register_builtin(struct_name.clone(), &func)?;
        let ghost prev = self.structs@;
        self.structs.push((struct_name, struct_def));
        assert(self.structs() =~= old(self).structs().push((struct_name@, struct_def)));
        if write_constructor {
            let ghost s0 = *self;
            self.write_last_func_index();
            assert(s0.builder().funcs_view().len() == old(self).builder().funcs_view().len() + 1);
            assert(self.code() =~= old(self).code() + (op(Opcode::I32Const) + spec_sleb128(
                old(self).builder().funcs_view().len() as int,
            )));
        }
        Ok(idx)
    }

    /// The definition last made under a name.
    fn get_struct(&self, name: &str) -> (r: Option<&Struct>)
        ensures
            match self.struct_def(name@) {
                Option::Some(d) => r is Some && *r->0 == d,
                Option::None => r is None,
            },
    {
        let ghost names = self.structs().map_values(|d: (Seq<char>, Struct)| d.0);
        assert(names =~= self.structs@.map_values(|d: (String, Struct)| d.0@));
        let mut i: usize = self.structs.len();
        while i > 0
            invariant
                names == self.structs().map_values(|d: (Seq<char>, Struct)| d.0),
                names =~= self.structs@.map_values(|d: (String, Struct)| d.0@),
                0 <= i <= self.structs@.len(),
                forall|j: int| i <= j < self.structs@.len() ==> names[j] != name@,
            decreases i,
        {
            i = i - 1;
            if str_eq(self.structs[i].0.as_str(), name) {
                proof {
                    lemma_index_of_last_at(names, name@, i as int);
                }
                return Option::Some(&self.structs[i].1);
            }
        }
        proof {
            lemma_index_of_last_none(names, name@);
        }
        Option::None
    }

    /// Reads a field of the object whose fat pointer is on the stack.
    pub fn get_field(&mut self, object_type: Type, field_name: &str) -> (r: Result<(), String>)
        requires
            old(self).frames().len() > 0,
            object_type is Object,
            old(self).struct_def(object_type->Object_0@) is Some,
            struct_field(old(self).struct_def(object_type->Object_0@)->0, field_name@) is Some,
            struct_field(old(self).struct_def(object_type->Object_0@)->0, field_name@)->0.nt != Numtype::Void,
        ensures
            ({
                let field = struct_field(old(self).struct_def(object_type->Object_0@)->0, field_name@)->0;
                let head = op(Opcode::I32Const) + const_imm(field.offset);
                match old(self).builtin_idx(field_getter(field.nt)) {
                    Option::Some(i) => r is Ok && old(self).emits(
                        final(self),
                        head + (op(Opcode::Call) + spec_uleb128(i as nat)),
                    ),
                    Option::None => r is Err && old(self).emits(final(self), head),
                }
            }),
    {
        let struct_name = match &object_type {
            Type::Object(name, _) => name,
            _ => {
                proof {
                    assert(false);
                }
                return Ok(());
            },
        };
        let struct_def = self.get_struct(struct_name.as_str()).unwrap();
        let ghost fields = struct_def.fields@;
        let ghost names = fields.map_values(|f: (String, StructField)| f.0@);
        proof {
            names.index_of_first_ensures(field_name@);
        }
        let mut k: usize = 0;
        let mut found = false;
        while k < struct_def.fields.len() && !found
            invariant
                fields == struct_def.fields@,
                names == fields.map_values(|f: (String, StructField)| f.0@),
                names.contains(field_name@),
                0 <= k <= fields.len(),
                found ==> k < fields.len() && names[k as int] == field_name@,
                forall|j: int| 0 <= j < k ==> names[j] != field_name@,
            decreases fields.len() - k + (if found { 0int } else { 1int }),
        {
            if str_eq(struct_def.fields[k].0.as_str(), field_name) {
                found = true;
            } else {
                k = k + 1;
            }
        }
        proof {
            if !found {
                let w = names.index_of_first(field_name@)->0;
                assert(names[w] != field_name@);
            }
            crate::builtin_func::lemma_index_of_first_at(names, field_name@, k as int);
        }
        let field = struct_def.fields[k].1;
        let ghost s0 = *self;
        self.write_opcode(Opcode::I32Const);
        let ghost s1 = *self;
        let offset = i32_const_imm(field.offset);
        self.write_slice(offset.as_slice());
        let ghost s2 = *self;
        proof {
            lemma_emits_trans(s0, s1, s2, op(Opcode::I32Const), offset@);
        }
        let r = match field.nt {
            Numtype::I32 => self.call_builtin("get_i32_field"),
            Numtype::F32 => self.call_builtin("get_f32_field"),
            _ => self.call_builtin("get_i64_field"),
        };
        proof {
            if r is Ok {
                let i = s2.builtin_idx(field_getter(field.nt))->0;
                lemma_emits_trans(
                    s0,
                    s2,
                    *self,
                    op(Opcode::I32Const) + const_imm(field.offset),
                    op(Opcode::Call) + spec_uleb128(i as nat),
                );
            }
        }
        r
    }
}

} // verus!
