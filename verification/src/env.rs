use vstd::prelude::*;

use crate::ast::{scope_view, Type, TypeView, VarType};
use crate::wasmtypes::{FuncTypeSignature, Numtype};
use vstd::string::StringExecFns;
use vstd::arithmetic::power::pow;

verus! {

/// The absolute value of an integer.
pub open spec fn abs_int(v: int) -> int {
    if v < 0 { -v } else { v }
}

/// Minus one to an even power is one, to an odd power minus one.
proof fn lemma_neg1_pow(e: nat)
    ensures
        pow(-1, e) == if e % 2 == 0 { 1int } else { -1int },
    decreases e,
{
    reveal(pow);
    if e > 0 {
        lemma_neg1_pow((e - 1) as nat);
    }
}

/// For a base other than zero, a higher power is at least as large in
/// absolute value.
proof fn lemma_pow_abs_mono(x: int, k: nat, e: nat)
    requires
        x != 0,
        k <= e,
    ensures
        abs_int(pow(x, k)) <= abs_int(pow(x, e)),
    decreases e,
{
    if k < e {
        lemma_pow_abs_mono(x, k, (e - 1) as nat);
        reveal(pow);
        let p = pow(x, (e - 1) as nat);
        assert(pow(x, e) == x * p);
        assert(abs_int(x * p) >= abs_int(p)) by (nonlinear_arith)
            requires
                x != 0,
        ;
    }
}

/// `x` raised to the power `e`, as `i32::pow` computes it; inputs whose
/// result does not fit in an `i32` (where `i32::pow` panics or wraps) are left
/// out.
fn i32_pow(x: i32, e: u32) -> (r: i32)
    requires
        i32::MIN <= pow(x as int, e as nat) <= i32::MAX,
    ensures
        r == pow(x as int, e as nat),
{
    if x == 0 {
        proof {
            reveal(pow);
            if e > 0 {
                vstd::arithmetic::power::lemma0_pow(e as nat);
            }
        }
        return if e == 0 { 1 } else { 0 };
    }
    if x == 1 {
        proof {
            vstd::arithmetic::power::lemma1_pow(e as nat);
        }
        return 1;
    }
    if x == -1 {
        proof {
            lemma_neg1_pow(e as nat);
        }
        return if e % 2 == 0 { 1 } else { -1 };
    }
    let mut r: i64 = 1;
    let mut i: u32 = 0;
    proof {
        reveal(pow);
    }
    while i < e
        invariant
            0 <= i <= e,
            x != 0,
            r == pow(x as int, i as nat),
            i32::MIN <= pow(x as int, e as nat) <= i32::MAX,
        decreases e - i,
    {
        proof {
            lemma_pow_abs_mono(x as int, (i + 1) as nat, e as nat);
            reveal(pow);
        }
        let ghost next = pow(x as int, (i + 1) as nat);
        assert(next == x * pow(x as int, i as nat));
        assert(r * x == next) by (nonlinear_arith)
            requires
                next == x * r,
        ;
        r = r * (x as i64);
        i = i + 1;
    }
    r as i32
}

/// Integer power as the host gives it to compiled programs: the exponent is
/// taken as an unsigned number.
pub fn powi(x: i32, y: i32) -> (r: i32)
    requires
        i32::MIN <= pow(x as int, (y as u32) as nat) <= i32::MAX,
    ensures
        r == pow(x as int, (y as u32) as nat),
{
    i32_pow(x, y as u32)
}

/// A function that a module imports from its host: the module and field it
/// is found under, and its signature.
pub struct Import {
    pub module: &'static str,
    pub field: &'static str,
    pub sig: FuncTypeSignature,
}

impl Import {
    pub fn new(module: &'static str, field: &'static str, sig: FuncTypeSignature) -> (i: Import)
        ensures
            i.module@ == module@,
            i.field@ == field@,
            i.sig.args@ == sig.args@,
            i.sig.ret == sig.ret,
    {
        Import { module, field, sig }
    }
}


/// The view of a list of imports: module, field, argument types and result
/// type of each.
pub open spec fn imports_view(imports: Seq<Import>) -> Seq<(Seq<char>, Seq<char>, Seq<Numtype>, Option<Numtype>)> {
    imports.map_values(|i: Import| (i.module@, i.field@, i.sig.args@, i.sig.ret))
}

/// The functions that the host gives every module: printing and raising to
/// a power, for integers and for floats.
pub open spec fn host_imports() -> Seq<(Seq<char>, Seq<char>, Seq<Numtype>, Option<Numtype>)> {
    seq![
        ("env"@, "print[Int]"@, seq![Numtype::I32], Option::Some(Numtype::I32)),
        ("env"@, "print[Float]"@, seq![Numtype::F32], Option::Some(Numtype::F32)),
        ("env"@, "pow[Int, Int]"@, seq![Numtype::I32, Numtype::I32], Option::Some(Numtype::I32)),
        ("env"@, "pow[Float, Float]"@, seq![Numtype::F32, Numtype::F32], Option::Some(Numtype::F32)),
    ]
}

/// The global variables every program starts with: the host functions, by
/// their index among the imports.
pub open spec fn default_global_vars() -> Seq<(Seq<char>, u64)> {
    seq![("print[Int]"@, 0u64), ("print[Float]"@, 1u64), ("pow[Int, Int]"@, 2u64), ("pow[Float, Float]"@, 3u64)]
}

/// A function type of the given argument types and result type.
pub open spec fn func_view(args: Seq<TypeView>, ret: TypeView) -> TypeView {
    TypeView::Func(args, Box::new(ret))
}

/// An iterator type over the given type.
pub open spec fn iter_view(t: TypeView) -> TypeView {
    TypeView::Iter(Box::new(t))
}

/// The types of the global names every program starts with: the host
/// functions, and the builtins that can be called by name.
pub open spec fn default_global_types() -> Seq<(Seq<char>, TypeView)> {
    seq![
        ("print[Int]"@, func_view(seq![TypeView::Int], TypeView::Int)),
        ("print[Float]"@, func_view(seq![TypeView::Float], TypeView::Float)),
        ("pow[Int, Int]"@, func_view(seq![TypeView::Int, TypeView::Int], TypeView::Int)),
        ("pow[Float, Float]"@, func_view(seq![TypeView::Float, TypeView::Float], TypeView::Float)),
        ("abs[Int]"@, func_view(seq![TypeView::Int], TypeView::Int)),
        ("abs[Float]"@, func_view(seq![TypeView::Float], TypeView::Float)),
        ("int[Float]"@, func_view(seq![TypeView::Float], TypeView::Int)),
        ("float[Int]"@, func_view(seq![TypeView::Int], TypeView::Float)),
        ("mod[Int, Int]"@, func_view(seq![TypeView::Int, TypeView::Int], TypeView::Int)),
        ("sqrt[Float]"@, func_view(seq![TypeView::Float], TypeView::Float)),
        ("sum[Iter(Int)]"@, func_view(seq![iter_view(TypeView::Int)], TypeView::Int)),
        ("sum[Iter(Float)]"@, func_view(seq![iter_view(TypeView::Float)], TypeView::Float)),
        ("prod[Iter(Int)]"@, func_view(seq![iter_view(TypeView::Int)], TypeView::Int)),
        ("prod[Iter(Float)]"@, func_view(seq![iter_view(TypeView::Float)], TypeView::Float)),
        ("all[Iter(Bool)]"@, func_view(seq![iter_view(TypeView::Bool)], TypeView::Bool)),
        ("any[Iter(Bool)]"@, func_view(seq![iter_view(TypeView::Bool)], TypeView::Bool)),
    ]
}

/// What a program is compiled against: the global variables and their
/// values, the types of the global names, and the host's functions.
pub struct Env {
    pub global_vars: Vec<(String, u64)>,
    pub global_types: Vec<VarType>,
    pub imports: Vec<Import>,
}

/// A signature of the given argument types and result type.
fn sig1(a: Numtype, ret: Numtype) -> (s: FuncTypeSignature)
    ensures
        s.args@ == seq![a],
        s.ret == Option::Some(ret),
{
    let mut args: Vec<Numtype> = Vec::new();
    args.push(a);
    FuncTypeSignature::new(args, Option::Some(ret))
}

/// A signature of the given argument types and result type.
fn sig2(a: Numtype, b: Numtype, ret: Numtype) -> (s: FuncTypeSignature)
    ensures
        s.args@ == seq![a, b],
        s.ret == Option::Some(ret),
{
    let mut args: Vec<Numtype> = Vec::new();
    args.push(a);
    args.push(b);
    FuncTypeSignature::new(args, Option::Some(ret))
}

/// A function type of one argument.
fn func1(a: Type, ret: Type) -> (t: Type)
    ensures
        t.view() == func_view(seq![a.view()], ret.view()),
{
    let args = vec![a];
    proof {
        crate::ast::lemma_types_view(args@);
        assert(crate::ast::types_view(args@) =~= seq![a.view()]);
    }
    Type::Func(args, Box::new(ret))
}

/// A function type of two arguments.
fn func2(a: Type, b: Type, ret: Type) -> (t: Type)
    ensures
        t.view() == func_view(seq![a.view(), b.view()], ret.view()),
{
    let args = vec![a, b];
    proof {
        crate::ast::lemma_types_view(args@);
        assert(crate::ast::types_view(args@) =~= seq![a.view(), b.view()]);
    }
    Type::Func(args, Box::new(ret))
}

/// A named global type.
fn global_type(name: &str, t: Type) -> (v: VarType)
    ensures
        v.name@ == name@,
        v.typ.view() == t.view(),
{
    VarType::new(String::from_str(name), t)
}

impl Env {
    /// An environment of the given globals and the host's functions.
    pub fn new(global_vars: Vec<(String, u64)>, global_types: Vec<VarType>) -> (e: Env)
        ensures
            e.global_vars == global_vars,
            e.global_types == global_types,
            imports_view(e.imports@) == host_imports(),
    {
        let mut imports: Vec<Import> = Vec::new();
        imports.push(Import::new("env", "print[Int]", sig1(Numtype::I32, Numtype::I32)));
        imports.push(Import::new("env", "print[Float]", sig1(Numtype::F32, Numtype::F32)));
        imports.push(Import::new("env", "pow[Int, Int]", sig2(Numtype::I32, Numtype::I32, Numtype::I32)));
        imports.push(Import::new("env", "pow[Float, Float]", sig2(Numtype::F32, Numtype::F32, Numtype::F32)));
        assert(imports_view(imports@) =~= host_imports());
        Env { global_vars, global_types, imports }
    }
}

impl Default for Env {
    /// The host's functions as global variables, and the types of the global
    /// names.
    fn default() -> (e: Env)
        ensures
            e.global_vars@.map_values(|v: (String, u64)| (v.0@, v.1)) == default_global_vars(),
            scope_view(e.global_types@) == default_global_types(),
            imports_view(e.imports@) == host_imports(),
    {
        let mut global_vars: Vec<(String, u64)> = Vec::new();
        global_vars.push((String::from_str("print[Int]"), 0));
        global_vars.push((String::from_str("print[Float]"), 1));
        global_vars.push((String::from_str("pow[Int, Int]"), 2));
        global_vars.push((String::from_str("pow[Float, Float]"), 3));
        assert(global_vars@.map_values(|v: (String, u64)| (v.0@, v.1)) =~= default_global_vars());
        let mut t: Vec<VarType> = Vec::new();
        t.push(global_type("print[Int]", func1(Type::Int, Type::Int)));
        t.push(global_type("print[Float]", func1(Type::Float, Type::Float)));
        t.push(global_type("pow[Int, Int]", func2(Type::Int, Type::Int, Type::Int)));
        t.push(global_type("pow[Float, Float]", func2(Type::Float, Type::Float, Type::Float)));
        t.push(global_type("abs[Int]", func1(Type::Int, Type::Int)));
        t.push(global_type("abs[Float]", func1(Type::Float, Type::Float)));
        t.push(global_type("int[Float]", func1(Type::Float, Type::Int)));
        t.push(global_type("float[Int]", func1(Type::Int, Type::Float)));
        t.push(global_type("mod[Int, Int]", func2(Type::Int, Type::Int, Type::Int)));
        t.push(global_type("sqrt[Float]", func1(Type::Float, Type::Float)));
        t.push(global_type("sum[Iter(Int)]", func1(Type::Iter(Box::new(Type::Int)), Type::Int)));
        t.push(global_type("sum[Iter(Float)]", func1(Type::Iter(Box::new(Type::Float)), Type::Float)));
        t.push(global_type("prod[Iter(Int)]", func1(Type::Iter(Box::new(Type::Int)), Type::Int)));
        t.push(global_type("prod[Iter(Float)]", func1(Type::Iter(Box::new(Type::Float)), Type::Float)));
        t.push(global_type("all[Iter(Bool)]", func1(Type::Iter(Box::new(Type::Bool)), Type::Bool)));
        t.push(global_type("any[Iter(Bool)]", func1(Type::Iter(Box::new(Type::Bool)), Type::Bool)));
        proof {
            crate::ast::lemma_scope_names(t@);
        }
        assert(scope_view(t@) =~= default_global_types());
        Env::new(global_vars, t)
    }
}

} // verus!
