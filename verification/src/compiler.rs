use vstd::prelude::*;

use crate::ast::{Type, TypeView, VarType};
use crate::builtin_func::{lemma_index_of_first_at, lemma_index_of_first_none};
use crate::chunk::{be16, Chunk, Function, HeapConstant, OpCode, too_many_constants, upvalue_bytes};
use crate::token::{str_eq, TokenType};
use vstd::string::StringExecFns;
use crate::wasmizer::{lemma_index_of_last_at, lemma_index_of_last_none};

verus! {

/// A local variable of the bytecode compiler: its name and the scope depth
/// it was declared at.
pub struct Local {
    pub name: String,
    pub depth: i32,
}

/// The names of a list of locals.
pub open spec fn names_of(locals: Seq<Local>) -> Seq<Seq<char>> {
    locals.map_values(|l: Local| l.name@)
}

/// The locals in scope, kept apart for values on the stack and values on the
/// heap, and the current scope depth.
pub struct LocalData {
    pub locals: Vec<Local>,
    pub heap_locals: Vec<Local>,
    pub scope_depth: i32,
}

/// The message of a too long list of locals.
pub open spec fn too_many_locals(is_heap: bool) -> Seq<char> {
    if is_heap {
        "Too many heap locals declared in current function"@
    } else {
        "Too many locals declared in current function"@
    }
}

impl Default for LocalData {
    /// No locals, outside any scope.
    fn default() -> (d: LocalData)
        ensures
            d.locals@.len() == 0,
            d.heap_locals@.len() == 0,
            d.scope_depth == -1,
    {
        LocalData { locals: Vec::new(), heap_locals: Vec::new(), scope_depth: -1 }
    }
}

impl LocalData {
    /// Adds a local to the heap or the stack locals; once that list holds
    /// `u16::MAX` locals, an index no longer fits and the error says so.
    pub fn push(&mut self, local: Local, is_heap: bool) -> (r: Result<(), &'static str>)
        ensures
            final(self).scope_depth == old(self).scope_depth,
            is_heap ==> final(self).heap_locals@ == old(self).heap_locals@.push(local)
                && final(self).locals@ == old(self).locals@,
            !is_heap ==> final(self).locals@ == old(self).locals@.push(local)
                && final(self).heap_locals@ == old(self).heap_locals@,
            match r {
                Ok(()) => (if is_heap { final(self).heap_locals@.len() } else { final(self).locals@.len() })
                    != u16::MAX,
                Err(msg) => (if is_heap { final(self).heap_locals@.len() } else { final(self).locals@.len() })
                    == u16::MAX && msg@ == too_many_locals(is_heap),
            },
    {
        if is_heap {
            self.heap_locals.push(local);
            if self.heap_locals.len() == 65535 {
                let msg = "Too many heap locals declared in current function";
                proof {
                    reveal_strlit("Too many heap locals declared in current function");
                }
                return Err(msg);
            }
        } else {
            self.locals.push(local);
            if self.locals.len() == 65535 {
                let msg = "Too many locals declared in current function";
                proof {
                    reveal_strlit("Too many locals declared in current function");
                }
                return Err(msg);
            }
        }
        Ok(())
    }

    /// The position of the innermost local with the given name among the heap
    /// or the stack locals.
    pub fn get_idx(&self, name: &str, is_heap: bool) -> (r: Option<u16>)
        ensures
            match names_of(if is_heap { self.heap_locals@ } else { self.locals@ }).index_of_last(name@) {
                Option::Some(k) => r is Some && r->0 == k % 65536,
                Option::None => r is None,
            },
    {
        let list = if is_heap { &self.heap_locals } else { &self.locals };
        let ghost names = names_of(list@);
        let mut i: usize = list.len();
        while i > 0
            invariant
                names == names_of(list@),
                list@ == (if is_heap { self.heap_locals@ } else { self.locals@ }),
                0 <= i <= list@.len(),
                forall|j: int| i <= j < list@.len() ==> names[j] != name@,
            decreases i,
        {
            i = i - 1;
            if str_eq(list[i].name.as_str(), name) {
                proof {
                    lemma_index_of_last_at(names, name@, i as int);
                }
                let idx: u16 = #[verifier::truncate] (i as u16);
                assert(idx == i % 65536) by (bit_vector)
                    requires
                        idx == #[verifier::truncate] (i as u16),
                ;
                return Option::Some(idx);
            }
        }
        proof {
            lemma_index_of_last_none(names, name@);
        }
        Option::None
    }
}

/// A variable that a closure captures: its index, and whether it is a local
/// of the enclosing function or one of that function's own upvalues.
#[derive(PartialEq, Eq, Structural, Clone, Copy, Debug)]
pub struct Upvalue {
    pub index: u16,
    pub is_local: bool,
}


/// The message of a function with too many captured values.
pub open spec fn too_many_upvalues(is_heap: bool) -> Seq<char> {
    if is_heap {
        "Too many heap upvalues in current function"@
    } else {
        "Too many upvalues in current function"@
    }
}

/// Adding a captured value to a list: a value already there keeps its index;
/// otherwise it goes at the end, unless the list is full.
pub open spec fn spec_add_upvalue(list: Seq<Upvalue>, uv: Upvalue, is_heap: bool) -> (Seq<Upvalue>, Result<u16, Seq<char>>) {
    match list.index_of_first(uv) {
        Option::Some(i) => (list, Ok(i as u16)),
        Option::None => if list.len() == u16::MAX {
            (list, Err(too_many_upvalues(is_heap)))
        } else {
            (list.push(uv), Ok(list.len() as u16))
        },
    }
}

/// Resolving a name that function `k` does not declare: if the enclosing
/// function declares it, function `k` captures that local; if the enclosing
/// function captures it in turn, function `k` captures that capture; if no
/// enclosing function has it, it is a global. `locs` holds the local names and
/// `ups` the captures of each function, of the kind (stack or heap) asked for.
pub open spec fn spec_resolve(
    locs: Seq<Seq<Seq<char>>>,
    ups: Seq<Seq<Upvalue>>,
    k: int,
    name: Seq<char>,
    is_heap: bool,
) -> (Seq<Seq<Upvalue>>, Result<Option<u16>, Seq<char>>)
    decreases k,
{
    if k <= 0 {
        (ups, Ok(Option::None))
    } else {
        match locs[k - 1].index_of_last(name) {
            Option::Some(i) => {
                let (l, r) = spec_add_upvalue(ups[k], Upvalue { index: (i % 65536) as u16, is_local: true }, is_heap);
                (ups.update(k, l), match r {
                    Ok(j) => Ok(Option::Some(j)),
                    Err(e) => Err(e),
                })
            },
            Option::None => {
                let (ups2, r) = spec_resolve(locs, ups, k - 1, name, is_heap);
                match r {
                    Ok(Option::Some(idx)) => {
                        let (l, r2) = spec_add_upvalue(ups2[k], Upvalue { index: idx, is_local: false }, is_heap);
                        (ups2.update(k, l), match r2 {
                            Ok(j) => Ok(Option::Some(j)),
                            Err(e) => Err(e),
                        })
                    },
                    _ => (ups2, r),
                }
            },
        }
    }
}

/// The compiler's state for one function being compiled: the function and
/// its code so far, its locals, and the values it captures.
pub struct Frame {
    pub function: Function,
    pub locals: LocalData,
    pub upvalues: Vec<Upvalue>,
    pub heap_upvalues: Vec<Upvalue>,
}

impl Frame {
    /// The counts in the function match its capture lists, and its code has
    /// no line starts (the compiler writes everything on line 0).
    pub open spec fn wf(&self) -> bool {
        &&& self.function.num_upvalues == self.upvalues@.len()
        &&& self.function.num_heap_upvalues == self.heap_upvalues@.len()
        &&& self.function.chunk.newlines@.len() == 0
        &&& self.upvalues@.len() <= u16::MAX
        &&& self.heap_upvalues@.len() <= u16::MAX
    }

    /// The local names of the kind asked for.
    pub open spec fn local_names(&self, is_heap: bool) -> Seq<Seq<char>> {
        names_of(if is_heap { self.locals.heap_locals@ } else { self.locals.locals@ })
    }

    /// The captures of the kind asked for.
    pub open spec fn ups(&self, is_heap: bool) -> Seq<Upvalue> {
        if is_heap { self.heap_upvalues@ } else { self.upvalues@ }
    }

    /// `new` is `self` with the captures of one kind replaced by `list`.
    pub open spec fn with_ups(&self, new: Frame, is_heap: bool, list: Seq<Upvalue>) -> bool {
        &&& new.locals == self.locals
        &&& new.function.chunk == self.function.chunk
        &&& new.function.name == self.function.name
        &&& new.function.arity == self.function.arity
        &&& new.function.heap_arity == self.function.heap_arity
        &&& new.function.return_is_heap == self.function.return_is_heap
        &&& new.ups(is_heap) == list
        &&& new.ups(!is_heap) == self.ups(!is_heap)
        &&& new.wf()
    }

    fn new() -> (f: Frame)
        ensures
            f.wf(),
            f.function.chunk.is_empty(),
            f.locals.locals@.len() == 0 && f.locals.heap_locals@.len() == 0 && f.locals.scope_depth == -1,
            f.upvalues@.len() == 0 && f.heap_upvalues@.len() == 0,
    {
        Frame { function: Function::new(), locals: LocalData::default(), upvalues: Vec::new(), heap_upvalues: Vec::new() }
    }
}

/// The bytecode compiler: a frame for each function being compiled, the
/// innermost last, and the types of the global variables.
pub struct Compiler {
    pub frames: Vec<Frame>,
    pub typecontext: Vec<VarType>,
}

/// The global types after a global is defined: a name already there takes the
/// new type in place, a new name goes at the end.
pub open spec fn types_insert(tc: Seq<(Seq<char>, TypeView)>, name: Seq<char>, t: TypeView) -> Seq<(Seq<char>, TypeView)> {
    match tc.map_values(|d: (Seq<char>, TypeView)| d.0).index_of_first(name) {
        Option::Some(i) => tc.update(i, (name, t)),
        Option::None => tc.push((name, t)),
    }
}

/// The view of the global types.
pub open spec fn types_view(tc: Seq<VarType>) -> Seq<(Seq<char>, TypeView)> {
    tc.map_values(|v: VarType| (v.name@, v.typ.view()))
}

fn to_string(e: &'static str) -> (s: String)
    ensures
        s@ == e@,
{
    String::from_str(e)
}

/// `new` is `old` without its trailing locals declared deeper than `depth`:
/// it keeps a prefix, whose last local (if any) is not deeper.
pub open spec fn popped_above(old: Seq<Local>, new: Seq<Local>, depth: int) -> bool {
    &&& new.len() <= old.len()
    &&& new == old.take(new.len() as int)
    &&& new.len() > 0 ==> new.last().depth <= depth
    &&& forall|k: int| new.len() <= k < old.len() ==> #[trigger] old[k].depth > depth
}

/// Drops the trailing locals declared deeper than `depth`, and counts them.
fn pop_deeper(locals: &mut Vec<Local>, depth: i32) -> (n: u16)
    requires
        old(locals)@.len() <= u16::MAX,
    ensures
        popped_above(old(locals)@, final(locals)@, depth as int),
        n == old(locals)@.len() - final(locals)@.len(),
{
    let mut n: u16 = 0;
    loop
        invariant_except_break
            old(locals)@.len() <= u16::MAX,
            locals@.len() <= old(locals)@.len(),
            locals@ == old(locals)@.take(locals@.len() as int),
            forall|k: int| locals@.len() <= k < old(locals)@.len() ==> #[trigger] old(locals)@[k].depth > depth,
            n == old(locals)@.len() - locals@.len(),
        ensures
            popped_above(old(locals)@, locals@, depth as int),
            n == old(locals)@.len() - locals@.len(),
        decreases locals@.len(),
    {
        let len = locals.len();
        if len == 0 {
            break;
        }
        if locals[len - 1].depth <= depth {
            break;
        }
        let _ = locals.pop();
        n = n + 1;
    }
    n
}

/// Gives a global its type: in place where the name is known, at the end
/// where it is new.
fn insert_type(tc: &mut Vec<VarType>, name: String, typ: Type)
    ensures
        types_view(final(tc)@) == types_insert(types_view(old(tc)@), name@, typ.view()),
{
    let ghost names = types_view(tc@).map_values(|d: (Seq<char>, TypeView)| d.0);
    let mut i: usize = 0;
    while i < tc.len()
        invariant
            tc@ == old(tc)@,
            names == types_view(tc@).map_values(|d: (Seq<char>, TypeView)| d.0),
            0 <= i <= tc@.len(),
            forall|j: int| 0 <= j < i ==> names[j] != name@,
        decreases tc@.len() - i,
    {
        if str_eq(tc[i].name.as_str(), name.as_str()) {
            proof {
                lemma_index_of_first_at(names, name@, i as int);
            }
            let ghost t = typ.view();
            let ghost n = name@;
            tc.set(i, VarType::new(name, typ));
            assert(types_view(tc@) =~= types_insert(types_view(old(tc)@), n, t));
            return;
        }
        i = i + 1;
    }
    proof {
        lemma_index_of_first_none(names, name@);
    }
    let ghost t = typ.view();
    let ghost n = name@;
    tc.push(VarType::new(name, typ));
    assert(types_view(tc@) =~= types_insert(types_view(old(tc)@), n, t));
}

/// The position of the first capture equal to `uv`.
fn find_upvalue(list: &Vec<Upvalue>, uv: Upvalue) -> (r: Option<u16>)
    requires
        list@.len() <= u16::MAX,
    ensures
        match list@.index_of_first(uv) {
            Option::Some(i) => r == Option::Some(i as u16),
            Option::None => r is None,
        },
{
    let mut i: usize = 0;
    while i < list.len()
        invariant
            0 <= i <= list@.len(),
            list@.len() <= u16::MAX,
            forall|j: int| 0 <= j < i ==> list@[j] != uv,
        decreases list@.len() - i,
    {
        if list[i] == uv {
            proof {
                lemma_index_of_first_at(list@, uv, i as int);
            }
            return Option::Some(i as u16);
        }
        i = i + 1;
    }
    proof {
        lemma_index_of_first_none(list@, uv);
    }
    Option::None
}

/// The instruction of a binary operator on operands of type `t`, where the
/// bytecode has one.
pub open spec fn binary_opcode(op: TokenType, t: TypeView) -> Option<OpCode> {
    match t {
        TypeView::Int => match op {
            TokenType::Eq => Some(OpCode::IntEqual),
            TokenType::NEq => Some(OpCode::IntNotEqual),
            TokenType::GT => Some(OpCode::IntGreater),
            TokenType::GEq => Some(OpCode::IntGreaterEqual),
            TokenType::LT => Some(OpCode::IntLess),
            TokenType::LEq => Some(OpCode::IntLessEqual),
            TokenType::Plus => Some(OpCode::IntAdd),
            TokenType::Minus => Some(OpCode::IntSubtract),
            TokenType::Star => Some(OpCode::IntMultiply),
            TokenType::Slash => Some(OpCode::IntDivide),
            TokenType::To => Some(OpCode::To),
            _ => None,
        },
        TypeView::Float => match op {
            TokenType::Eq => Some(OpCode::FloatEqual),
            TokenType::NEq => Some(OpCode::FloatNotEqual),
            TokenType::GT => Some(OpCode::FloatGreater),
            TokenType::GEq => Some(OpCode::FloatGreaterEqual),
            TokenType::LT => Some(OpCode::FloatLess),
            TokenType::LEq => Some(OpCode::FloatLessEqual),
            TokenType::Plus => Some(OpCode::FloatAdd),
            TokenType::Minus => Some(OpCode::FloatSubtract),
            TokenType::Star => Some(OpCode::FloatMultiply),
            TokenType::Slash => Some(OpCode::FloatDivide),
            _ => None,
        },
        TypeView::Bool => match op {
            TokenType::Eq => Some(OpCode::BoolEqual),
            TokenType::NEq => Some(OpCode::BoolNotEqual),
            TokenType::And => Some(OpCode::And),
            TokenType::Or => Some(OpCode::Or),
            _ => None,
        },
        TypeView::Str | TypeView::Arr(_) => match op {
            TokenType::Eq => Some(OpCode::HeapEqual),
            TokenType::NEq => Some(OpCode::HeapNotEqual),
            TokenType::Plus => Some(OpCode::Concat),
            _ => None,
        },
        _ => None,
    }
}

/// What a comparison operator of the language asks of two integers.
pub open spec fn comparison_meaning(t: TokenType, a: int, b: int) -> Option<bool> {
    match t {
        TokenType::Eq => Some(a == b),
        TokenType::NEq => Some(a != b),
        TokenType::GT => Some(a > b),
        TokenType::GEq => Some(a >= b),
        TokenType::LT => Some(a < b),
        TokenType::LEq => Some(a <= b),
        _ => None,
    }
}

/// What an integer comparison instruction of the bytecode tests when the
/// interpreter runs it on the two top values (`i64::eq`, `i64::gt`, ...).
pub open spec fn int_instruction_test(code: OpCode, a: int, b: int) -> Option<bool> {
    match code {
        OpCode::IntEqual => Some(a == b),
        OpCode::IntNotEqual => Some(a != b),
        OpCode::IntGreater => Some(a > b),
        OpCode::IntGreaterEqual => Some(a >= b),
        OpCode::IntLess => Some(a < b),
        OpCode::IntLessEqual => Some(a <= b),
        _ => None,
    }
}

/// The comparison operators.
pub open spec fn is_comparison(t: TokenType) -> bool {
    t == TokenType::Eq || t == TokenType::NEq || t == TokenType::GT || t == TokenType::GEq || t == TokenType::LT
        || t == TokenType::LEq
}

/// An integer comparison is compiled to the instruction that tests the same
/// relation: for all integers `a` and `b`, the instruction chosen for the
/// operator holds of them exactly when the operator does.
pub proof fn law_int_comparisons_keep_their_meaning(t: TokenType, a: int, b: int)
    requires
        is_comparison(t),
    ensures
        binary_opcode(t, TypeView::Int) matches Some(code) && int_instruction_test(code, a, b) == comparison_meaning(
            t,
            a,
            b,
        ),
{
}

/// What an arithmetic operator of the language computes from two integers
/// (division rounds toward zero).
pub open spec fn arithmetic_meaning(t: TokenType, a: int, b: int) -> Option<int> {
    match t {
        TokenType::Plus => Some(a + b),
        TokenType::Minus => Some(a - b),
        TokenType::Star => Some(a * b),
        TokenType::Slash => Some(crate::wasm_model::trunc_quot(a, b)),
        _ => None,
    }
}

/// What an integer arithmetic instruction of the bytecode computes when the
/// interpreter runs it (`i64::add`, `i64::sub`, `i64::mul`, `i64::div`).
pub open spec fn int_instruction_result(code: OpCode, a: int, b: int) -> Option<int> {
    match code {
        OpCode::IntAdd => Some(a + b),
        OpCode::IntSubtract => Some(a - b),
        OpCode::IntMultiply => Some(a * b),
        OpCode::IntDivide => Some(crate::wasm_model::trunc_quot(a, b)),
        _ => None,
    }
}

/// Integer arithmetic is compiled to the instruction that computes the same
/// operation.
pub proof fn law_int_arithmetic_keeps_its_meaning(t: TokenType, a: int, b: int)
    requires
        arithmetic_meaning(t, a, b) is Some,
    ensures
        binary_opcode(t, TypeView::Int) matches Some(code) && int_instruction_result(code, a, b)
            == arithmetic_meaning(t, a, b),
{
}

/// What a boolean operator of the language computes.
pub open spec fn bool_meaning(t: TokenType, a: bool, b: bool) -> Option<bool> {
    match t {
        TokenType::Eq => Some(a == b),
        TokenType::NEq => Some(a != b),
        TokenType::And => Some(a && b),
        TokenType::Or => Some(a || b),
        _ => None,
    }
}

/// What a boolean instruction of the bytecode computes when the interpreter
/// runs it.
pub open spec fn bool_instruction_result(code: OpCode, a: bool, b: bool) -> Option<bool> {
    match code {
        OpCode::BoolEqual => Some(a == b),
        OpCode::BoolNotEqual => Some(a != b),
        OpCode::And => Some(a && b),
        OpCode::Or => Some(a || b),
        _ => None,
    }
}

/// Boolean operators are compiled to the instruction that computes the same
/// operation.
pub proof fn law_bool_operators_keep_their_meaning(t: TokenType, a: bool, b: bool)
    requires
        bool_meaning(t, a, b) is Some,
    ensures
        binary_opcode(t, TypeView::Bool) matches Some(code) && bool_instruction_result(code, a, b) == bool_meaning(
            t,
            a,
            b,
        ),
{
}

/// The relation a comparison tests.
pub enum Relation {
    Equal,
    NotEqual,
    Greater,
    GreaterEqual,
    Less,
    LessEqual,
}

/// The relation a comparison operator of the language tests.
pub open spec fn operator_relation(t: TokenType) -> Option<Relation> {
    match t {
        TokenType::Eq => Some(Relation::Equal),
        TokenType::NEq => Some(Relation::NotEqual),
        TokenType::GT => Some(Relation::Greater),
        TokenType::GEq => Some(Relation::GreaterEqual),
        TokenType::LT => Some(Relation::Less),
        TokenType::LEq => Some(Relation::LessEqual),
        _ => None,
    }
}

/// The relation a float comparison instruction tests when the interpreter
/// runs it (`f64::eq`, `f64::gt`, ...).
pub open spec fn float_instruction_relation(code: OpCode) -> Option<Relation> {
    match code {
        OpCode::FloatEqual => Some(Relation::Equal),
        OpCode::FloatNotEqual => Some(Relation::NotEqual),
        OpCode::FloatGreater => Some(Relation::Greater),
        OpCode::FloatGreaterEqual => Some(Relation::GreaterEqual),
        OpCode::FloatLess => Some(Relation::Less),
        OpCode::FloatLessEqual => Some(Relation::LessEqual),
        _ => None,
    }
}

/// A float comparison is compiled to the instruction that tests the same
/// relation.
pub proof fn law_float_comparisons_keep_their_meaning(t: TokenType)
    requires
        operator_relation(t) is Some,
    ensures
        binary_opcode(t, TypeView::Float) matches Some(code) && float_instruction_relation(code) == operator_relation(
            t,
        ),
{
}

/// What a binary instruction does, and the kind of operands it works on.
pub enum Operation {
    Equal,
    NotEqual,
    Greater,
    GreaterEqual,
    Less,
    LessEqual,
    Add,
    Subtract,
    Multiply,
    Divide,
    And,
    Or,
    Join,
    Range,
}

/// The kinds of operands a binary instruction works on.
pub enum Operands {
    Ints,
    Floats,
    Bools,
    HeapValues,
}

/// What a bytecode instruction does when the interpreter runs it, and on
/// which kind of operands.
pub open spec fn instruction_operation(code: OpCode) -> Option<(Operation, Operands)> {
    match code {
        OpCode::IntEqual => Some((Operation::Equal, Operands::Ints)),
        OpCode::IntNotEqual => Some((Operation::NotEqual, Operands::Ints)),
        OpCode::IntGreater => Some((Operation::Greater, Operands::Ints)),
        OpCode::IntGreaterEqual => Some((Operation::GreaterEqual, Operands::Ints)),
        OpCode::IntLess => Some((Operation::Less, Operands::Ints)),
        OpCode::IntLessEqual => Some((Operation::LessEqual, Operands::Ints)),
        OpCode::IntAdd => Some((Operation::Add, Operands::Ints)),
        OpCode::IntSubtract => Some((Operation::Subtract, Operands::Ints)),
        OpCode::IntMultiply => Some((Operation::Multiply, Operands::Ints)),
        OpCode::IntDivide => Some((Operation::Divide, Operands::Ints)),
        OpCode::To => Some((Operation::Range, Operands::Ints)),
        OpCode::FloatEqual => Some((Operation::Equal, Operands::Floats)),
        OpCode::FloatNotEqual => Some((Operation::NotEqual, Operands::Floats)),
        OpCode::FloatGreater => Some((Operation::Greater, Operands::Floats)),
        OpCode::FloatGreaterEqual => Some((Operation::GreaterEqual, Operands::Floats)),
        OpCode::FloatLess => Some((Operation::Less, Operands::Floats)),
        OpCode::FloatLessEqual => Some((Operation::LessEqual, Operands::Floats)),
        OpCode::FloatAdd => Some((Operation::Add, Operands::Floats)),
        OpCode::FloatSubtract => Some((Operation::Subtract, Operands::Floats)),
        OpCode::FloatMultiply => Some((Operation::Multiply, Operands::Floats)),
        OpCode::FloatDivide => Some((Operation::Divide, Operands::Floats)),
        OpCode::BoolEqual => Some((Operation::Equal, Operands::Bools)),
        OpCode::BoolNotEqual => Some((Operation::NotEqual, Operands::Bools)),
        OpCode::And => Some((Operation::And, Operands::Bools)),
        OpCode::Or => Some((Operation::Or, Operands::Bools)),
        OpCode::HeapEqual => Some((Operation::Equal, Operands::HeapValues)),
        OpCode::HeapNotEqual => Some((Operation::NotEqual, Operands::HeapValues)),
        OpCode::Concat => Some((Operation::Join, Operands::HeapValues)),
        _ => None,
    }
}

/// What a binary operator of the language does: `+` joins strings and
/// arrays and adds numbers, `to` builds a range, the others as their names
/// say.
pub open spec fn operator_operation(t: TokenType, typ: TypeView) -> Option<Operation> {
    match t {
        TokenType::Eq => Some(Operation::Equal),
        TokenType::NEq => Some(Operation::NotEqual),
        TokenType::GT => Some(Operation::Greater),
        TokenType::GEq => Some(Operation::GreaterEqual),
        TokenType::LT => Some(Operation::Less),
        TokenType::LEq => Some(Operation::LessEqual),
        TokenType::Plus => if typ is Str || typ is Arr {
            Some(Operation::Join)
        } else {
            Some(Operation::Add)
        },
        TokenType::Minus => Some(Operation::Subtract),
        TokenType::Star => Some(Operation::Multiply),
        TokenType::Slash => Some(Operation::Divide),
        TokenType::And => Some(Operation::And),
        TokenType::Or => Some(Operation::Or),
        TokenType::To => Some(Operation::Range),
        _ => None,
    }
}

/// The kind of operands values of a type are.
pub open spec fn operands_of(typ: TypeView) -> Option<Operands> {
    match typ {
        TypeView::Int => Some(Operands::Ints),
        TypeView::Float => Some(Operands::Floats),
        TypeView::Bool => Some(Operands::Bools),
        TypeView::Str | TypeView::Arr(_) => Some(Operands::HeapValues),
        _ => None,
    }
}

/// Every binary operator is compiled to an instruction that does what the
/// operator means, on the kind of operands its type has.
pub proof fn law_binary_instruction_matches_operator(t: TokenType, typ: TypeView)
    requires
        binary_opcode(t, typ) is Some,
    ensures
        instruction_operation(binary_opcode(t, typ)->0) matches Some((operation, operands)) && Some(operation)
            == operator_operation(t, typ) && Some(operands) == operands_of(typ),
{
}

/// Which operators the bytecode supports: comparisons and arithmetic on
/// integers and floats, `to` on integers, equality, `and` and `or` on
/// booleans, and equality and `+` on strings and arrays.
pub proof fn law_binary_operators_supported(t: TokenType, typ: TypeView)
    ensures
        (typ is Int || typ is Float) && (is_comparison(t) || t == TokenType::Plus || t == TokenType::Minus || t
            == TokenType::Star || t == TokenType::Slash) ==> binary_opcode(t, typ) is Some,
        typ is Int && t == TokenType::To ==> binary_opcode(t, typ) is Some,
        typ is Bool && (t == TokenType::Eq || t == TokenType::NEq || t == TokenType::And || t == TokenType::Or)
            ==> binary_opcode(t, typ) is Some,
        (typ is Str || typ is Arr) && (t == TokenType::Eq || t == TokenType::NEq || t == TokenType::Plus)
            ==> binary_opcode(t, typ) is Some,
{
}

/// Different operators are compiled to different instructions, for operands
/// of any one type: no two operators share an instruction.
pub proof fn law_binary_instructions_distinct(t1: TokenType, t2: TokenType, typ: TypeView)
    requires
        t1 != t2,
        binary_opcode(t1, typ) is Some,
        binary_opcode(t2, typ) is Some,
    ensures
        binary_opcode(t1, typ) != binary_opcode(t2, typ),
{
}

/// Why a binary operator has no instruction for operands of type `t`: the
/// operator is not defined on that type (for an array, the message names the
/// element type), or the type has no binary operators at all.
pub open spec fn binary_unsupported(op: TokenType, t: TypeView) -> Seq<char> {
    match t {
        TypeView::Int | TypeView::Float | TypeView::Bool | TypeView::Str => "Operator "@ + op.spec_debug_name()
            + " not supported for type "@ + t.debug(),
        TypeView::Arr(e) => "Operator "@ + op.spec_debug_name() + " not supported for type "@ + e.debug(),
        _ => "Type "@ + t.debug() + " not yet supported for binary operation"@,
    }
}

impl Compiler {
    pub open spec fn wf(&self) -> bool {
        &&& self.frames@.len() > 0
        &&& forall|i: int| 0 <= i < self.frames@.len() ==> #[trigger] self.frames@[i].wf()
    }

    /// The frame of the function being compiled.
    pub open spec fn cur(&self) -> Frame {
        self.frames@.last()
    }

    /// The code of the function being compiled.
    pub open spec fn code(&self) -> Seq<u8> {
        self.cur().function.chunk.bytes@
    }

    /// `new` differs from `self` only in the chunk of the current function.
    pub open spec fn only_chunk(&self, new: &Self) -> bool {
        &&& new.frames@.len() == self.frames@.len()
        &&& forall|i: int| 0 <= i < self.frames@.len() - 1 ==> #[trigger] new.frames@[i] == self.frames@[i]
        &&& new.cur().locals == self.cur().locals
        &&& new.cur().upvalues == self.cur().upvalues
        &&& new.cur().heap_upvalues == self.cur().heap_upvalues
        &&& new.cur().function.name == self.cur().function.name
        &&& new.cur().function.num_upvalues == self.cur().function.num_upvalues
        &&& new.cur().function.num_heap_upvalues == self.cur().function.num_heap_upvalues
        &&& new.cur().function.arity == self.cur().function.arity
        &&& new.cur().function.heap_arity == self.cur().function.heap_arity
        &&& new.cur().function.return_is_heap == self.cur().function.return_is_heap
        &&& new.cur().function.chunk.newlines@ == self.cur().function.chunk.newlines@
        &&& new.typecontext == self.typecontext
    }

    /// A compiler for a top-level program, over the given global types.
    pub fn new(typecontext: Vec<VarType>) -> (c: Compiler)
        ensures
            c.wf(),
            c.frames@.len() == 1,
            c.cur().function.chunk.is_empty(),
            c.cur().locals.locals@.len() == 0 && c.cur().locals.heap_locals@.len() == 0,
            c.cur().locals.scope_depth == -1,
            c.cur().upvalues@.len() == 0 && c.cur().heap_upvalues@.len() == 0,
            c.typecontext == typecontext,
    {
        let mut frames: Vec<Frame> = Vec::new();
        frames.push(Frame::new());
        Compiler { frames, typecontext }
    }

    /// Starts compiling a function nested in the current one.
    pub fn new_from(&mut self)
        requires
            old(self).wf(),
        ensures
            final(self).wf(),
            final(self).frames@.drop_last() == old(self).frames@,
            final(self).cur().function.chunk.is_empty(),
            final(self).cur().locals.locals@.len() == 0 && final(self).cur().locals.heap_locals@.len() == 0,
            final(self).cur().locals.scope_depth == -1,
            final(self).cur().upvalues@.len() == 0 && final(self).cur().heap_upvalues@.len() == 0,
            final(self).typecontext == old(self).typecontext,
    {
        self.frames.push(Frame::new());
        assert(self.frames@.drop_last() =~= old(self).frames@);
    }

    /// Writes an instruction.
    pub fn write_opcode(&mut self, opcode: OpCode)
        requires
            old(self).wf(),
        ensures
            final(self).wf(),
            old(self).only_chunk(final(self)),
            final(self).code() == old(self).code().push(opcode.spec_byte()),
            final(self).cur().function.chunk.constants == old(self).cur().function.chunk.constants,
            final(self).cur().function.chunk.heap_constants == old(self).cur().function.chunk.heap_constants,
    {
        let n = self.frames.len();
        assert(self.frames@[n - 1].wf());
        self.frames[n - 1].function.chunk.write_opcode(opcode, 0);
        proof {
            assert(self.frames@[n - 1].wf());
        }
    }

    /// Writes an instruction that pushes a 64-bit constant (given by its
    /// bits).
    pub fn write_constant(&mut self, value: u64) -> (r: Result<(), String>)
        requires
            old(self).wf(),
            old(self).cur().function.chunk.constants@.len() < usize::MAX,
        ensures
            final(self).wf(),
            old(self).only_chunk(final(self)),
            final(self).cur().function.chunk.constants@ == old(self).cur().function.chunk.constants@.push(value),
            final(self).cur().function.chunk.heap_constants == old(self).cur().function.chunk.heap_constants,
            ({
                let k = old(self).cur().function.chunk.constants@.len();
                match r {
                    Ok(()) => k <= u16::MAX && final(self).code() == old(self).code()
                        + seq![OpCode::Constant.spec_byte()] + be16(k as u16),
                    Err(e) => k > u16::MAX && e@ == too_many_constants() && final(self).code() == old(self).code(),
                }
            }),
    {
        let n = self.frames.len();
        assert(self.frames@[n - 1].wf());
        let r = self.frames[n - 1].function.chunk.write_constant(value, 0);
        assert(self.frames@[n - 1].wf());
        match r {
            Ok(()) => Ok(()),
            Err(e) => Err(to_string(e)),
        }
    }

    /// Writes an instruction that pushes a heap constant.
    pub fn write_heap_constant(&mut self, value: HeapConstant) -> (r: Result<(), String>)
        requires
            old(self).wf(),
            old(self).cur().function.chunk.heap_constants@.len() < usize::MAX,
        ensures
            final(self).wf(),
            old(self).only_chunk(final(self)),
            final(self).cur().function.chunk.heap_constants@ == old(self).cur().function.chunk.heap_constants@.push(
                value,
            ),
            final(self).cur().function.chunk.constants == old(self).cur().function.chunk.constants,
            ({
                let k = old(self).cur().function.chunk.heap_constants@.len();
                match r {
                    Ok(()) => k <= u16::MAX && final(self).code() == old(self).code()
                        + seq![OpCode::HeapConstant.spec_byte()] + be16(k as u16),
                    Err(e) => k > u16::MAX && e@ == too_many_constants() && final(self).code() == old(self).code(),
                }
            }),
    {
        let n = self.frames.len();
        assert(self.frames@[n - 1].wf());
        let r = self.frames[n - 1].function.chunk.write_heap_constant(value, 0);
        assert(self.frames@[n - 1].wf());
        match r {
            Ok(()) => Ok(()),
            Err(e) => Err(to_string(e)),
        }
    }

    /// Writes an instruction that pushes a string constant.
    pub fn write_string(&mut self, s: String) -> (r: Result<(), String>)
        requires
            old(self).wf(),
            old(self).cur().function.chunk.heap_constants@.len() < usize::MAX,
        ensures
            final(self).wf(),
            old(self).only_chunk(final(self)),
            final(self).cur().function.chunk.heap_constants@ == old(self).cur().function.chunk.heap_constants@.push(
                HeapConstant::Str(s),
            ),
            final(self).cur().function.chunk.constants == old(self).cur().function.chunk.constants,
            ({
                let k = old(self).cur().function.chunk.heap_constants@.len();
                match r {
                    Ok(()) => k <= u16::MAX && final(self).code() == old(self).code()
                        + seq![OpCode::HeapConstant.spec_byte()] + be16(k as u16),
                    Err(e) => k > u16::MAX && e@ == too_many_constants() && final(self).code() == old(self).code(),
                }
            }),
    {
        self.write_heap_constant(HeapConstant::Str(s))
    }

    /// Writes an instruction that builds an array of `len` stack values.
    pub fn write_array(&mut self, len: u16) -> (r: Result<(), String>)
        requires
            old(self).wf(),
        ensures
            r is Ok,
            final(self).wf(),
            old(self).only_chunk(final(self)),
            final(self).code() == old(self).code() + seq![OpCode::Array.spec_byte()] + be16(len),
            final(self).cur().function.chunk.constants == old(self).cur().function.chunk.constants,
            final(self).cur().function.chunk.heap_constants == old(self).cur().function.chunk.heap_constants,
    {
        let n = self.frames.len();
        assert(self.frames@[n - 1].wf());
        let _ = self.frames[n - 1].function.chunk.write_array(len, 0);
        assert(self.frames@[n - 1].wf());
        Ok(())
    }

    /// Writes an instruction that builds an array of `len` heap values.
    pub fn write_array_heap(&mut self, len: u16) -> (r: Result<(), String>)
        requires
            old(self).wf(),
        ensures
            r is Ok,
            final(self).wf(),
            old(self).only_chunk(final(self)),
            final(self).code() == old(self).code() + seq![OpCode::ArrayHeap.spec_byte()] + be16(len),
            final(self).cur().function.chunk.constants == old(self).cur().function.chunk.constants,
            final(self).cur().function.chunk.heap_constants == old(self).cur().function.chunk.heap_constants,
    {
        let n = self.frames.len();
        assert(self.frames@[n - 1].wf());
        let _ = self.frames[n - 1].function.chunk.write_array_array(len, 0);
        assert(self.frames@[n - 1].wf());
        Ok(())
    }

    /// Writes a jump with an offset still to be patched, and gives where the
    /// offset is.
    pub fn write_jump(&mut self, opcode: OpCode) -> (r: Result<usize, String>)
        requires
            old(self).wf(),
        ensures
            final(self).wf(),
            old(self).only_chunk(final(self)),
            final(self).cur().function.chunk.constants == old(self).cur().function.chunk.constants,
            final(self).cur().function.chunk.heap_constants == old(self).cur().function.chunk.heap_constants,
            match r {
                Ok(i) => (opcode == OpCode::Jump || opcode == OpCode::JumpIfFalse) && final(self).code()
                    == old(self).code() + seq![opcode.spec_byte(), 0u8, 0u8] && i == old(self).code().len() + 1,
                Err(e) => !(opcode == OpCode::Jump || opcode == OpCode::JumpIfFalse) && e@
                    == "Invalid opcode for write_jump"@ && final(self).code() == old(self).code(),
            },
    {
        let n = self.frames.len();
        assert(self.frames@[n - 1].wf());
        let r = self.frames[n - 1].function.chunk.write_jump(opcode, 0);
        assert(self.frames@[n - 1].wf());
        match r {
            Ok(i) => Ok(i),
            Err(e) => Err(to_string(e)),
        }
    }

    /// Points the jump whose offset is at `offset` to the end of the code.
    pub fn patch_jump(&mut self, offset: usize) -> (r: Result<(), String>)
        requires
            old(self).wf(),
            offset + 2 <= old(self).code().len(),
        ensures
            final(self).wf(),
            old(self).only_chunk(final(self)),
            final(self).cur().function.chunk.constants == old(self).cur().function.chunk.constants,
            final(self).cur().function.chunk.heap_constants == old(self).cur().function.chunk.heap_constants,
            ({
                let jump = old(self).code().len() - offset - 2;
                match r {
                    Ok(()) => jump <= u16::MAX && final(self).code() == old(self).code().update(
                        offset as int,
                        (jump / 256) as u8,
                    ).update(offset + 1, (jump % 256) as u8),
                    Err(e) => jump > u16::MAX && e@ == "Jump offset overflow"@ && final(self).code()
                        == old(self).code(),
                }
            }),
    {
        let n = self.frames.len();
        assert(self.frames@[n - 1].wf());
        let r = self.frames[n - 1].function.chunk.patch_jump(offset);
        assert(self.frames@[n - 1].wf());
        match r {
            Ok(()) => Ok(()),
            Err(e) => Err(to_string(e)),
        }
    }

    /// Finishes the current function and writes, in the enclosing one, the
    /// instruction that makes a closure of it with what it captures.
    pub fn write_function(&mut self) -> (r: Result<(), String>)
        requires
            old(self).wf(),
            old(self).frames@.len() >= 2,
            old(self).frames@[old(self).frames@.len() - 2].function.chunk.heap_constants@.len() < usize::MAX,
        ensures
            final(self).wf(),
            final(self).frames@.len() == old(self).frames@.len() - 1,
            ({
                let inner = old(self).cur();
                let outer = old(self).frames@[old(self).frames@.len() - 2];
                let k = outer.function.chunk.heap_constants@.len();
                let c = final(self).cur().function.chunk;
                &&& forall|i: int| 0 <= i < final(self).frames@.len() - 1 ==> #[trigger] final(self).frames@[i]
                    == old(self).frames@[i]
                &&& final(self).cur().locals == outer.locals
                &&& final(self).cur().upvalues == outer.upvalues
                &&& final(self).cur().heap_upvalues == outer.heap_upvalues
                &&& final(self).typecontext == old(self).typecontext
                &&& c.heap_constants@.len() == k + 1
                &&& c.heap_constants@.drop_last() == outer.function.chunk.heap_constants@
                &&& c.heap_constants@.last() matches HeapConstant::Closure(f) && *f == inner.function
                &&& c.constants == outer.function.chunk.constants
                &&& match r {
                    Ok(()) => k <= u16::MAX && c.bytes@ == outer.function.chunk.bytes@
                        + seq![OpCode::Closure.spec_byte()] + be16(k as u16) + upvalue_bytes(inner.upvalues@)
                        + upvalue_bytes(inner.heap_upvalues@),
                    Err(e) => k > u16::MAX && e@ == too_many_constants() && c.bytes@
                        == outer.function.chunk.bytes@,
                }
            }),
    {
        let inner = self.frames.pop().unwrap();
        let n = self.frames.len();
        assert(self.frames@[n - 1].wf());
        let r = self.frames[n - 1].function.chunk.write_closure(
            inner.function,
            &inner.upvalues,
            &inner.heap_upvalues,
            0,
        );
        assert(self.frames@[n - 1].wf());
        match r {
            Ok(()) => Ok(()),
            Err(e) => Err(to_string(e)),
        }
    }

    /// Enters a nested scope.
    pub fn begin_scope(&mut self)
        requires
            old(self).wf(),
            old(self).cur().locals.scope_depth < i32::MAX,
        ensures
            final(self).wf(),
            final(self).frames@ == old(self).frames@.update(
                old(self).frames@.len() - 1,
                Frame {
                    locals: LocalData { scope_depth: (old(self).cur().locals.scope_depth + 1) as i32, ..old(self).cur().locals },
                    ..old(self).cur()
                },
            ),
            final(self).typecontext == old(self).typecontext,
    {
        let n = self.frames.len();
        assert(self.frames@[n - 1].wf());
        self.frames[n - 1].locals.scope_depth = self.frames[n - 1].locals.scope_depth + 1;
        assert(self.frames@[n - 1].wf());
        assert(self.frames@ =~= old(self).frames@.update(
            old(self).frames@.len() - 1,
            Frame {
                locals: LocalData { scope_depth: (old(self).cur().locals.scope_depth + 1) as i32, ..old(self).cur().locals },
                ..old(self).cur()
            },
        ));
    }

    /// Leaves the current scope: drops the locals declared deeper than the
    /// scope left, and writes the instruction that pops them, with how many
    /// stack and heap locals it pops.
    pub fn end_scope(&mut self, is_heap: bool) -> (r: Result<(), String>)
        requires
            old(self).wf(),
            old(self).cur().locals.scope_depth > i32::MIN,
            old(self).cur().locals.locals@.len() <= u16::MAX,
            old(self).cur().locals.heap_locals@.len() <= u16::MAX,
        ensures
            r is Ok,
            final(self).wf(),
            final(self).frames@.len() == old(self).frames@.len(),
            forall|i: int| 0 <= i < old(self).frames@.len() - 1 ==> #[trigger] final(self).frames@[i] == old(
                self,
            ).frames@[i],
            final(self).typecontext == old(self).typecontext,
            ({
                let f = old(self).cur();
                let g = final(self).cur();
                let depth = f.locals.scope_depth - 1;
                let kept = g.locals.locals@.len();
                let hkept = g.locals.heap_locals@.len();
                &&& g.locals.scope_depth == depth
                &&& popped_above(f.locals.locals@, g.locals.locals@, depth)
                &&& popped_above(f.locals.heap_locals@, g.locals.heap_locals@, depth)
                &&& g.upvalues == f.upvalues && g.heap_upvalues == f.heap_upvalues
                &&& g.function.name == f.function.name && g.function.arity == f.function.arity
                &&& g.function.heap_arity == f.function.heap_arity
                &&& g.function.return_is_heap == f.function.return_is_heap
                &&& g.function.chunk.constants == f.function.chunk.constants
                &&& g.function.chunk.heap_constants == f.function.chunk.heap_constants
                &&& g.function.chunk.bytes@ == f.function.chunk.bytes@ + seq![
                    (if is_heap { OpCode::EndHeapBlock } else { OpCode::EndBlock }).spec_byte(),
                ] + be16((f.locals.locals@.len() - kept) as u16) + be16((f.locals.heap_locals@.len() - hkept) as u16)
            }),
    {
        let mut frame = self.frames.pop().unwrap();
        assert(frame.wf()) by {
            assert(old(self).frames@[old(self).frames@.len() - 1].wf());
        }
        let depth = frame.locals.scope_depth - 1;
        frame.locals.scope_depth = depth;
        let n_pops = pop_deeper(&mut frame.locals.locals, depth);
        let n_heap_pops = pop_deeper(&mut frame.locals.heap_locals, depth);
        let _ = frame.function.chunk.write_endblock(n_pops, n_heap_pops, is_heap, 0);
        self.frames.push(frame);
        assert forall|i: int| 0 <= i < self.frames@.len() implies #[trigger] self.frames@[i].wf() by {
            if i < self.frames@.len() - 1 {
                assert(self.frames@[i] == old(self).frames@[i]);
            }
        }
        Ok(())
    }

    /// Declares a variable: at scope depth 0 a global, whose name becomes a
    /// heap constant and whose type goes into the global types, and whose
    /// name's index is given back; deeper, a local of the current scope.
    pub fn create_variable(&mut self, name: String, typ: &Type) -> (r: Result<Option<u16>, String>)
        requires
            old(self).wf(),
            old(self).cur().function.chunk.heap_constants@.len() < usize::MAX,
        ensures
            final(self).wf(),
            final(self).frames@.len() == old(self).frames@.len(),
            forall|i: int| 0 <= i < old(self).frames@.len() - 1 ==> #[trigger] final(self).frames@[i] == old(
                self,
            ).frames@[i],
            ({
                let f = old(self).cur();
                let g = final(self).cur();
                if f.locals.scope_depth == 0 {
                    let k = f.function.chunk.heap_constants@.len();
                    &&& g.locals == f.locals && g.upvalues == f.upvalues && g.heap_upvalues == f.heap_upvalues
                    &&& g.function.chunk.bytes == f.function.chunk.bytes
                    &&& g.function.chunk.constants == f.function.chunk.constants
                    &&& g.function.chunk.heap_constants@ == f.function.chunk.heap_constants@.push(
                        HeapConstant::Str(name),
                    )
                    &&& match r {
                        Ok(i) => k <= u16::MAX && i == Option::Some(k as u16) && types_view(final(self).typecontext@)
                            == types_insert(types_view(old(self).typecontext@), name@, typ.view()),
                        Err(e) => k > u16::MAX && e@ == too_many_constants() && final(self).typecontext
                            == old(self).typecontext,
                    }
                } else {
                    let local = Local { name, depth: f.locals.scope_depth };
                    let h = typ.spec_is_heap();
                    &&& final(self).typecontext == old(self).typecontext
                    &&& g.function == f.function && g.upvalues == f.upvalues && g.heap_upvalues == f.heap_upvalues
                    &&& g.locals.scope_depth == f.locals.scope_depth
                    &&& h ==> g.locals.heap_locals@ == f.locals.heap_locals@.push(local) && g.locals.locals@
                        == f.locals.locals@
                    &&& !h ==> g.locals.locals@ == f.locals.locals@.push(local) && g.locals.heap_locals@
                        == f.locals.heap_locals@
                    &&& match r {
                        Ok(i) => i is None && (if h { g.locals.heap_locals@.len() } else { g.locals.locals@.len() })
                            != u16::MAX,
                        Err(e) => (if h { g.locals.heap_locals@.len() } else { g.locals.locals@.len() })
                            == u16::MAX && e@ == too_many_locals(h),
                    }
                }
            }),
    {
        let mut frame = self.frames.pop().unwrap();
        assert(frame.wf()) by {
            assert(old(self).frames@[old(self).frames@.len() - 1].wf());
        }
        let r = if frame.locals.scope_depth == 0 {
            match frame.function.chunk.create_heap_constant(HeapConstant::Str(name.clone())) {
                Ok(idx) => {
                    insert_type(&mut self.typecontext, name, typ.copy());
                    Ok(Option::Some(idx))
                },
                Err(e) => Err(to_string(e)),
            }
        } else {
            let depth = frame.locals.scope_depth;
            match frame.locals.push(Local { name, depth }, typ.is_heap()) {
                Ok(()) => Ok(Option::None),
                Err(e) => Err(to_string(e)),
            }
        };
        let ghost fr = frame;
        self.frames.push(frame);
        assert(self.cur() == fr);
        assert forall|i: int| 0 <= i < self.frames@.len() implies #[trigger] self.frames@[i].wf() by {
            if i < self.frames@.len() - 1 {
                assert(self.frames@[i] == old(self).frames@[i]);
            }
        }
        r
    }

    /// Stores the top of the stack in a variable: the global whose name is
    /// heap constant `idx`, or, without an index, the newest local.
    pub fn set_variable(&mut self, idx: Option<u16>, is_heap: bool) -> (r: Result<(), String>)
        requires
            old(self).wf(),
        ensures
            r is Ok,
            final(self).wf(),
            old(self).only_chunk(final(self)),
            final(self).cur().function.chunk.constants == old(self).cur().function.chunk.constants,
            final(self).cur().function.chunk.heap_constants == old(self).cur().function.chunk.heap_constants,
            final(self).code() == match idx {
                Option::Some(i) => old(self).code() + seq![
                    (if is_heap { OpCode::SetHeapGlobal } else { OpCode::SetGlobal }).spec_byte(),
                ] + be16(i),
                Option::None => old(self).code().push(
                    (if is_heap { OpCode::SetHeapLocal } else { OpCode::SetLocal }).spec_byte(),
                ),
            },
    {
        match idx {
            Option::Some(i) => {
                let n = self.frames.len();
                assert(self.frames@[n - 1].wf());
                let _ = self.frames[n - 1].function.chunk.write_set_global(i, is_heap, 0);
                assert(self.frames@[n - 1].wf());
                Ok(())
            },
            Option::None => {
                self.write_opcode(if is_heap { OpCode::SetHeapLocal } else { OpCode::SetLocal });
                Ok(())
            },
        }
    }

    /// The local names of the kind asked for, function by function.
    pub open spec fn all_local_names(&self, is_heap: bool) -> Seq<Seq<Seq<char>>> {
        self.frames@.map_values(|f: Frame| f.local_names(is_heap))
    }

    /// The captures of the kind asked for, function by function.
    pub open spec fn all_ups(&self, is_heap: bool) -> Seq<Seq<Upvalue>> {
        self.frames@.map_values(|f: Frame| f.ups(is_heap))
    }

    /// `new` is `self` with the captures of one kind replaced, function by
    /// function, by `ups`.
    pub open spec fn with_all_ups(&self, new: &Self, is_heap: bool, ups: Seq<Seq<Upvalue>>) -> bool {
        &&& new.frames@.len() == self.frames@.len()
        &&& ups.len() == self.frames@.len()
        &&& forall|i: int| 0 <= i < self.frames@.len() ==> #[trigger] self.frames@[i].with_ups(new.frames@[i], is_heap, ups[i])
        &&& new.typecontext == self.typecontext
    }

    /// Makes function `k` capture a value: one it already captures keeps its
    /// index; a new one goes at the end of its list, unless the list is full.
    fn add_upvalue(&mut self, k: usize, index: u16, is_local: bool, is_heap: bool) -> (r: Result<u16, String>)
        requires
            old(self).wf(),
            k < old(self).frames@.len(),
        ensures
            final(self).wf(),
            ({
                let (l, r2) = spec_add_upvalue(
                    old(self).frames@[k as int].ups(is_heap),
                    Upvalue { index, is_local },
                    is_heap,
                );
                &&& old(self).with_all_ups(final(self), is_heap, old(self).all_ups(is_heap).update(k as int, l))
                &&& match r2 {
                    Ok(j) => r == Ok::<u16, String>(j),
                    Err(e) => r is Err && r->Err_0@ == e,
                }
            }),
    {
        let uv = Upvalue { index, is_local };
        let mut frame = self.frames.remove(k);
        assert(frame.wf()) by {
            assert(old(self).frames@[k as int].wf());
        }
        let ghost list = frame.ups(is_heap);
        let r: Result<u16, String>;
        {
            let found = find_upvalue(if is_heap { &frame.heap_upvalues } else { &frame.upvalues }, uv);
            match found {
                Option::Some(i) => {
                    r = Ok(i);
                },
                Option::None => {
                    if is_heap {
                        if frame.heap_upvalues.len() == 65535 {
                            proof {
                                reveal_strlit("Too many heap upvalues in current function");
                            }
                            r = Err(String::from_str("Too many heap upvalues in current function"));
                        } else {
                            frame.heap_upvalues.push(uv);
                            frame.function.num_heap_upvalues = frame.function.num_heap_upvalues + 1;
                            r = Ok((frame.heap_upvalues.len() - 1) as u16);
                        }
                    } else {
                        if frame.upvalues.len() == 65535 {
                            proof {
                                reveal_strlit("Too many upvalues in current function");
                            }
                            r = Err(String::from_str("Too many upvalues in current function"));
                        } else {
                            frame.upvalues.push(uv);
                            frame.function.num_upvalues = frame.function.num_upvalues + 1;
                            r = Ok((frame.upvalues.len() - 1) as u16);
                        }
                    }
                },
            }
        }
        let ghost fr = frame;
        self.frames.insert(k, frame);
        assert(self.frames@ =~= old(self).frames@.update(k as int, fr));
        proof {
            let (l, r2) = spec_add_upvalue(list, uv, is_heap);
            assert(old(self).frames@[k as int].with_ups(fr, is_heap, l));
            assert forall|i: int| 0 <= i < self.frames@.len() implies #[trigger] old(self).frames@[i].with_ups(
                self.frames@[i],
                is_heap,
                old(self).all_ups(is_heap).update(k as int, l)[i],
            ) by {
                if i != k {
                    assert(old(self).frames@[i].wf());
                }
            }
            assert forall|i: int| 0 <= i < self.frames@.len() implies #[trigger] self.frames@[i].wf() by {
                if i != k {
                    assert(old(self).frames@[i].wf());
                }
            }
        }
        r
    }

    /// Resolves a name that function `k` does not declare, as a capture of an
    /// enclosing function's local, through the functions in between;
    /// `None` if no enclosing function has it (it is then a global).
    fn resolve_upvalue(&mut self, k: usize, name: &str, is_heap: bool) -> (r: Result<Option<u16>, String>)
        requires
            old(self).wf(),
            k < old(self).frames@.len(),
        ensures
            final(self).wf(),
            ({
                let (ups2, r2) = spec_resolve(
                    old(self).all_local_names(is_heap),
                    old(self).all_ups(is_heap),
                    k as int,
                    name@,
                    is_heap,
                );
                &&& old(self).with_all_ups(final(self), is_heap, ups2)
                &&& match r2 {
                    Ok(o) => r == Ok::<Option<u16>, String>(o),
                    Err(e) => r is Err && r->Err_0@ == e,
                }
            }),
        decreases k,
    {
        let ghost locs = old(self).all_local_names(is_heap);
        let ghost ups = old(self).all_ups(is_heap);
        if k == 0 {
            proof {
                assert forall|i: int| 0 <= i < self.frames@.len() implies #[trigger] self.frames@[i].with_ups(
                    self.frames@[i],
                    is_heap,
                    ups[i],
                ) by {
                    assert(self.frames@[i].wf());
                }
            }
            return Ok(Option::None);
        }
        let p = k - 1;
        let local = self.frames[p].locals.get_idx(name, is_heap);
        assert(locs[p as int] == self.frames@[p as int].local_names(is_heap));
        match local {
            Option::Some(idx) => {
                let r = self.add_upvalue(k, idx, true, is_heap);
                match r {
                    Ok(j) => Ok(Option::Some(j)),
                    Err(e) => Err(e),
                }
            },
            Option::None => {
                let r = self.resolve_upvalue(p, name, is_heap);
                let ghost mid = *self;
                let ghost (ups2, r2) = spec_resolve(locs, ups, p as int, name@, is_heap);
                assert(mid.all_ups(is_heap) =~= ups2) by {
                    assert forall|i: int| 0 <= i < ups2.len() implies mid.all_ups(is_heap)[i] == ups2[i] by {
                        assert(old(self).frames@[i].with_ups(mid.frames@[i], is_heap, ups2[i]));
                    }
                }
                match r {
                    Ok(Option::Some(idx)) => {
                        let r3 = self.add_upvalue(k, idx, false, is_heap);
                        proof {
                            let (l, r4) = spec_add_upvalue(ups2[k as int], Upvalue { index: idx, is_local: false }, is_heap);
                            assert forall|i: int| 0 <= i < self.frames@.len() implies #[trigger] old(self).frames@[i].with_ups(
                                self.frames@[i],
                                is_heap,
                                ups2.update(k as int, l)[i],
                            ) by {
                                assert(old(self).frames@[i].with_ups(mid.frames@[i], is_heap, ups2[i]));
                                assert(mid.frames@[i].with_ups(self.frames@[i], is_heap, mid.all_ups(is_heap).update(k as int, l)[i]));
                            }
                        }
                        match r3 {
                            Ok(j) => Ok(Option::Some(j)),
                            Err(e) => Err(e),
                        }
                    },
                    Ok(Option::None) => Ok(Option::None),
                    Err(e) => Err(e),
                }
            },
        }
    }

    /// Writes the instruction that pushes a variable's value: a local of the
    /// current function if it declares the name, else a capture if an
    /// enclosing function has it, else a global (its name becoming a heap
    /// constant).
    pub fn get_variable(&mut self, name: String, is_heap: bool) -> (r: Result<(), String>)
        requires
            old(self).wf(),
            old(self).cur().function.chunk.heap_constants@.len() < usize::MAX,
        ensures
            final(self).wf(),
            final(self).frames@.len() == old(self).frames@.len(),
            final(self).typecontext == old(self).typecontext,
            old(self).cur().local_names(is_heap).index_of_last(name@) matches Option::Some(i) ==> r is Ok && old(self).only_chunk(final(self)) && final(self).code() == old(
                    self,
                ).code() + seq![(if is_heap { OpCode::GetHeapLocal } else { OpCode::GetLocal }).spec_byte()]
                    + be16((i % 65536) as u16)
                    && final(self).cur().function.chunk.constants == old(self).cur().function.chunk.constants
                    && final(self).cur().function.chunk.heap_constants == old(self).cur().function.chunk.heap_constants,
            old(self).cur().local_names(is_heap).index_of_last(name@) is None ==> ({
                    let n = old(self).frames@.len() - 1;
                    let (ups2, r2) = spec_resolve(
                        old(self).all_local_names(is_heap),
                        old(self).all_ups(is_heap),
                        n,
                        name@,
                        is_heap,
                    );
                    let k = old(self).cur().function.chunk.heap_constants@.len();
                    let c0 = old(self).cur().function.chunk;
                    let c = final(self).cur().function.chunk;
                    &&& forall|i: int| 0 <= i < n ==> #[trigger] old(self).frames@[i].with_ups(
                        final(self).frames@[i],
                        is_heap,
                        ups2[i],
                    )
                    &&& final(self).cur().locals == old(self).cur().locals
                    &&& final(self).cur().ups(is_heap) == ups2[n]
                    &&& final(self).cur().ups(!is_heap) == old(self).cur().ups(!is_heap)
                    &&& c.constants == c0.constants
                    &&& match r2 {
                        Err(e) => r is Err && r->Err_0@ == e && c == c0,
                        Ok(Option::Some(idx)) => r is Ok && c.heap_constants == c0.heap_constants && c.bytes@ == c0.bytes@
                            + seq![(if is_heap { OpCode::GetHeapUpvalue } else { OpCode::GetUpvalue }).spec_byte()]
                            + be16(idx),
                        Ok(Option::None) => {
                            &&& c.heap_constants@ == c0.heap_constants@.push(HeapConstant::Str(name))
                            &&& match r {
                                Ok(()) => k <= u16::MAX && c.bytes@ == c0.bytes@ + seq![
                                    (if is_heap { OpCode::GetHeapGlobal } else { OpCode::GetGlobal }).spec_byte(),
                                ] + be16(k as u16),
                                Err(e) => k > u16::MAX && e@ == too_many_constants() && c.bytes@ == c0.bytes@,
                            }
                        },
                    }
                }),
    {
        let n = self.frames.len();
        let local_idx = self.frames[n - 1].locals.get_idx(name.as_str(), is_heap);
        match local_idx {
            Option::Some(idx) => {
                assert(self.frames@[n - 1].wf());
                let _ = self.frames[n - 1].function.chunk.write_get_local(idx, is_heap, 0);
                assert(self.frames@[n - 1].wf());
                Ok(())
            },
            Option::None => {
                let res = self.resolve_upvalue(n - 1, name.as_str(), is_heap);
                let ghost mid = *self;
                assert(mid.frames@[n - 1].wf());
                assert(old(self).frames@[n - 1].with_ups(mid.frames@[n - 1], is_heap, spec_resolve(
                    old(self).all_local_names(is_heap),
                    old(self).all_ups(is_heap),
                    n - 1,
                    name@,
                    is_heap,
                ).0[n - 1]));
                let ghost ups2 = spec_resolve(
                    old(self).all_local_names(is_heap),
                    old(self).all_ups(is_heap),
                    n - 1,
                    name@,
                    is_heap,
                ).0;
                assert(mid.frames@[n - 1].function.chunk == old(self).cur().function.chunk);
                match res {
                    Ok(Option::Some(idx)) => {
                        let _ = self.frames[n - 1].function.chunk.write_get_upvalue(idx, is_heap, 0);
                        assert(forall|i: int| 0 <= i < n - 1 ==> #[trigger] self.frames@[i] == mid.frames@[i]);
                        assert(forall|i: int| 0 <= i < n - 1 ==> #[trigger] old(self).frames@[i].with_ups(mid.frames@[i], is_heap, ups2[i]));
                        assert(self.frames@[n - 1].wf());
                        assert(forall|i: int| 0 <= i < n - 1 ==> #[trigger] old(self).frames@[i].with_ups(self.frames@[i], is_heap, ups2[i]));
                        assert(self.cur().locals == old(self).cur().locals);
                        assert(self.cur().ups(is_heap) == ups2[n - 1]);
                        assert(self.cur().ups(!is_heap) == old(self).cur().ups(!is_heap));
                        assert(self.wf());
                        Ok(())
                    },
                    Ok(Option::None) => {
                        let r = self.frames[n - 1].function.chunk.write_get_global(name, is_heap, 0);
                        assert(forall|i: int| 0 <= i < n - 1 ==> #[trigger] self.frames@[i] == mid.frames@[i]);
                        assert(forall|i: int| 0 <= i < n - 1 ==> #[trigger] old(self).frames@[i].with_ups(mid.frames@[i], is_heap, ups2[i]));
                        assert(self.frames@[n - 1].wf());
                        assert(forall|i: int| 0 <= i < n - 1 ==> #[trigger] old(self).frames@[i].with_ups(self.frames@[i], is_heap, ups2[i]));
                        assert(self.cur().locals == old(self).cur().locals);
                        assert(self.cur().ups(is_heap) == ups2[n - 1]);
                        assert(self.cur().ups(!is_heap) == old(self).cur().ups(!is_heap));
                        assert(self.wf());
                        match r {
                            Ok(()) => Ok(()),
                            Err(e) => Err(to_string(e)),
                        }
                    },
                    Err(e) => {
                        assert(forall|i: int| 0 <= i < n - 1 ==> #[trigger] old(self).frames@[i].with_ups(self.frames@[i], is_heap, ups2[i]));
                        assert(self.cur().ups(is_heap) == ups2[n - 1]);
                        assert(self.wf());
                        Err(e)
                    },
                }
            },
        }
    }

    /// Checks, before the operands are compiled, that both operands of a
    /// binary operator have the same type.
    pub fn check_operands(op: TokenType, left: &Type, right: &Type) -> (r: Result<(), String>)
        ensures
            left.view() == right.view() ==> r is Ok,
            left.view() != right.view() ==> r is Err && r->Err_0@ == "Operands for operator "@
                + op.spec_debug_name() + " must be of the same type; got "@ + left.view().debug() + " and "@
                + right.view().debug(),
    {
        if left.equals(right) {
            Ok(())
        } else {
            let mut msg = String::from_str("Operands for operator ");
            msg.append(op.debug_name());
            msg.append(" must be of the same type; got ");
            let l = left.debug_string();
            msg.append(l.as_str());
            msg.append(" and ");
            let r = right.debug_string();
            msg.append(r.as_str());
            Err(msg)
        }
    }

    /// Writes, after both operands have been compiled, the instruction of a
    /// binary operator on operands of type `typ`, or says why there is none.
    pub fn write_binary(&mut self, op: TokenType, typ: &Type) -> (r: Result<(), String>)
        requires
            old(self).wf(),
        ensures
            final(self).wf(),
            match binary_opcode(op, typ.view()) {
                Some(code) => r is Ok && old(self).only_chunk(final(self)) && final(self).code() == old(
                    self,
                ).code().push(code.spec_byte()) && final(self).cur().function.chunk.constants == old(
                    self,
                ).cur().function.chunk.constants && final(self).cur().function.chunk.heap_constants == old(
                    self,
                ).cur().function.chunk.heap_constants,
                None => r is Err && r->Err_0@ == binary_unsupported(op, typ.view()) && *final(self) == *old(self),
            },
    {
        let code = match typ {
            Type::Int => match op {
                TokenType::Eq => Some(OpCode::IntEqual),
                TokenType::NEq => Some(OpCode::IntNotEqual),
                TokenType::GT => Some(OpCode::IntGreater),
                TokenType::GEq => Some(OpCode::IntGreaterEqual),
                TokenType::LT => Some(OpCode::IntLess),
                TokenType::LEq => Some(OpCode::IntLessEqual),
                TokenType::Plus => Some(OpCode::IntAdd),
                TokenType::Minus => Some(OpCode::IntSubtract),
                TokenType::Star => Some(OpCode::IntMultiply),
                TokenType::Slash => Some(OpCode::IntDivide),
                TokenType::To => Some(OpCode::To),
                _ => None,
            },
            Type::Float => match op {
                TokenType::Eq => Some(OpCode::FloatEqual),
                TokenType::NEq => Some(OpCode::FloatNotEqual),
                TokenType::GT => Some(OpCode::FloatGreater),
                TokenType::GEq => Some(OpCode::FloatGreaterEqual),
                TokenType::LT => Some(OpCode::FloatLess),
                TokenType::LEq => Some(OpCode::FloatLessEqual),
                TokenType::Plus => Some(OpCode::FloatAdd),
                TokenType::Minus => Some(OpCode::FloatSubtract),
                TokenType::Star => Some(OpCode::FloatMultiply),
                TokenType::Slash => Some(OpCode::FloatDivide),
                _ => None,
            },
            Type::Bool => match op {
                TokenType::Eq => Some(OpCode::BoolEqual),
                TokenType::NEq => Some(OpCode::BoolNotEqual),
                TokenType::And => Some(OpCode::And),
                TokenType::Or => Some(OpCode::Or),
                _ => None,
            },
            Type::Str | Type::Arr(_) => match op {
                TokenType::Eq => Some(OpCode::HeapEqual),
                TokenType::NEq => Some(OpCode::HeapNotEqual),
                TokenType::Plus => Some(OpCode::Concat),
                _ => None,
            },
            _ => None,
        };
        match code {
            Some(c) => {
                self.write_opcode(c);
                Ok(())
            },
            None => {
                let msg = match typ {
                    Type::Int | Type::Float | Type::Bool | Type::Str => {
                        let mut m = String::from_str("Operator ");
                        m.append(op.debug_name());
                        m.append(" not supported for type ");
                        let t = typ.debug_string();
                        m.append(t.as_str());
                        m
                    },
                    Type::Arr(e) => {
                        let mut m = String::from_str("Operator ");
                        m.append(op.debug_name());
                        m.append(" not supported for type ");
                        let t = e.debug_string();
                        m.append(t.as_str());
                        m
                    },
                    _ => {
                        let mut m = String::from_str("Type ");
                        let t = typ.debug_string();
                        m.append(t.as_str());
                        m.append(" not yet supported for binary operation");
                        m
                    },
                };
                Err(msg)
            },
        }
    }
}

} // verus!
