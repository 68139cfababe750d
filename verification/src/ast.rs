use vstd::prelude::*;

use crate::builtin_func::{lemma_index_of_first_at, lemma_index_of_first_none};
use crate::scanner::string_push;
use crate::token::{str_chars, str_eq, TokenType};
use vstd::string::StrSliceExecFns;
use vstd::string::StringExecFns;

verus! {

/// Types of the language.
#[derive(Debug)]
pub enum Type {
    Int,
    Float,
    Str,
    Bool,
    Arr(Box<Type>),
    Iter(Box<Type>),
    Maybe(Box<Type>),
    Func(Vec<Type>, Box<Type>),
    TypeDef(Vec<Type>, Box<Type>),
    Object(String, Vec<(String, Type)>),
}

impl Type {
    /// Whether values of this type live on the heap.
    pub open spec fn spec_is_heap(self) -> bool {
        !(self is Int || self is Float || self is Bool)
    }

    pub fn is_heap(&self) -> (r: bool)
        ensures
            r == self.spec_is_heap(),
    {
        match self {
            Type::Int | Type::Float | Type::Bool => false,
            _ => true,
        }
    }
}

/// The mathematical value of a type: the same shape, with sequences in place
/// of vectors and strings.
pub enum TypeView {
    Int,
    Float,
    Str,
    Bool,
    Arr(Box<TypeView>),
    Iter(Box<TypeView>),
    Maybe(Box<TypeView>),
    Func(Seq<TypeView>, Box<TypeView>),
    TypeDef(Seq<TypeView>, Box<TypeView>),
    Object(Seq<char>, Seq<(Seq<char>, TypeView)>),
}

/// The views of a list of types.
pub open spec fn types_view(ts: Seq<Type>) -> Seq<TypeView>
    decreases ts, 0nat,
{
    if ts.len() == 0 {
        Seq::empty()
    } else {
        types_view(ts.drop_last()).push(ts.last().view())
    }
}

/// The views of a list of named fields.
pub open spec fn fields_view(fs: Seq<(String, Type)>) -> Seq<(Seq<char>, TypeView)>
    decreases fs, 0nat,
{
    if fs.len() == 0 {
        Seq::empty()
    } else {
        fields_view(fs.drop_last()).push((fs.last().0@, fs.last().1.view()))
    }
}

impl Type {
    pub open spec fn view(self) -> TypeView
        decreases self, 1nat,
    {
        match self {
            Type::Int => TypeView::Int,
            Type::Float => TypeView::Float,
            Type::Str => TypeView::Str,
            Type::Bool => TypeView::Bool,
            Type::Arr(t) => TypeView::Arr(Box::new(t.view())),
            Type::Iter(t) => TypeView::Iter(Box::new(t.view())),
            Type::Maybe(t) => TypeView::Maybe(Box::new(t.view())),
            Type::Func(args, ret) => TypeView::Func(types_view(args@), Box::new(ret.view())),
            Type::TypeDef(args, t) => TypeView::TypeDef(types_view(args@), Box::new(t.view())),
            Type::Object(name, fields) => TypeView::Object(name@, fields_view(fields@)),
        }
    }
}

/// The view of a list of types has an entry for each type, its view.
pub proof fn lemma_types_view(ts: Seq<Type>)
    ensures
        types_view(ts).len() == ts.len(),
        forall|i: int| 0 <= i < ts.len() ==> #[trigger] types_view(ts)[i] == ts[i].view(),
    decreases ts.len(),
{
    if ts.len() > 0 {
        lemma_types_view(ts.drop_last());
    }
}

/// The view of a list of fields has an entry for each field: its name and
/// the view of its type.
pub proof fn lemma_fields_view(fs: Seq<(String, Type)>)
    ensures
        fields_view(fs).len() == fs.len(),
        forall|i: int| 0 <= i < fs.len() ==> #[trigger] fields_view(fs)[i] == (fs[i].0@, fs[i].1.view()),
    decreases fs.len(),
{
    if fs.len() > 0 {
        lemma_fields_view(fs.drop_last());
    }
}

impl Type {
    /// A copy of the type.
    pub fn copy(&self) -> (r: Type)
        ensures
            r.view() == self.view(),
        decreases self,
    {
        match self {
            Type::Int => Type::Int,
            Type::Float => Type::Float,
            Type::Str => Type::Str,
            Type::Bool => Type::Bool,
            Type::Arr(t) => Type::Arr(Box::new(t.copy())),
            Type::Iter(t) => Type::Iter(Box::new(t.copy())),
            Type::Maybe(t) => Type::Maybe(Box::new(t.copy())),
            Type::Func(args, ret) => {
                let a = Type::copy_list(args);
                Type::Func(a, Box::new(ret.copy()))
            },
            Type::TypeDef(args, t) => {
                let a = Type::copy_list(args);
                Type::TypeDef(a, Box::new(t.copy()))
            },
            Type::Object(name, fields) => {
                let f = Type::copy_fields(fields);
                Type::Object(name.clone(), f)
            },
        }
    }

    /// Copies of a list of named fields.
    pub fn copy_fields(fs: &Vec<(String, Type)>) -> (r: Vec<(String, Type)>)
        ensures
            fields_view(r@) == fields_view(fs@),
        decreases fs,
    {
        let mut out: Vec<(String, Type)> = Vec::new();
        let mut i: usize = 0;
        while i < fs.len()
            invariant
                0 <= i <= fs@.len(),
                fields_view(out@) == fields_view(fs@.take(i as int)),
            decreases fs@.len() - i,
        {
            let ghost prev = out@;
            proof {
                assert(decreases_to!(fs@[i as int] => fs@[i as int].1));
            }
            let t = fs[i].1.copy();
            out.push((fs[i].0.clone(), t));
            proof {
                assert(out@.drop_last() == prev);
                assert(fs@.take(i + 1).drop_last() =~= fs@.take(i as int));
            }
            i = i + 1;
        }
        assert(fs@.take(fs@.len() as int) =~= fs@);
        out
    }

    /// Copies of a list of types.
    pub fn copy_list(ts: &Vec<Type>) -> (r: Vec<Type>)
        ensures
            types_view(r@) == types_view(ts@),
        decreases ts,
    {
        let mut out: Vec<Type> = Vec::new();
        let mut i: usize = 0;
        while i < ts.len()
            invariant
                0 <= i <= ts@.len(),
                types_view(out@) == types_view(ts@.take(i as int)),
            decreases ts@.len() - i,
        {
            let ghost prev = out@;
            let t = ts[i].copy();
            out.push(t);
            proof {
                assert(out@.drop_last() == prev);
                assert(ts@.take(i + 1).drop_last() =~= ts@.take(i as int));
            }
            i = i + 1;
        }
        assert(ts@.take(ts@.len() as int) =~= ts@);
        out
    }
}

/// The characters written for a character of a string in a type's text:
/// double quotes, backslashes and the control characters `\n`, `\r`, `\t`
/// and `\0` are escaped as Rust's `Debug` escapes them; every other
/// character is kept as it is (`Debug` writes other control characters as
/// `\u{..}`, which names made by the parser never hold).
pub open spec fn escape_char(c: char) -> Seq<char> {
    if c == '"' {
        seq!['\\', '"']
    } else if c == '\\' {
        seq!['\\', '\\']
    } else if c == '\n' {
        seq!['\\', 'n']
    } else if c == '\r' {
        seq!['\\', 'r']
    } else if c == '\t' {
        seq!['\\', 't']
    } else if c == '\0' {
        seq!['\\', '0']
    } else {
        seq![c]
    }
}

/// The escaped characters of a string.
pub open spec fn escape_str(s: Seq<char>) -> Seq<char>
    decreases s.len(),
{
    if s.len() == 0 {
        Seq::empty()
    } else {
        escape_str(s.drop_last()) + escape_char(s.last())
    }
}

/// A string in quotes, escaped as `escape_char` says.
pub open spec fn str_debug(s: Seq<char>) -> Seq<char> {
    seq!['"'] + escape_str(s) + seq!['"']
}

/// A list of types as `Debug` writes it, without the brackets.
pub open spec fn types_debug(ts: Seq<TypeView>) -> Seq<char>
    decreases ts, 0nat,
{
    if ts.len() == 0 {
        Seq::empty()
    } else if ts.len() == 1 {
        ts[0].debug()
    } else {
        types_debug(ts.drop_last()) + ", "@ + ts.last().debug()
    }
}

/// A list of fields as `Debug` writes it, without the brackets.
pub open spec fn fields_debug(fs: Seq<(Seq<char>, TypeView)>) -> Seq<char>
    decreases fs, 0nat,
{
    if fs.len() == 0 {
        Seq::empty()
    } else if fs.len() == 1 {
        "("@ + str_debug(fs[0].0) + ", "@ + fs[0].1.debug() + ")"@
    } else {
        fields_debug(fs.drop_last()) + ", "@ + "("@ + str_debug(fs.last().0) + ", "@ + fs.last().1.debug() + ")"@
    }
}

impl TypeView {
    /// The type as the derived `Debug` writes it, as in `Func([Int], Bool)`.
    pub open spec fn debug(self) -> Seq<char>
        decreases self, 1nat,
    {
        match self {
            TypeView::Int => "Int"@,
            TypeView::Float => "Float"@,
            TypeView::Str => "Str"@,
            TypeView::Bool => "Bool"@,
            TypeView::Arr(t) => "Arr("@ + t.debug() + ")"@,
            TypeView::Iter(t) => "Iter("@ + t.debug() + ")"@,
            TypeView::Maybe(t) => "Maybe("@ + t.debug() + ")"@,
            TypeView::Func(args, ret) => "Func(["@ + types_debug(args) + "], "@ + ret.debug() + ")"@,
            TypeView::TypeDef(args, t) => "TypeDef(["@ + types_debug(args) + "], "@ + t.debug() + ")"@,
            TypeView::Object(name, fields) => "Object("@ + str_debug(name) + ", ["@ + fields_debug(fields) + "])"@,
        }
    }
}

impl Type {
    /// Whether two types are the same.
    pub fn equals(&self, other: &Type) -> (r: bool)
        ensures
            r == (self.view() == other.view()),
        decreases self,
    {
        match (self, other) {
            (Type::Int, Type::Int) => true,
            (Type::Float, Type::Float) => true,
            (Type::Str, Type::Str) => true,
            (Type::Bool, Type::Bool) => true,
            (Type::Arr(a), Type::Arr(b)) => a.equals(b),
            (Type::Iter(a), Type::Iter(b)) => a.equals(b),
            (Type::Maybe(a), Type::Maybe(b)) => a.equals(b),
            (Type::Func(a1, r1), Type::Func(a2, r2)) => Type::list_equals(a1, a2) && r1.equals(r2),
            (Type::TypeDef(a1, r1), Type::TypeDef(a2, r2)) => Type::list_equals(a1, a2) && r1.equals(r2),
            (Type::Object(n1, f1), Type::Object(n2, f2)) => str_eq(n1.as_str(), n2.as_str())
                && Type::fields_equal(f1, f2),
            _ => false,
        }
    }

    /// Whether two lists of types are the same.
    pub fn list_equals(a: &Vec<Type>, b: &Vec<Type>) -> (r: bool)
        ensures
            r == (types_view(a@) == types_view(b@)),
        decreases a,
    {
        proof {
            lemma_types_view(a@);
            lemma_types_view(b@);
        }
        if a.len() != b.len() {
            return false;
        }
        let mut i: usize = 0;
        while i < a.len()
            invariant
                a@.len() == b@.len(),
                types_view(a@).len() == a@.len(),
                types_view(b@).len() == b@.len(),
                forall|j: int| 0 <= j < a@.len() ==> #[trigger] types_view(a@)[j] == a@[j].view(),
                forall|j: int| 0 <= j < b@.len() ==> #[trigger] types_view(b@)[j] == b@[j].view(),
                0 <= i <= a@.len(),
                forall|j: int| 0 <= j < i ==> types_view(a@)[j] == types_view(b@)[j],
            decreases a@.len() - i,
        {
            if !a[i].equals(&b[i]) {
                assert(types_view(a@)[i as int] != types_view(b@)[i as int]);
                return false;
            }
            i = i + 1;
        }
        assert(types_view(a@) =~= types_view(b@));
        true
    }

    /// Whether two lists of named fields are the same.
    pub fn fields_equal(a: &Vec<(String, Type)>, b: &Vec<(String, Type)>) -> (r: bool)
        ensures
            r == (fields_view(a@) == fields_view(b@)),
        decreases a,
    {
        proof {
            lemma_fields_view(a@);
            lemma_fields_view(b@);
        }
        if a.len() != b.len() {
            return false;
        }
        let mut i: usize = 0;
        while i < a.len()
            invariant
                a@.len() == b@.len(),
                fields_view(a@).len() == a@.len(),
                fields_view(b@).len() == b@.len(),
                forall|j: int| 0 <= j < a@.len() ==> #[trigger] fields_view(a@)[j] == (a@[j].0@, a@[j].1.view()),
                forall|j: int| 0 <= j < b@.len() ==> #[trigger] fields_view(b@)[j] == (b@[j].0@, b@[j].1.view()),
                0 <= i <= a@.len(),
                forall|j: int| 0 <= j < i ==> fields_view(a@)[j] == fields_view(b@)[j],
            decreases a@.len() - i,
        {
            proof {
                assert(decreases_to!(a@[i as int] => a@[i as int].1));
            }
            if !str_eq(a[i].0.as_str(), b[i].0.as_str()) || !a[i].1.equals(&b[i].1) {
                assert(fields_view(a@)[i as int] != fields_view(b@)[i as int]);
                return false;
            }
            i = i + 1;
        }
        assert(fields_view(a@) =~= fields_view(b@));
        true
    }

    /// The type as the derived `Debug` writes it.
    pub fn debug_string(&self) -> (r: String)
        ensures
            r@ == self.view().debug(),
        decreases self,
    {
        match self {
            Type::Int => String::from_str("Int"),
            Type::Float => String::from_str("Float"),
            Type::Str => String::from_str("Str"),
            Type::Bool => String::from_str("Bool"),
            Type::Arr(t) => {
                let mut r = String::from_str("Arr(");
                let inner = t.debug_string();
                r.append(inner.as_str());
                r.append(")");
                r
            },
            Type::Iter(t) => {
                let mut r = String::from_str("Iter(");
                let inner = t.debug_string();
                r.append(inner.as_str());
                r.append(")");
                r
            },
            Type::Maybe(t) => {
                let mut r = String::from_str("Maybe(");
                let inner = t.debug_string();
                r.append(inner.as_str());
                r.append(")");
                r
            },
            Type::Func(args, ret) => {
                let mut r = String::from_str("Func([");
                let a = Type::list_debug_string(args);
                r.append(a.as_str());
                r.append("], ");
                let inner = ret.debug_string();
                r.append(inner.as_str());
                r.append(")");
                r
            },
            Type::TypeDef(args, t) => {
                let mut r = String::from_str("TypeDef([");
                let a = Type::list_debug_string(args);
                r.append(a.as_str());
                r.append("], ");
                let inner = t.debug_string();
                r.append(inner.as_str());
                r.append(")");
                r
            },
            Type::Object(name, fields) => {
                let mut r = String::from_str("Object(");
                let n = str_debug_string(name.as_str());
                r.append(n.as_str());
                r.append(", [");
                let f = Type::fields_debug_string(fields);
                r.append(f.as_str());
                r.append("])");
                r
            },
        }
    }

    /// A list of types as `Debug` writes it, without the brackets.
    pub fn list_debug_string(ts: &Vec<Type>) -> (r: String)
        ensures
            r@ == types_debug(types_view(ts@)),
        decreases ts,
    {
        let mut r = String::new();
        let mut i: usize = 0;
        assert(ts@.take(0) =~= Seq::<Type>::empty());
        while i < ts.len()
            invariant
                0 <= i <= ts@.len(),
                r@ == types_debug(types_view(ts@.take(i as int))),
            decreases ts@.len() - i,
        {
            let ghost prev = r@;
            if i > 0 {
                r.append(", ");
            }
            let d = ts[i].debug_string();
            r.append(d.as_str());
            proof {
                let t1 = ts@.take(i + 1);
                assert(t1.drop_last() =~= ts@.take(i as int));
                lemma_types_view(t1);
                lemma_types_view(ts@.take(i as int));
                assert(types_view(t1).drop_last() =~= types_view(ts@.take(i as int)));
                assert(types_view(t1).last() == ts@[i as int].view());
                if i == 0 {
                    assert(types_view(t1).len() == 1);
                    assert(prev =~= Seq::<char>::empty());
                    assert(r@ =~= types_debug(types_view(t1)));
                } else {
                    assert(r@ =~= types_debug(types_view(t1)));
                }
            }
            i = i + 1;
        }
        assert(ts@.take(ts@.len() as int) =~= ts@);
        r
    }

    /// A list of named fields as `Debug` writes it, without the brackets.
    pub fn fields_debug_string(fs: &Vec<(String, Type)>) -> (r: String)
        ensures
            r@ == fields_debug(fields_view(fs@)),
        decreases fs,
    {
        let mut r = String::new();
        let mut i: usize = 0;
        assert(fs@.take(0) =~= Seq::<(String, Type)>::empty());
        while i < fs.len()
            invariant
                0 <= i <= fs@.len(),
                r@ == fields_debug(fields_view(fs@.take(i as int))),
            decreases fs@.len() - i,
        {
            let ghost prev = r@;
            if i > 0 {
                r.append(", ");
            }
            r.append("(");
            let n = str_debug_string(fs[i].0.as_str());
            r.append(n.as_str());
            r.append(", ");
            proof {
                assert(decreases_to!(fs@[i as int] => fs@[i as int].1));
            }
            let d = fs[i].1.debug_string();
            r.append(d.as_str());
            r.append(")");
            proof {
                let f1 = fs@.take(i + 1);
                assert(f1.drop_last() =~= fs@.take(i as int));
                lemma_fields_view(f1);
                lemma_fields_view(fs@.take(i as int));
                assert(fields_view(f1).drop_last() =~= fields_view(fs@.take(i as int)));
                assert(fields_view(f1).last() == (fs@[i as int].0@, fs@[i as int].1.view()));
                if i == 0 {
                    assert(fields_view(f1).len() == 1);
                    assert(prev =~= Seq::<char>::empty());
                    assert(r@ =~= fields_debug(fields_view(f1)));
                } else {
                    assert(r@ =~= fields_debug(fields_view(f1)));
                }
            }
            i = i + 1;
        }
        assert(fs@.take(fs@.len() as int) =~= fs@);
        r
    }
}

/// A string in quotes, escaped as `escape_char` says; for names made of
/// letters, digits, underscores and brackets, as `Debug` writes them.
pub fn str_debug_string(s: &str) -> (r: String)
    ensures
        r@ == str_debug(s@),
{
    let chars = str_chars(s);
    let mut r = String::from_str("\"");
    proof {
        reveal_strlit("\"");
    }
    let mut i: usize = 0;
    while i < chars.len()
        invariant
            chars@ == s@,
            0 <= i <= chars@.len(),
            r@ == seq!['"'] + escape_str(chars@.take(i as int)),
        decreases chars@.len() - i,
    {
        let c = chars[i];
        if c == '"' {
            string_push(&mut r, '\\');
            string_push(&mut r, '"');
        } else if c == '\\' {
            string_push(&mut r, '\\');
            string_push(&mut r, '\\');
        } else if c == '\n' {
            string_push(&mut r, '\\');
            string_push(&mut r, 'n');
        } else if c == '\r' {
            string_push(&mut r, '\\');
            string_push(&mut r, 'r');
        } else if c == '\t' {
            string_push(&mut r, '\\');
            string_push(&mut r, 't');
        } else if c == '\0' {
            string_push(&mut r, '\\');
            string_push(&mut r, '0');
        } else {
            string_push(&mut r, c);
        }
        proof {
            assert(chars@.take(i + 1).drop_last() =~= chars@.take(i as int));
            assert(r@ =~= seq!['"'] + escape_str(chars@.take(i + 1)));
        }
        i = i + 1;
    }
    string_push(&mut r, '"');
    assert(chars@.take(chars@.len() as int) =~= chars@);
    r
}

/// A list of types as `Debug` writes it, in brackets.
pub open spec fn type_list_debug(ts: Seq<TypeView>) -> Seq<char> {
    "["@ + types_debug(ts) + "]"@
}

/// The part of a name before its first `[`, where the list of template
/// types starts; the whole name when it has none.
pub open spec fn spec_truncate_template_types(name: Seq<char>) -> Seq<char> {
    match name.index_of_first('[') {
        Option::Some(k) => name.take(k),
        Option::None => name,
    }
}

/// Cuts off the template types of a name. A name is never empty.
pub fn truncate_template_types(name: &String) -> (r: &str)
    requires
        name@.len() > 0,
    ensures
        r@ == spec_truncate_template_types(name@),
{
    let chars = str_chars(name.as_str());
    let mut i: usize = 0;
    while i < chars.len()
        invariant
            chars@ == name@,
            0 <= i <= chars@.len(),
            forall|j: int| 0 <= j < i ==> chars@[j] != '[',
        decreases chars@.len() - i,
    {
        if chars[i] == '[' {
            proof {
                lemma_index_of_first_at(name@, '[', i as int);
            }
            return name.as_str().substring_char(0, i);
        }
        i = i + 1;
    }
    proof {
        lemma_index_of_first_none(name@, '[');
        assert(name@.subrange(0, i as int) =~= name@);
    }
    name.as_str().substring_char(0, i)
}

/// A type as written in the source: a name, with the annotations of its
/// parameters in parentheses, as in `Func(Int, Int)`.
#[derive(Debug)]
pub struct TypeAnnotation {
    pub typename: String,
    pub children: Vec<TypeAnnotation>,
}

impl TypeAnnotation {
    pub fn new(typename: String, children: Vec<TypeAnnotation>) -> (t: TypeAnnotation)
        ensures
            t.typename == typename,
            t.children == children,
    {
        TypeAnnotation { typename, children }
    }
}

/// The definitions visible where an annotation stands, as names and the
/// views of their types, the innermost last.
pub open spec fn scope_view(scope: Seq<VarType>) -> Seq<(Seq<char>, TypeView)> {
    scope.map_values(|v: VarType| (v.name@, v.typ.view()))
}

/// The type that the innermost definition of a name gives it.
pub open spec fn lookup(scope: Seq<(Seq<char>, TypeView)>, name: Seq<char>) -> Option<TypeView> {
    match scope.map_values(|d: (Seq<char>, TypeView)| d.0).index_of_last(name) {
        Option::Some(k) => Option::Some(scope[k].1),
        Option::None => Option::None,
    }
}

/// A type definition in scope holds an object of its own name.
pub open spec fn scope_consistent(scope: Seq<(Seq<char>, TypeView)>) -> bool {
    forall|i: int|
        0 <= i < scope.len() ==> match #[trigger] scope[i].1 {
            TypeView::TypeDef(_, o) => match *o {
                TypeView::Object(n, _) => n == scope[i].0,
                _ => true,
            },
            _ => true,
        }
}

/// The message when a named type is not a type definition of an object.
pub open spec fn not_an_object(t: TypeView) -> Seq<char> {
    "When resolving type, expected an Object definition, but got "@ + t.debug()
}

/// The object type that a named type annotation stands for.
pub open spec fn spec_resolve_typedef(name: Seq<char>, scope: Seq<(Seq<char>, TypeView)>) -> Result<TypeView, Seq<char>> {
    match lookup(scope, name) {
        Option::None => Err("Could not find definition for variable "@ + name),
        Option::Some(t) => match t {
            TypeView::TypeDef(_, o) => match *o {
                TypeView::Object(..) => Ok(*o),
                _ => Err(not_an_object(*o)),
            },
            _ => Err(not_an_object(t)),
        },
    }
}

/// The types of a list of annotations, or the error of the first that has
/// none.
pub open spec fn spec_annotation_types(cs: Seq<TypeAnnotation>, scope: Seq<(Seq<char>, TypeView)>) -> Result<
    Seq<TypeView>,
    Seq<char>,
>
    decreases cs, 0nat,
{
    if cs.len() == 0 {
        Ok(Seq::empty())
    } else {
        match spec_annotation_types(cs.drop_last(), scope) {
            Err(e) => Err(e),
            Ok(ts) => match cs.last().spec_type(scope) {
                Err(e) => Err(e),
                Ok(t) => Ok(ts.push(t)),
            },
        }
    }
}

impl TypeAnnotation {
    /// The type that an annotation stands for: a base type by name, a
    /// function, array, iterator or optional type from the types in
    /// parentheses, or else the object that a type definition in scope
    /// gives the name.
    pub open spec fn spec_type(self, scope: Seq<(Seq<char>, TypeView)>) -> Result<TypeView, Seq<char>>
        decreases self, 1nat,
    {
        if self.children@.len() == 0 {
            if self.typename@ == "Int"@ {
                Ok(TypeView::Int)
            } else if self.typename@ == "Float"@ {
                Ok(TypeView::Float)
            } else if self.typename@ == "Str"@ {
                Ok(TypeView::Str)
            } else if self.typename@ == "Bool"@ {
                Ok(TypeView::Bool)
            } else {
                spec_resolve_typedef(self.typename@, scope)
            }
        } else {
            match spec_annotation_types(self.children@, scope) {
                Err(e) => Err(e),
                Ok(ts) => if self.typename@ == "Func"@ {
                    if ts.len() < 1 {
                        Err("Function must be annotated with at least a return type"@)
                    } else {
                        Ok(TypeView::Func(ts.drop_last(), Box::new(ts.last())))
                    }
                } else if self.typename@ == "Arr"@ {
                    if ts.len() != 1 {
                        Err("Array must be annotated with exactly one type, but got "@ + type_list_debug(ts))
                    } else {
                        Ok(TypeView::Arr(Box::new(ts[0])))
                    }
                } else if self.typename@ == "Iter"@ {
                    if ts.len() != 1 {
                        Err("Iterator must be annotated with exactly one type, but got "@ + type_list_debug(ts))
                    } else {
                        Ok(TypeView::Iter(Box::new(ts[0])))
                    }
                } else if self.typename@ == "Maybe"@ {
                    if ts.len() != 1 {
                        Err("Maybe must be annotated with exactly one type, but got "@ + type_list_debug(ts))
                    } else {
                        Ok(TypeView::Maybe(Box::new(ts[0])))
                    }
                } else {
                    Err("Unknown type annotation: "@ + self.typename@)
                },
            }
        }
    }
}

/// The names in a scope are the names of its definitions.
pub proof fn lemma_scope_names(scope: Seq<VarType>)
    ensures
        scope_view(scope).map_values(|d: (Seq<char>, TypeView)| d.0) == scope.map_values(|v: VarType| v.name@),
        scope_view(scope).len() == scope.len(),
        forall|i: int| 0 <= i < scope.len() ==> #[trigger] scope_view(scope)[i] == (scope[i].name@, scope[i].typ.view()),
{
    assert(scope_view(scope).map_values(|d: (Seq<char>, TypeView)| d.0) =~= scope.map_values(|v: VarType| v.name@));
}

/// The type of the innermost definition of a name in a scope.
fn lookup_type<'a>(scope: &'a [VarType], name: &str) -> (r: Option<&'a Type>)
    ensures
        match lookup(scope_view(scope@), name@) {
            Option::Some(t) => r is Some && r->0.view() == t,
            Option::None => r is None,
        },
{
    let ghost names = scope@.map_values(|v: VarType| v.name@);
    proof {
        lemma_scope_names(scope@);
    }
    let mut i: usize = scope.len();
    while i > 0
        invariant
            names == scope@.map_values(|v: VarType| v.name@),
            0 <= i <= scope@.len(),
            forall|j: int| i <= j < scope@.len() ==> names[j] != name@,
        decreases i,
    {
        i = i - 1;
        if str_eq(scope[i].name.as_str(), name) {
            proof {
                crate::wasmizer::lemma_index_of_last_at(names, name@, i as int);
                lemma_scope_names(scope@);
            }
            return Option::Some(&scope[i].typ);
        }
    }
    proof {
        crate::wasmizer::lemma_index_of_last_none(names, name@);
        lemma_scope_names(scope@);
    }
    Option::None
}

/// The message when a named type is not a type definition of an object.
fn not_an_object_message(t: &Type) -> (r: String)
    ensures
        r@ == not_an_object(t.view()),
{
    let mut r = String::from_str("When resolving type, expected an Object definition, but got ");
    let d = t.debug_string();
    r.append(d.as_str());
    r
}

/// A message made of a text and a list of types in brackets.
fn with_type_list(text: &str, ts: &Vec<Type>) -> (r: String)
    ensures
        r@ == text@ + type_list_debug(types_view(ts@)),
{
    let mut r = String::from_str(text);
    r.append("[");
    let d = Type::list_debug_string(ts);
    r.append(d.as_str());
    r.append("]");
    r
}

impl TypeAnnotation {
    /// The object type that a type definition in scope gives the annotation's
    /// name.
    pub fn resolve_typedef(&self, scope: &[VarType]) -> (r: Result<Type, String>)
        requires
            scope_consistent(scope_view(scope@)),
        ensures
            match spec_resolve_typedef(self.typename@, scope_view(scope@)) {
                Ok(t) => r is Ok && r->Ok_0.view() == t,
                Err(e) => r is Err && r->Err_0@ == e,
            },
    {
        match lookup_type(scope, self.typename.as_str()) {
            Option::None => {
                let mut msg = String::from_str("Could not find definition for variable ");
                msg.append(self.typename.as_str());
                Err(msg)
            },
            Option::Some(t) => match t {
                Type::TypeDef(_, o) => match &**o {
                    Type::Object(..) => Ok(o.copy()),
                    _ => Err(not_an_object_message(o)),
                },
                _ => Err(not_an_object_message(t)),
            },
        }
    }

    /// The type that the annotation stands for.
    pub fn get_type(&self, scope: &[VarType]) -> (r: Result<Type, String>)
        requires
            scope_consistent(scope_view(scope@)),
        ensures
            match self.spec_type(scope_view(scope@)) {
                Ok(t) => r is Ok && r->Ok_0.view() == t,
                Err(e) => r is Err && r->Err_0@ == e,
            },
        decreases self,
    {
        let ghost sv = scope_view(scope@);
        if self.children.len() == 0 {
            if str_eq(self.typename.as_str(), "Int") {
                return Ok(Type::Int);
            } else if str_eq(self.typename.as_str(), "Float") {
                return Ok(Type::Float);
            } else if str_eq(self.typename.as_str(), "Str") {
                return Ok(Type::Str);
            } else if str_eq(self.typename.as_str(), "Bool") {
                return Ok(Type::Bool);
            } else {
                return self.resolve_typedef(scope);
            }
        }
        let mut child_types: Vec<Type> = Vec::new();
        let mut i: usize = 0;
        assert(self.children@.take(0) =~= Seq::<TypeAnnotation>::empty());
        while i < self.children.len()
            invariant
                sv == scope_view(scope@),
                scope_consistent(sv),
                0 <= i <= self.children@.len(),
                spec_annotation_types(self.children@.take(i as int), sv) == Ok::<Seq<TypeView>, Seq<char>>(
                    types_view(child_types@),
                ),
            decreases self.children@.len() - i,
        {
            proof {
                assert(self.children@.take(i + 1).drop_last() =~= self.children@.take(i as int));
            }
            match self.children[i].get_type(scope) {
                Ok(t) => {
                    let ghost prev = child_types@;
                    child_types.push(t);
                    assert(child_types@.drop_last() == prev);
                },
                Err(e) => {
                    proof {
                        assert(spec_annotation_types(self.children@.take(i + 1), sv) is Err);
                        lemma_annotation_types_err_prefix(self.children@, sv, i + 1);
                    }
                    return Err(e);
                },
            }
            i = i + 1;
        }
        assert(self.children@.take(self.children@.len() as int) =~= self.children@);
        let ghost ts = types_view(child_types@);
        if str_eq(self.typename.as_str(), "Func") {
            if child_types.len() < 1 {
                proof {
                    lemma_types_view(child_types@);
                }
                return Err(String::from_str("Function must be annotated with at least a return type"));
            }
            let ghost all = child_types@;
            let last = child_types.pop().unwrap();
            proof {
                assert(child_types@ == all.drop_last());
                assert(ts == types_view(all.drop_last()).push(all.last().view()));
                assert(ts.drop_last() =~= types_view(child_types@));
            }
            return Ok(Type::Func(child_types, Box::new(last)));
        } else if str_eq(self.typename.as_str(), "Arr") {
            proof {
                lemma_types_view(child_types@);
            }
            if child_types.len() != 1 {
                return Err(with_type_list("Array must be annotated with exactly one type, but got ", &child_types));
            }
            let t = child_types.pop().unwrap();
            return Ok(Type::Arr(Box::new(t)));
        } else if str_eq(self.typename.as_str(), "Iter") {
            proof {
                lemma_types_view(child_types@);
            }
            if child_types.len() != 1 {
                return Err(with_type_list("Iterator must be annotated with exactly one type, but got ", &child_types));
            }
            let t = child_types.pop().unwrap();
            return Ok(Type::Iter(Box::new(t)));
        } else if str_eq(self.typename.as_str(), "Maybe") {
            proof {
                lemma_types_view(child_types@);
            }
            if child_types.len() != 1 {
                return Err(with_type_list("Maybe must be annotated with exactly one type, but got ", &child_types));
            }
            let t = child_types.pop().unwrap();
            return Ok(Type::Maybe(Box::new(t)));
        }
        let mut msg = String::from_str("Unknown type annotation: ");
        msg.append(self.typename.as_str());
        Err(msg)
    }
}

/// Once a prefix of a list of annotations has no types, neither has the
/// whole list, with the same error.
proof fn lemma_annotation_types_err_prefix(cs: Seq<TypeAnnotation>, scope: Seq<(Seq<char>, TypeView)>, k: int)
    requires
        0 <= k <= cs.len(),
        spec_annotation_types(cs.take(k), scope) is Err,
    ensures
        spec_annotation_types(cs, scope) == spec_annotation_types(cs.take(k), scope),
    decreases cs.len() - k,
{
    if k < cs.len() {
        assert(cs.take(k + 1).drop_last() =~= cs.take(k));
        lemma_annotation_types_err_prefix(cs, scope, k + 1);
    } else {
        assert(cs.take(k) =~= cs);
    }
}

/// A named and annotated parameter or field.
#[derive(Debug)]
pub struct NameAndType {
    pub name: String,
    pub typ: TypeAnnotation,
}

impl NameAndType {
    pub fn new(name: String, typ: TypeAnnotation) -> (n: NameAndType)
        ensures
            n.name == name,
            n.typ == typ,
    {
        NameAndType { name, typ }
    }

    /// The type of the annotation.
    pub fn get_type(&self, scope: &[VarType]) -> (r: Result<Type, String>)
        requires
            scope_consistent(scope_view(scope@)),
        ensures
            match self.typ.spec_type(scope_view(scope@)) {
                Ok(t) => r is Ok && r->Ok_0.view() == t,
                Err(e) => r is Err && r->Err_0@ == e,
            },
    {
        self.typ.get_type(scope)
    }
}

/// A name and its type.
#[derive(Debug)]
pub struct VarType {
    pub name: String,
    pub typ: Type,
}

impl VarType {
    pub fn new(name: String, typ: Type) -> (v: VarType)
        ensures
            v.name == name,
            v.typ == typ,
    {
        VarType { name, typ }
    }
}

/// What stands where the parser reported an error and could not build a
/// node.
#[derive(Debug)]
pub struct ErrorExpression;

/// The syntax tree of an expression.
#[derive(Debug)]
pub enum Expression {
    Error(ErrorExpression),
    Literal(Type, String),
    Variable(String),
    Assignment(String, Box<Expression>),
    Unary(TokenType, Box<Expression>),
    Binary(Box<Expression>, TokenType, Box<Expression>),
    Block(Vec<Expression>),
    NullMaybe(TypeAnnotation),
    SomeMaybe(Box<Expression>),
    Function(String, Vec<NameAndType>, Option<TypeAnnotation>, Box<Expression>),
    Array(Vec<Expression>),
    EmptyArray(TypeAnnotation),
    TypeDef(String, Vec<NameAndType>),
    Call(Box<Expression>, Vec<Expression>),
    GetField(Box<Expression>, String),
    IfStatement(Box<Expression>, Box<Expression>, Option<Box<Expression>>),
    Reduce(Box<Expression>, Box<Expression>, Box<Expression>),
    Filter(Box<Expression>, Box<Expression>),
    Len(Box<Expression>),
    ZipMap(Box<Expression>, Vec<Expression>),
    Unwrap(Box<Expression>, Box<Expression>),
    TopLevel(Box<Expression>),
}

/// No expression of the list has an `Error` node.
pub open spec fn list_error_free(es: Seq<Expression>) -> bool
    decreases es, 0nat,
{
    if es.len() == 0 {
        true
    } else {
        es.last().error_free() && list_error_free(es.drop_last())
    }
}

impl Expression {
    /// No node of the tree is an `Error` node.
    pub open spec fn error_free(self) -> bool
        decreases self, 1nat,
    {
        match self {
            Expression::Error(_) => false,
            Expression::Literal(..) => true,
            Expression::Variable(..) => true,
            Expression::Assignment(_, v) => v.error_free(),
            Expression::Unary(_, r) => r.error_free(),
            Expression::Binary(l, _, r) => l.error_free() && r.error_free(),
            Expression::Block(es) => list_error_free(es@),
            Expression::NullMaybe(..) => true,
            Expression::SomeMaybe(e) => e.error_free(),
            Expression::Function(_, _, _, b) => b.error_free(),
            Expression::Array(es) => list_error_free(es@),
            Expression::EmptyArray(..) => true,
            Expression::TypeDef(..) => true,
            Expression::Call(c, es) => c.error_free() && list_error_free(es@),
            Expression::GetField(o, _) => o.error_free(),
            Expression::IfStatement(c, t, e) => c.error_free() && t.error_free() && match e {
                Option::Some(e) => e.error_free(),
                Option::None => true,
            },
            Expression::Reduce(f, a, i) => f.error_free() && a.error_free() && i.error_free(),
            Expression::Filter(f, a) => f.error_free() && a.error_free(),
            Expression::Len(e) => e.error_free(),
            Expression::ZipMap(f, es) => f.error_free() && list_error_free(es@),
            Expression::Unwrap(v, d) => v.error_free() && d.error_free(),
            Expression::TopLevel(b) => b.error_free(),
        }
    }
}

/// A type annotation as a value: its name and the annotations of its
/// parameters.
pub struct AnnotationView {
    pub typename: Seq<char>,
    pub children: Seq<AnnotationView>,
}

/// The views of a list of type annotations.
pub open spec fn annotations_view(ts: Seq<TypeAnnotation>) -> Seq<AnnotationView>
    decreases ts, 0nat,
{
    if ts.len() == 0 {
        Seq::empty()
    } else {
        annotations_view(ts.drop_last()).push(ts.last().view())
    }
}

impl TypeAnnotation {
    pub open spec fn view(self) -> AnnotationView
        decreases self, 1nat,
    {
        AnnotationView { typename: self.typename@, children: annotations_view(self.children@) }
    }
}

/// The views of named annotations: each name with its annotation.
pub open spec fn named_view(ps: Seq<NameAndType>) -> Seq<(Seq<char>, AnnotationView)> {
    ps.map_values(|p: NameAndType| (p.name@, p.typ.view()))
}

/// A syntax tree as a value: the same shape, with sequences in place of
/// vectors and strings.
pub enum ExprView {
    Error,
    Literal(TypeView, Seq<char>),
    Variable(Seq<char>),
    Assignment(Seq<char>, Box<ExprView>),
    Unary(TokenType, Box<ExprView>),
    Binary(Box<ExprView>, TokenType, Box<ExprView>),
    Block(Seq<ExprView>),
    NullMaybe(AnnotationView),
    SomeMaybe(Box<ExprView>),
    Function(Seq<char>, Seq<(Seq<char>, AnnotationView)>, Option<AnnotationView>, Box<ExprView>),
    Array(Seq<ExprView>),
    EmptyArray(AnnotationView),
    TypeDef(Seq<char>, Seq<(Seq<char>, AnnotationView)>),
    Call(Box<ExprView>, Seq<ExprView>),
    GetField(Box<ExprView>, Seq<char>),
    IfStatement(Box<ExprView>, Box<ExprView>, Option<Box<ExprView>>),
    Reduce(Box<ExprView>, Box<ExprView>, Box<ExprView>),
    Filter(Box<ExprView>, Box<ExprView>),
    Len(Box<ExprView>),
    ZipMap(Box<ExprView>, Seq<ExprView>),
    Unwrap(Box<ExprView>, Box<ExprView>),
    TopLevel(Box<ExprView>),
}

/// The views of a list of syntax trees.
pub open spec fn exprs_view(es: Seq<Expression>) -> Seq<ExprView>
    decreases es, 0nat,
{
    if es.len() == 0 {
        Seq::empty()
    } else {
        exprs_view(es.drop_last()).push(es.last().view())
    }
}

/// The view of a list of syntax trees has an entry for each tree, its view.
pub proof fn lemma_exprs_view(es: Seq<Expression>)
    ensures
        exprs_view(es).len() == es.len(),
        forall|i: int| 0 <= i < es.len() ==> #[trigger] exprs_view(es)[i] == es[i].view(),
    decreases es.len(),
{
    if es.len() > 0 {
        lemma_exprs_view(es.drop_last());
    }
}

impl Expression {
    pub open spec fn view(self) -> ExprView
        decreases self, 1nat,
    {
        match self {
            Expression::Error(_) => ExprView::Error,
            Expression::Literal(t, text) => ExprView::Literal(t.view(), text@),
            Expression::Variable(name) => ExprView::Variable(name@),
            Expression::Assignment(name, v) => ExprView::Assignment(name@, Box::new(v.view())),
            Expression::Unary(op, r) => ExprView::Unary(op, Box::new(r.view())),
            Expression::Binary(l, op, r) => ExprView::Binary(Box::new(l.view()), op, Box::new(r.view())),
            Expression::Block(es) => ExprView::Block(exprs_view(es@)),
            Expression::NullMaybe(t) => ExprView::NullMaybe(t.view()),
            Expression::SomeMaybe(e) => ExprView::SomeMaybe(Box::new(e.view())),
            Expression::Function(name, ps, ret, body) => ExprView::Function(
                name@,
                named_view(ps@),
                match ret {
                    Option::Some(t) => Option::Some(t.view()),
                    Option::None => Option::None,
                },
                Box::new(body.view()),
            ),
            Expression::Array(es) => ExprView::Array(exprs_view(es@)),
            Expression::EmptyArray(t) => ExprView::EmptyArray(t.view()),
            Expression::TypeDef(name, fs) => ExprView::TypeDef(name@, named_view(fs@)),
            Expression::Call(c, es) => ExprView::Call(Box::new(c.view()), exprs_view(es@)),
            Expression::GetField(o, name) => ExprView::GetField(Box::new(o.view()), name@),
            Expression::IfStatement(c, t, e) => ExprView::IfStatement(
                Box::new(c.view()),
                Box::new(t.view()),
                match e {
                    Option::Some(e) => Option::Some(Box::new(e.view())),
                    Option::None => Option::None,
                },
            ),
            Expression::Reduce(f, a, i) => ExprView::Reduce(Box::new(f.view()), Box::new(a.view()), Box::new(i.view())),
            Expression::Filter(f, a) => ExprView::Filter(Box::new(f.view()), Box::new(a.view())),
            Expression::Len(e) => ExprView::Len(Box::new(e.view())),
            Expression::ZipMap(f, es) => ExprView::ZipMap(Box::new(f.view()), exprs_view(es@)),
            Expression::Unwrap(v, d) => ExprView::Unwrap(Box::new(v.view()), Box::new(d.view())),
            Expression::TopLevel(b) => ExprView::TopLevel(Box::new(b.view())),
        }
    }
}

} // verus!
