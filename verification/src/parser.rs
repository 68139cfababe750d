use vstd::prelude::*;

use crate::ast::{
    annotations_view, exprs_view, list_error_free, named_view, AnnotationView, ErrorExpression, ExprView, Expression,
    NameAndType, Type, TypeAnnotation, TypeView,
};
use crate::builtin_funcs::{indexed_name, spec_decimal};
use crate::scanner::token_views;
use crate::syntax::{
    forward, progressed, spec_advance, spec_annotation_children, spec_array, spec_array_items, spec_assignment,
    spec_at_eof, spec_binary, spec_block, spec_block_items, spec_call, spec_call_args, spec_call_infix,
    spec_call_prefix, spec_consume, spec_consume_if_match, spec_error, spec_expression, spec_filter,
    spec_function_def, spec_get_field, spec_grouping, spec_if_statement, spec_infix_loop, spec_len, spec_literal,
    spec_named_item, spec_named_items, spec_parse_with_precedence, spec_program, spec_reduce,
    spec_required_expression, spec_single_argument, spec_skip_errors, spec_some, spec_type_annotation,
    spec_type_def, spec_unary, spec_unwrap, spec_variable, spec_zipmap, spec_zipmap_items, ErrorView, LoopEnd,
    spec_parse, start_state, ParseState,
};
use crate::token::{SpecToken, Token, TokenType};
use vstd::string::StringExecFns;

verus! {

/// Binding strength of operators, weakest first.
#[derive(Debug, Clone, Copy, PartialEq, Eq, Structural)]
pub enum Precedence {
    Lowest,
    Assignment,
    Or,
    And,
    Equality,
    Comparison,
    Range,
    Term,
    Factor,
    Unary,
    Call,
}

impl Precedence {
    pub open spec fn spec_level(self) -> u8 {
        match self {
            Precedence::Lowest => 0,
            Precedence::Assignment => 1,
            Precedence::Or => 2,
            Precedence::And => 3,
            Precedence::Equality => 4,
            Precedence::Comparison => 5,
            Precedence::Range => 6,
            Precedence::Term => 7,
            Precedence::Factor => 8,
            Precedence::Unary => 9,
            Precedence::Call => 10,
        }
    }

    pub fn level(self) -> (l: u8)
        ensures
            l == self.spec_level(),
    {
        match self {
            Precedence::Lowest => 0,
            Precedence::Assignment => 1,
            Precedence::Or => 2,
            Precedence::And => 3,
            Precedence::Equality => 4,
            Precedence::Comparison => 5,
            Precedence::Range => 6,
            Precedence::Term => 7,
            Precedence::Factor => 8,
            Precedence::Unary => 9,
            Precedence::Call => 10,
        }
    }

    /// The next stronger precedence; `Call` is the strongest and has none.
    pub open spec fn spec_next(self) -> Precedence {
        match self {
            Precedence::Lowest => Precedence::Assignment,
            Precedence::Assignment => Precedence::Or,
            Precedence::Or => Precedence::And,
            Precedence::And => Precedence::Equality,
            Precedence::Equality => Precedence::Comparison,
            Precedence::Comparison => Precedence::Range,
            Precedence::Range => Precedence::Term,
            Precedence::Term => Precedence::Factor,
            Precedence::Factor => Precedence::Unary,
            _ => Precedence::Call,
        }
    }

    pub fn next(self) -> (p: Precedence)
        requires
            self != Precedence::Call,
        ensures
            p == self.spec_next(),
            p.spec_level() == self.spec_level() + 1,
    {
        match self {
            Precedence::Lowest => Precedence::Assignment,
            Precedence::Assignment => Precedence::Or,
            Precedence::Or => Precedence::And,
            Precedence::And => Precedence::Equality,
            Precedence::Equality => Precedence::Comparison,
            Precedence::Comparison => Precedence::Range,
            Precedence::Range => Precedence::Term,
            Precedence::Term => Precedence::Factor,
            Precedence::Factor => Precedence::Unary,
            _ => Precedence::Call,
        }
    }
}

/// Parsers for expressions that begin with a given token.
#[derive(Debug, Clone, Copy, PartialEq, Eq, Structural)]
pub enum PrefixFn {
    Grouping,
    Block,
    IfStatement,
    FunctionDef,
    Array,
    TypeDef,
    Int,
    Float,
    Str,
    Boolean,
    Unary,
    Variable,
    SomeExpr,
    Reduce,
    Filter,
    Len,
    ZipMap,
    Unwrap,
}

/// Parsers for expressions that continue a complete expression.
#[derive(Debug, Clone, Copy, PartialEq, Eq, Structural)]
pub enum InfixFn {
    Call,
    GetField,
    Binary,
}

/// How a token takes part in an expression: what it can begin, what it can
/// continue, and how strongly it binds.
#[derive(Debug, Clone, Copy)]
pub struct ParseRule {
    pub prefix: Option<PrefixFn>,
    pub infix: Option<InfixFn>,
    pub precedence: Precedence,
}

impl ParseRule {
    pub fn new(prefix: Option<PrefixFn>, infix: Option<InfixFn>, precedence: Precedence) -> (r: ParseRule)
        ensures
            r == (ParseRule { prefix, infix, precedence }),
    {
        ParseRule { prefix, infix, precedence }
    }
}

/// The rule table of the language.
pub open spec fn spec_rule(t: TokenType) -> ParseRule {
    match t {
        TokenType::LParen => ParseRule {
            prefix: Option::Some(PrefixFn::Grouping),
            infix: Option::Some(InfixFn::Call),
            precedence: Precedence::Call,
        },
        TokenType::LBrace => ParseRule { prefix: Option::Some(PrefixFn::Block), infix: Option::None, precedence: Precedence::Lowest },
        TokenType::Dot => ParseRule { prefix: Option::None, infix: Option::Some(InfixFn::GetField), precedence: Precedence::Call },
        TokenType::If => ParseRule { prefix: Option::Some(PrefixFn::IfStatement), infix: Option::None, precedence: Precedence::Lowest },
        TokenType::Pipe => ParseRule { prefix: Option::Some(PrefixFn::FunctionDef), infix: Option::None, precedence: Precedence::Lowest },
        TokenType::LSquare => ParseRule { prefix: Option::Some(PrefixFn::Array), infix: Option::None, precedence: Precedence::Lowest },
        TokenType::Type => ParseRule { prefix: Option::Some(PrefixFn::TypeDef), infix: Option::None, precedence: Precedence::Lowest },
        TokenType::Int => ParseRule { prefix: Option::Some(PrefixFn::Int), infix: Option::None, precedence: Precedence::Lowest },
        TokenType::Float => ParseRule { prefix: Option::Some(PrefixFn::Float), infix: Option::None, precedence: Precedence::Lowest },
        TokenType::Str => ParseRule { prefix: Option::Some(PrefixFn::Str), infix: Option::None, precedence: Precedence::Lowest },
        TokenType::True => ParseRule { prefix: Option::Some(PrefixFn::Boolean), infix: Option::None, precedence: Precedence::Lowest },
        TokenType::False => ParseRule { prefix: Option::Some(PrefixFn::Boolean), infix: Option::None, precedence: Precedence::Lowest },
        TokenType::Bang => ParseRule { prefix: Option::Some(PrefixFn::Unary), infix: Option::None, precedence: Precedence::Lowest },
        TokenType::Plus => ParseRule { prefix: Option::None, infix: Option::Some(InfixFn::Binary), precedence: Precedence::Term },
        TokenType::Minus => ParseRule {
            prefix: Option::Some(PrefixFn::Unary),
            infix: Option::Some(InfixFn::Binary),
            precedence: Precedence::Term,
        },
        TokenType::Star => ParseRule { prefix: Option::None, infix: Option::Some(InfixFn::Binary), precedence: Precedence::Factor },
        TokenType::Slash => ParseRule { prefix: Option::None, infix: Option::Some(InfixFn::Binary), precedence: Precedence::Factor },
        TokenType::And => ParseRule { prefix: Option::None, infix: Option::Some(InfixFn::Binary), precedence: Precedence::And },
        TokenType::Or => ParseRule { prefix: Option::None, infix: Option::Some(InfixFn::Binary), precedence: Precedence::Or },
        TokenType::To => ParseRule { prefix: Option::None, infix: Option::Some(InfixFn::Binary), precedence: Precedence::Range },
        TokenType::Eq => ParseRule { prefix: Option::None, infix: Option::Some(InfixFn::Binary), precedence: Precedence::Equality },
        TokenType::NEq => ParseRule { prefix: Option::None, infix: Option::Some(InfixFn::Binary), precedence: Precedence::Equality },
        TokenType::LT => ParseRule { prefix: Option::None, infix: Option::Some(InfixFn::Binary), precedence: Precedence::Comparison },
        TokenType::LEq => ParseRule { prefix: Option::None, infix: Option::Some(InfixFn::Binary), precedence: Precedence::Comparison },
        TokenType::GT => ParseRule { prefix: Option::None, infix: Option::Some(InfixFn::Binary), precedence: Precedence::Comparison },
        TokenType::GEq => ParseRule { prefix: Option::None, infix: Option::Some(InfixFn::Binary), precedence: Precedence::Comparison },
        TokenType::RightArrow => ParseRule {
            prefix: Option::None,
            infix: Option::Some(InfixFn::Binary),
            precedence: Precedence::Assignment,
        },
        TokenType::Ident => ParseRule { prefix: Option::Some(PrefixFn::Variable), infix: Option::None, precedence: Precedence::Lowest },
        TokenType::SomeKw => ParseRule { prefix: Option::Some(PrefixFn::SomeExpr), infix: Option::None, precedence: Precedence::Lowest },
        TokenType::Reduce => ParseRule { prefix: Option::Some(PrefixFn::Reduce), infix: Option::None, precedence: Precedence::Lowest },
        TokenType::Filter => ParseRule { prefix: Option::Some(PrefixFn::Filter), infix: Option::None, precedence: Precedence::Lowest },
        TokenType::Len => ParseRule { prefix: Option::Some(PrefixFn::Len), infix: Option::None, precedence: Precedence::Lowest },
        TokenType::ZipMap => ParseRule { prefix: Option::Some(PrefixFn::ZipMap), infix: Option::None, precedence: Precedence::Lowest },
        TokenType::Unwrap => ParseRule { prefix: Option::Some(PrefixFn::Unwrap), infix: Option::None, precedence: Precedence::Lowest },
        _ => ParseRule { prefix: Option::None, infix: Option::None, precedence: Precedence::Lowest },
    }
}

/// How strongly an infix operator binds.
pub open spec fn binds(t: TokenType) -> u8 {
    spec_rule(t).precedence.spec_level()
}

/// The binding strengths of the binary operators, weakest first: `->`, then
/// `or`, then `and`, then `==` and `!=`, then the order comparisons, then
/// `to`, then `+` and `-`, then `*` and `/`. Operators in one group bind
/// equally; each group binds strictly more weakly than the next, so for
/// instance `a or b and c` groups as `a or (b and c)` and `a + b * c` as
/// `a + (b * c)`. Each of them is parsed as an infix binary operation. A
/// prefix `-` or `!` binds more tightly than any of them, and a call `f(..)`
/// or a field access `a.b` more tightly still: `-a * b` is `(-a) * b`, and
/// `-f(x)` is `-(f(x))`.
pub proof fn law_operator_binding_order()
    ensures
        binds(TokenType::RightArrow) < binds(TokenType::Or),
        binds(TokenType::Or) < binds(TokenType::And),
        binds(TokenType::And) < binds(TokenType::Eq),
        binds(TokenType::Eq) == binds(TokenType::NEq),
        binds(TokenType::Eq) < binds(TokenType::LT),
        binds(TokenType::LT) == binds(TokenType::LEq),
        binds(TokenType::LT) == binds(TokenType::GT),
        binds(TokenType::LT) == binds(TokenType::GEq),
        binds(TokenType::LT) < binds(TokenType::To),
        binds(TokenType::To) < binds(TokenType::Plus),
        binds(TokenType::Plus) == binds(TokenType::Minus),
        binds(TokenType::Plus) < binds(TokenType::Star),
        binds(TokenType::Star) == binds(TokenType::Slash),
        binds(TokenType::Star) < Precedence::Unary.spec_level(),
        Precedence::Unary.spec_level() < binds(TokenType::LParen),
        binds(TokenType::LParen) == binds(TokenType::Dot),
        spec_rule(TokenType::Minus).prefix == Option::Some(PrefixFn::Unary),
        spec_rule(TokenType::Bang).prefix == Option::Some(PrefixFn::Unary),
        spec_rule(TokenType::LParen).infix == Option::Some(InfixFn::Call),
        spec_rule(TokenType::Dot).infix == Option::Some(InfixFn::GetField),
        forall|t: TokenType|
            #![trigger spec_rule(t)]
            t == TokenType::RightArrow || t == TokenType::Or || t == TokenType::And || t == TokenType::Eq || t
                == TokenType::NEq || t == TokenType::LT || t == TokenType::LEq || t == TokenType::GT || t
                == TokenType::GEq || t == TokenType::To || t == TokenType::Plus || t == TokenType::Minus || t
                == TokenType::Star || t == TokenType::Slash ==> spec_rule(t).infix == Option::Some(InfixFn::Binary),
{
}

/// Looks up the rule of a token kind.
pub fn get_rule(t: TokenType) -> (r: ParseRule)
    ensures
        r == spec_rule(t),
{
    match t {
        TokenType::LParen => ParseRule::new(Option::Some(PrefixFn::Grouping), Option::Some(InfixFn::Call), Precedence::Call),
        TokenType::LBrace => ParseRule::new(Option::Some(PrefixFn::Block), Option::None, Precedence::Lowest),
        TokenType::Dot => ParseRule::new(Option::None, Option::Some(InfixFn::GetField), Precedence::Call),
        TokenType::If => ParseRule::new(Option::Some(PrefixFn::IfStatement), Option::None, Precedence::Lowest),
        TokenType::Pipe => ParseRule::new(Option::Some(PrefixFn::FunctionDef), Option::None, Precedence::Lowest),
        TokenType::LSquare => ParseRule::new(Option::Some(PrefixFn::Array), Option::None, Precedence::Lowest),
        TokenType::Type => ParseRule::new(Option::Some(PrefixFn::TypeDef), Option::None, Precedence::Lowest),
        TokenType::Int => ParseRule::new(Option::Some(PrefixFn::Int), Option::None, Precedence::Lowest),
        TokenType::Float => ParseRule::new(Option::Some(PrefixFn::Float), Option::None, Precedence::Lowest),
        TokenType::Str => ParseRule::new(Option::Some(PrefixFn::Str), Option::None, Precedence::Lowest),
        TokenType::True => ParseRule::new(Option::Some(PrefixFn::Boolean), Option::None, Precedence::Lowest),
        TokenType::False => ParseRule::new(Option::Some(PrefixFn::Boolean), Option::None, Precedence::Lowest),
        TokenType::Bang => ParseRule::new(Option::Some(PrefixFn::Unary), Option::None, Precedence::Lowest),
        TokenType::Plus => ParseRule::new(Option::None, Option::Some(InfixFn::Binary), Precedence::Term),
        TokenType::Minus => ParseRule::new(Option::Some(PrefixFn::Unary), Option::Some(InfixFn::Binary), Precedence::Term),
        TokenType::Star => ParseRule::new(Option::None, Option::Some(InfixFn::Binary), Precedence::Factor),
        TokenType::Slash => ParseRule::new(Option::None, Option::Some(InfixFn::Binary), Precedence::Factor),
        TokenType::And => ParseRule::new(Option::None, Option::Some(InfixFn::Binary), Precedence::And),
        TokenType::Or => ParseRule::new(Option::None, Option::Some(InfixFn::Binary), Precedence::Or),
        TokenType::To => ParseRule::new(Option::None, Option::Some(InfixFn::Binary), Precedence::Range),
        TokenType::Eq => ParseRule::new(Option::None, Option::Some(InfixFn::Binary), Precedence::Equality),
        TokenType::NEq => ParseRule::new(Option::None, Option::Some(InfixFn::Binary), Precedence::Equality),
        TokenType::LT => ParseRule::new(Option::None, Option::Some(InfixFn::Binary), Precedence::Comparison),
        TokenType::LEq => ParseRule::new(Option::None, Option::Some(InfixFn::Binary), Precedence::Comparison),
        TokenType::GT => ParseRule::new(Option::None, Option::Some(InfixFn::Binary), Precedence::Comparison),
        TokenType::GEq => ParseRule::new(Option::None, Option::Some(InfixFn::Binary), Precedence::Comparison),
        TokenType::RightArrow => ParseRule::new(Option::None, Option::Some(InfixFn::Binary), Precedence::Assignment),
        TokenType::Ident => ParseRule::new(Option::Some(PrefixFn::Variable), Option::None, Precedence::Lowest),
        TokenType::SomeKw => ParseRule::new(Option::Some(PrefixFn::SomeExpr), Option::None, Precedence::Lowest),
        TokenType::Reduce => ParseRule::new(Option::Some(PrefixFn::Reduce), Option::None, Precedence::Lowest),
        TokenType::Filter => ParseRule::new(Option::Some(PrefixFn::Filter), Option::None, Precedence::Lowest),
        TokenType::Len => ParseRule::new(Option::Some(PrefixFn::Len), Option::None, Precedence::Lowest),
        TokenType::ZipMap => ParseRule::new(Option::Some(PrefixFn::ZipMap), Option::None, Precedence::Lowest),
        TokenType::Unwrap => ParseRule::new(Option::Some(PrefixFn::Unwrap), Option::None, Precedence::Lowest),
        _ => ParseRule::new(Option::None, Option::None, Precedence::Lowest),
    }
}

/// An error the parser reported: the line and text of the token it was at
/// (no text at the end of the input), and what went wrong.
#[derive(Debug)]
pub struct ParseError {
    pub line: usize,
    pub at: Option<String>,
    pub message: String,
}

/// How an error is reported to the user: its line, the token it was at, and
/// the message.
pub open spec fn spec_report(line: nat, at: Option<Seq<char>>, message: Seq<char>) -> Seq<char> {
    "Error on line "@ + spec_decimal(line) + match at {
        Option::Some(text) => " at '"@ + text + "'"@,
        Option::None => " at end"@,
    } + ": "@ + message
}

impl ParseError {
    /// The error as it is reported to the user, as in
    /// `Error on line 3 at '+': ...`, or `at end` at the end of the input.
    pub fn report(&self) -> (r: String)
        ensures
            r@ == spec_report(
                self.line as nat,
                match self.at {
                    Option::Some(t) => Option::Some(t@),
                    Option::None => Option::None,
                },
                self.message@,
            ),
    {
        let mut r = indexed_name("Error on line ", self.line, "");
        proof {
            reveal_strlit("");
            assert(r@ =~= "Error on line "@ + spec_decimal(self.line as nat));
        }
        match &self.at {
            Option::Some(text) => {
                r.append(" at '");
                r.append(text.as_str());
                r.append("'");
            },
            Option::None => {
                r.append(" at end");
            },
        }
        r.append(": ");
        r.append(self.message.as_str());
        assert(r@ =~= spec_report(
            self.line as nat,
            match self.at {
                Option::Some(t) => Option::Some(t@),
                Option::None => Option::None,
            },
            self.message@,
        ));
        r
    }
}

/// An optional text as a value.
pub open spec fn opt_text(o: Option<String>) -> Option<Seq<char>> {
    match o {
        Option::Some(t) => Option::Some(t@),
        Option::None => Option::None,
    }
}

/// An error as a value.
pub open spec fn error_view(e: ParseError) -> ErrorView {
    ErrorView { line: e.line as nat, at: opt_text(e.at), message: e.message@ }
}

/// An optional syntax tree as a value.
pub open spec fn opt_expr(o: Option<Expression>) -> Option<ExprView> {
    match o {
        Option::Some(e) => Option::Some(e.view()),
        Option::None => Option::None,
    }
}

/// An annotation or an error message, as a value.
pub open spec fn annotation_result(r: Result<TypeAnnotation, String>) -> Result<AnnotationView, Seq<char>> {
    match r {
        Ok(t) => Ok(t.view()),
        Err(e) => Err(e@),
    }
}

/// An error points at a token of the input: it has the token's line, and
/// its text unless the token ends the input.
pub open spec fn points_at(e: ParseError, tokens: Seq<Token>) -> bool {
    exists|k: int|
        0 <= k < tokens.len() && e.line == #[trigger] tokens[k].line && match e.at {
            Option::Some(t) => tokens[k].ttype != TokenType::EoF && t@ == tokens[k].text@,
            Option::None => tokens[k].ttype == TokenType::EoF,
        }
}

/// Joins two pieces of text.
pub fn join2(a: &str, b: &str) -> (r: String)
    ensures
        r@ == a@ + b@,
{
    let mut r = String::from_str(a);
    r.append(b);
    r
}

/// Joins three pieces of text.
pub fn join3(a: &str, b: &str, c: &str) -> (r: String)
    ensures
        r@ == a@ + b@ + c@,
{
    let mut r = String::from_str(a);
    r.append(b);
    r.append(c);
    r
}

/// Builds syntax trees from tokens.
pub struct Parser {
    tokens: Vec<Token>,
    current: usize,
    previous: usize,
    had_error: bool,
    panic_mode: bool,
    last_name: Option<String>,
    errors: Vec<ParseError>,
}

impl Parser {
    /// The parser's invariant: the tokens end with the end-of-file token, the
    /// positions lie within them, and an error was recorded exactly when one
    /// was reported.
    pub closed spec fn wf(&self) -> bool {
        &&& self.tokens@.len() >= 1
        &&& self.tokens@.last().ttype == TokenType::EoF
        &&& self.current < self.tokens@.len()
        &&& self.previous < self.tokens@.len()
        &&& (self.panic_mode ==> self.had_error)
        &&& (self.had_error <==> self.errors@.len() > 0)
        &&& forall|i: int| 0 <= i < self.errors@.len() ==> #[trigger] points_at(self.errors@[i], self.tokens@)
    }

    /// The tokens as values.
    pub closed spec fn ts(&self) -> Seq<SpecToken> {
        token_views(self.tokens@)
    }

    /// The state between two steps, as a value.
    pub closed spec fn state(&self) -> ParseState {
        ParseState {
            current: self.current as int,
            previous: self.previous as int,
            had_error: self.had_error,
            panic_mode: self.panic_mode,
            last_name: opt_text(self.last_name),
            errors: self.errors@.map_values(|e: ParseError| error_view(e)),
        }
    }

    /// Position of the current token.
    pub closed spec fn pos(&self) -> nat {
        self.current as nat
    }

    /// Whether an error has been reported.
    pub closed spec fn failed(&self) -> bool {
        self.had_error
    }

    /// The tokens being parsed.
    pub closed spec fn input(&self) -> Seq<Token> {
        self.tokens@
    }

    /// The errors reported so far.
    pub closed spec fn reported(&self) -> Seq<ParseError> {
        self.errors@
    }

    /// What every parsing step keeps: the tokens, a position that only moves
    /// forward, and the errors already reported.
    pub closed spec fn moved_on(self, next: Parser) -> bool {
        &&& next.tokens@ == self.tokens@
        &&& self.current <= next.current
        &&& (self.had_error ==> next.had_error)
    }

    pub closed spec fn at_eof(&self) -> bool {
        self.tokens@[self.current as int].ttype == TokenType::EoF
    }

    pub closed spec fn measure(&self) -> int {
        self.tokens@.len() - self.current
    }

    pub fn new(tokens: Vec<Token>) -> (p: Parser)
        requires
            tokens@.len() >= 1,
            tokens@.last().ttype == TokenType::EoF,
        ensures
            p.wf(),
            p.input() == tokens@,
            p.pos() == 0,
            !p.failed(),
            p.ts() == token_views(tokens@),
            p.state() == start_state(),
    {
        let p = Parser {
            tokens,
            current: 0,
            previous: 0,
            had_error: false,
            panic_mode: false,
            last_name: Option::None,
            errors: Vec::new(),
        };
        assert(p.state().errors =~= Seq::<ErrorView>::empty());
        p
    }

    /// The errors reported, in the order they were found.
    pub fn errors(&self) -> (e: &Vec<ParseError>)
        ensures
            e@ == self.reported(),
            e@.map_values(|e: ParseError| error_view(e)) == self.state().errors,
            self.wf() ==> forall|i: int| 0 <= i < e@.len() ==> #[trigger] points_at(e@[i], self.input()),
    {
        &self.errors
    }

    fn previous_token(&self) -> (t: &Token)
        requires
            self.wf(),
        ensures
            *t == self.tokens@[self.previous as int],
    {
        &self.tokens[self.previous]
    }

    fn current_token(&self) -> (t: &Token)
        requires
            self.wf(),
        ensures
            *t == self.tokens@[self.current as int],
    {
        &self.tokens[self.current]
    }

    fn current_ttype(&self) -> (t: TokenType)
        requires
            self.wf(),
        ensures
            t == self.tokens@[self.current as int].ttype,
    {
        self.current_token().ttype
    }

    fn is_eof(&self) -> (r: bool)
        requires
            self.wf(),
        ensures
            r == self.at_eof(),
    {
        self.current_ttype() == TokenType::EoF
    }

    /// Reports an error at the previous token, unless an error has already
    /// been reported in the current block; the message defaults to the
    /// token's text.
    fn error(&mut self, message: Option<String>)
        requires
            old(self).wf(),
        ensures
            final(self).wf(),
            final(self).tokens == old(self).tokens,
            final(self).current == old(self).current,
            final(self).previous == old(self).previous,
            final(self).last_name == old(self).last_name,
            final(self).had_error,
            final(self).panic_mode,
            old(self).errors@.is_prefix_of(final(self).errors@),
            final(self).state() == spec_error(old(self).ts(), old(self).state(), opt_text(message)),
    {
        if self.panic_mode {
            return;
        }
        let token = self.previous_token();
        let at = if token.ttype == TokenType::EoF {
            Option::None
        } else {
            Option::Some(token.text.clone())
        };
        let message = match message {
            Option::Some(m) => m,
            Option::None => token.text.clone(),
        };
        let line = token.line;
        let ghost k = self.previous as int;
        let e = ParseError { line, at, message };
        assert(points_at(e, self.tokens@)) by {
            assert(e.line == self.tokens@[k].line);
        }
        let ghost prev_errors = self.errors@;
        self.errors.push(e);
        self.had_error = true;
        self.panic_mode = true;
        proof {
            assert(self.errors@.map_values(|e: ParseError| error_view(e)) =~= prev_errors.map_values(
                |e: ParseError| error_view(e),
            ).push(error_view(e)));
            assert(self.ts()[k] == self.tokens@[k]@);
        }
    }

    /// Moves to the next token, reporting and passing over error tokens.
    fn advance(&mut self)
        requires
            old(self).wf(),
            !old(self).at_eof(),
        ensures
            final(self).wf(),
            old(self).moved_on(*final(self)),
            final(self).current > old(self).current,
            final(self).previous == old(self).current,
            final(self).last_name == old(self).last_name,
            final(self).panic_mode == old(self).panic_mode || final(self).had_error,
            final(self).tokens@[final(self).current as int].ttype != TokenType::Error,
            final(self).state() == spec_advance(old(self).ts(), old(self).state()),
    {
        self.previous = self.current;
        assert(self.tokens@[self.tokens@.len() - 1].ttype == TokenType::EoF);
        assert(self.current < self.tokens@.len() - 1);
        let n = self.tokens.len();
        loop
            invariant_except_break
                self.current < self.tokens@.len() - 1,
                spec_skip_errors(self.ts(), self.state()) == spec_advance(old(self).ts(), old(self).state()),
            invariant
                n == self.tokens@.len(),
                self.wf(),
                old(self).moved_on(*self),
                self.previous == old(self).current,
                self.last_name == old(self).last_name,
                self.panic_mode == old(self).panic_mode || self.had_error,
                self.ts() == old(self).ts(),
            ensures
                self.current > old(self).current,
                self.tokens@[self.current as int].ttype != TokenType::Error,
                self.state() == spec_advance(old(self).ts(), old(self).state()),
            decreases self.tokens@.len() - self.current,
        {
            let ghost before = self.state();
            self.current = self.current + 1;
            assert(self.state() == ParseState { current: before.current + 1, ..before });
            assert(self.ts()[self.current as int] == self.tokens@[self.current as int]@);
            if self.current_ttype() != TokenType::Error {
                break;
            }
            self.error(Option::None);
        }
    }

    fn consume_if_match(&mut self, ttype: TokenType) -> (r: bool)
        requires
            old(self).wf(),
            ttype != TokenType::EoF,
        ensures
            final(self).wf(),
            old(self).moved_on(*final(self)),
            final(self).last_name == old(self).last_name,
            r == (old(self).tokens@[old(self).current as int].ttype == ttype),
            r ==> final(self).current > old(self).current,
            !r ==> *final(self) == *old(self),
            (r, final(self).state()) == spec_consume_if_match(old(self).ts(), old(self).state(), ttype),
    {
        assert(self.ts()[self.current as int] == self.tokens@[self.current as int]@);
        if self.current_ttype() == ttype {
            self.advance();
            return true;
        }
        false
    }

    fn consume(&mut self, ttype: TokenType, message: String)
        requires
            old(self).wf(),
            ttype != TokenType::EoF,
        ensures
            final(self).wf(),
            old(self).moved_on(*final(self)),
            final(self).last_name == old(self).last_name,
            old(self).tokens@[old(self).current as int].ttype == ttype ==> final(self).current > old(self).current,
            old(self).tokens@[old(self).current as int].ttype != ttype ==> final(self).had_error,
            final(self).state() == spec_consume(old(self).ts(), old(self).state(), ttype, message@),
    {
        assert(self.ts()[self.current as int] == self.tokens@[self.current as int]@);
        if self.current_ttype() == ttype {
            self.advance();
            return;
        }
        self.error(Option::Some(message));
    }

    /// Parses an expression whose operators bind at least as strongly as
    /// `precedence`. Returns `None` at the end of the input, or after
    /// reporting an error.
    fn parse_with_precedence(&mut self, precedence: Precedence) -> (r: Option<Expression>)
        requires
            old(self).wf(),
        ensures
            final(self).wf(),
            old(self).moved_on(*final(self)),
            r is Some ==> final(self).current > old(self).current,
            r is None ==> old(self).at_eof() || final(self).had_error,
            r matches Option::Some(e) ==> (!final(self).had_error ==> e.error_free()),
            (opt_expr(r), final(self).state()) == spec_parse_with_precedence(old(self).ts(), old(self).state(), precedence),
        decreases old(self).tokens@.len() - old(self).current, 1nat,
    {
        let ghost ts = self.ts();
        if self.is_eof() {
            return Option::None;
        }
        self.advance();
        assert(ts[self.previous as int] == self.tokens@[self.previous as int]@);
        let prefix_rule = match get_rule(self.previous_token().ttype).prefix {
            Option::Some(rule) => rule,
            Option::None => {
                let msg = join2(
                    "Expected a token that can begin an expression, but got ",
                    self.previous_token().text.as_str(),
                );
                self.error(Option::Some(msg));
                return Option::None;
            },
        };
        let mut prefix = self.call_prefix(prefix_rule);
        let ghost target = spec_infix_loop(ts, self.state(), precedence, prefix.view());
        assert(ts[self.current as int] == self.tokens@[self.current as int]@);
        while precedence.level() <= get_rule(self.current_token().ttype).precedence.level() && !self.is_eof()
            invariant
                self.wf(),
                old(self).moved_on(*self),
                self.current > old(self).current,
                !self.had_error ==> prefix.error_free(),
                ts == self.ts(),
                ts == old(self).ts(),
                ts[self.current as int] == self.tokens@[self.current as int]@,
                spec_infix_loop(ts, self.state(), precedence, prefix.view()) == target,
                spec_parse_with_precedence(ts, old(self).state(), precedence) == target,
            decreases self.tokens@.len() - self.current,
        {
            let ghost head = self.state();
            let ghost left = prefix.view();
            self.advance();
            assert(ts[self.previous as int] == self.tokens@[self.previous as int]@);
            let infix_rule = match get_rule(self.previous_token().ttype).infix {
                Option::Some(rule) => rule,
                Option::None => {
                    let msg = join2(
                        "Expected token that can act as an infix operator, but got ",
                        self.previous_token().text.as_str(),
                    );
                    self.error(Option::Some(msg));
                    return Option::None;
                },
            };
            prefix = self.call_infix(infix_rule, prefix);
            assert(ts[self.current as int] == self.tokens@[self.current as int]@);
        }
        Option::Some(prefix)
    }

    /// Runs the prefix parser of a rule; the token that selected it has just
    /// been consumed.
    fn call_prefix(&mut self, rule: PrefixFn) -> (r: Expression)
        requires
            old(self).wf(),
        ensures
            final(self).wf(),
            old(self).moved_on(*final(self)),
            !final(self).had_error ==> r.error_free(),
            (r.view(), final(self).state()) == spec_call_prefix(old(self).ts(), old(self).state(), rule),
        decreases old(self).tokens@.len() - old(self).current, 5nat,
    {
        match rule {
            PrefixFn::Grouping => self.grouping(),
            PrefixFn::Block => self.block(),
            PrefixFn::IfStatement => self.if_statement(),
            PrefixFn::FunctionDef => self.function_def(),
            PrefixFn::Array => self.array(),
            PrefixFn::TypeDef => self.type_def(),
            PrefixFn::Int => self.integer(),
            PrefixFn::Float => self.float(),
            PrefixFn::Str => self.string(),
            PrefixFn::Boolean => self.boolean(),
            PrefixFn::Unary => self.unary(),
            PrefixFn::Variable => self.variable(),
            PrefixFn::SomeExpr => self.some(),
            PrefixFn::Reduce => self.reduce(),
            PrefixFn::Filter => self.filter(),
            PrefixFn::Len => self.len(),
            PrefixFn::ZipMap => self.zipmap(),
            PrefixFn::Unwrap => self.unwrap(),
        }
    }

    /// Runs the infix parser of a rule on the expression to its left; the
    /// operator token has just been consumed.
    fn call_infix(&mut self, rule: InfixFn, left: Expression) -> (r: Expression)
        requires
            old(self).wf(),
        ensures
            final(self).wf(),
            old(self).moved_on(*final(self)),
            !final(self).had_error && left.error_free() ==> r.error_free(),
            (r.view(), final(self).state()) == spec_call_infix(old(self).ts(), old(self).state(), rule, left.view()),
        decreases old(self).tokens@.len() - old(self).current, 5nat,
    {
        match rule {
            InfixFn::Call => self.call(left),
            InfixFn::GetField => self.get_field(left),
            InfixFn::Binary => self.binary(left),
        }
    }

    fn expression(&mut self) -> (r: Option<Expression>)
        requires
            old(self).wf(),
        ensures
            final(self).wf(),
            old(self).moved_on(*final(self)),
            r is Some ==> final(self).current > old(self).current,
            r is None ==> old(self).at_eof() || final(self).had_error,
            r matches Option::Some(e) ==> (!final(self).had_error ==> e.error_free()),
            (opt_expr(r), final(self).state()) == spec_expression(old(self).ts(), old(self).state()),
        decreases old(self).tokens@.len() - old(self).current, 2nat,
    {
        self.parse_with_precedence(Precedence::Lowest.next())
    }

    fn integer(&mut self) -> (r: Expression)
        requires
            old(self).wf(),
        ensures
            *final(self) == *old(self),
            r == Expression::Literal(Type::Int, old(self).tokens@[old(self).previous as int].text),
            (r.view(), final(self).state()) == spec_literal(old(self).ts(), old(self).state(), TypeView::Int),
    {
        let token = self.previous_token();
        Expression::Literal(Type::Int, token.text.clone())
    }

    fn float(&mut self) -> (r: Expression)
        requires
            old(self).wf(),
        ensures
            *final(self) == *old(self),
            r == Expression::Literal(Type::Float, old(self).tokens@[old(self).previous as int].text),
            (r.view(), final(self).state()) == spec_literal(old(self).ts(), old(self).state(), TypeView::Float),
    {
        let token = self.previous_token();
        Expression::Literal(Type::Float, token.text.clone())
    }

    fn string(&mut self) -> (r: Expression)
        requires
            old(self).wf(),
        ensures
            *final(self) == *old(self),
            r == Expression::Literal(Type::Str, old(self).tokens@[old(self).previous as int].text),
            (r.view(), final(self).state()) == spec_literal(old(self).ts(), old(self).state(), TypeView::Str),
    {
        let token = self.previous_token();
        Expression::Literal(Type::Str, token.text.clone())
    }

    fn boolean(&mut self) -> (r: Expression)
        requires
            old(self).wf(),
        ensures
            *final(self) == *old(self),
            r == Expression::Literal(Type::Bool, old(self).tokens@[old(self).previous as int].text),
            (r.view(), final(self).state()) == spec_literal(old(self).ts(), old(self).state(), TypeView::Bool),
    {
        let token = self.previous_token();
        Expression::Literal(Type::Bool, token.text.clone())
    }

    fn assignment(&mut self, name: String) -> (r: Expression)
        requires
            old(self).wf(),
        ensures
            final(self).wf(),
            old(self).moved_on(*final(self)),
            !final(self).had_error ==> (r.error_free() && (r matches Expression::Assignment(n, _) && n == name)),
            (r.view(), final(self).state()) == spec_assignment(old(self).ts(), old(self).state(), name@),
        decreases old(self).tokens@.len() - old(self).current, 2nat,
    {
        self.last_name = Option::Some(name.clone());
        let value = match self.parse_with_precedence(Precedence::Assignment) {
            Option::Some(expr) => expr,
            Option::None => {
                self.error(Option::Some(String::from_str("Expected an expression after ':=', but couldn't find anything.")));
                return Expression::Error(ErrorExpression);
            },
        };
        self.last_name = Option::None;
        Expression::Assignment(name, Box::new(value))
    }

    fn variable(&mut self) -> (r: Expression)
        requires
            old(self).wf(),
        ensures
            final(self).wf(),
            old(self).moved_on(*final(self)),
            !final(self).had_error ==> r.error_free(),
            old(self).tokens@[old(self).current as int].ttype != TokenType::Assign ==> r == Expression::Variable(
                old(self).tokens@[old(self).previous as int].text,
            ),
            (r.view(), final(self).state()) == spec_variable(old(self).ts(), old(self).state()),
        decreases old(self).tokens@.len() - old(self).current, 4nat,
    {
        let name = self.previous_token().text.clone();
        if self.consume_if_match(TokenType::Assign) {
            return self.assignment(name);
        }
        Expression::Variable(name)
    }

    fn unary(&mut self) -> (r: Expression)
        requires
            old(self).wf(),
        ensures
            final(self).wf(),
            old(self).moved_on(*final(self)),
            !final(self).had_error ==> (r.error_free() && (r matches Expression::Unary(op, _) && op == old(self).tokens@[old(self).previous as int].ttype)),
            (r.view(), final(self).state()) == spec_unary(old(self).ts(), old(self).state()),
        decreases old(self).tokens@.len() - old(self).current, 2nat,
    {
        let ttype = self.previous_token().ttype;
        let text = self.previous_token().text.clone();
        let right = match self.parse_with_precedence(Precedence::Unary) {
            Option::Some(expr) => expr,
            Option::None => {
                let msg = join3(
                    "Expected something that could follow '",
                    text.as_str(),
                    "', but couldn't find anything.",
                );
                self.error(Option::Some(msg));
                return Expression::Error(ErrorExpression);
            },
        };
        Expression::Unary(ttype, Box::new(right))
    }

    fn binary(&mut self, left: Expression) -> (r: Expression)
        requires
            old(self).wf(),
        ensures
            final(self).wf(),
            old(self).moved_on(*final(self)),
            !final(self).had_error && left.error_free() ==> r.error_free(),
            !final(self).had_error ==> (r matches Expression::Binary(_, op, _) && op == old(self).tokens@[old(self).previous as int].ttype),
            (r.view(), final(self).state()) == spec_binary(old(self).ts(), old(self).state(), left.view()),
        decreases old(self).tokens@.len() - old(self).current, 2nat,
    {
        let ttype = self.previous_token().ttype;
        let text = self.previous_token().text.clone();
        let rule = get_rule(ttype);
        if rule.precedence == Precedence::Call {
            // no binary operator binds as strongly as a call
            self.error(Option::Some(String::from_str("Expected a binary operator.")));
            return Expression::Error(ErrorExpression);
        }
        let right = match self.parse_with_precedence(rule.precedence.next()) {
            Option::Some(expr) => expr,
            Option::None => {
                let msg = join3(
                    "Expected something that could follow '",
                    text.as_str(),
                    "', but couldn't find anything.",
                );
                self.error(Option::Some(msg));
                return Expression::Error(ErrorExpression);
            },
        };
        Expression::Binary(Box::new(left), ttype, Box::new(right))
    }

    /// Parses a type annotation such as `Arr(Int)` or `Func(Int, Int)`; the
    /// commas between parameters are optional.
    fn type_annotation(&mut self) -> (r: Result<TypeAnnotation, String>)
        requires
            old(self).wf(),
        ensures
            final(self).wf(),
            old(self).moved_on(*final(self)),
            final(self).last_name == old(self).last_name,
            r is Ok ==> final(self).current > old(self).current,
            old(self).tokens@[old(self).current as int].ttype != TokenType::Ident ==> r is Err && *final(self)
                == *old(self),
            r matches Ok(t) ==> t.typename@ == old(self).tokens@[old(self).current as int].text@,
            (annotation_result(r), final(self).state()) == spec_type_annotation(old(self).ts(), old(self).state()),
        decreases old(self).tokens@.len() - old(self).current,
    {
        let ghost ts = self.ts();
        let ghost s0 = self.state();
        assert(ts[self.current as int] == self.tokens@[self.current as int]@);
        let typename = self.current_token();
        if typename.ttype != TokenType::Ident {
            return Err(
                join3(
                    "In type annotation, expected identifier, but found ",
                    typename.text.as_str(),
                    " instead.",
                ),
            );
        }
        let typename = typename.text.clone();
        self.advance();
        let mut children: Vec<TypeAnnotation> = Vec::new();
        if self.consume_if_match(TokenType::LParen) {
            let ghost target = spec_annotation_children(ts, self.state(), Seq::empty());
            assert(annotations_view(children@) =~= Seq::<AnnotationView>::empty());
            loop
                invariant_except_break
                    spec_annotation_children(ts, self.state(), annotations_view(children@)) == target,
                invariant
                    self.wf(),
                    old(self).moved_on(*self),
                    self.current > old(self).current,
                    self.last_name == old(self).last_name,
                    old(self).tokens@[old(self).current as int].ttype == TokenType::Ident,
                    ts == self.ts(),
                    ts == old(self).ts(),
                    s0 == old(self).state(),
                    typename@ == old(self).tokens@[old(self).current as int].text@,
                    spec_type_annotation(ts, s0) == match target {
                        (Ok(cs), s3) => (Ok(AnnotationView { typename: typename@, children: cs }), s3),
                        (Err(e), s3) => (Err(e), s3),
                    },
                ensures
                    target == (Ok::<Seq<AnnotationView>, Seq<char>>(annotations_view(children@)), self.state()),
                decreases self.tokens@.len() - self.current,
            {
                let ghost head = self.state();
                let ghost acc = annotations_view(children@);
                if self.consume_if_match(TokenType::RParen) {
                    break;
                }
                let child = self.type_annotation();
                match child {
                    Ok(c) => {
                        let ghost prev = children@;
                        children.push(c);
                        assert(children@.drop_last() =~= prev);
                        assert(annotations_view(children@) == acc.push(c.view()));
                    },
                    Err(e) => {
                        assert(spec_annotation_children(ts, head, acc) == (
                            Err::<Seq<AnnotationView>, Seq<char>>(e@),
                            self.state(),
                        ));
                        return Err(e);
                    },
                }
                self.consume_if_match(TokenType::Comma);
            }
        }
        Ok(TypeAnnotation::new(typename, children))
    }

    fn grouping(&mut self) -> (r: Expression)
        requires
            old(self).wf(),
        ensures
            final(self).wf(),
            old(self).moved_on(*final(self)),
            !final(self).had_error ==> r.error_free(),
            (r.view(), final(self).state()) == spec_grouping(old(self).ts(), old(self).state()),
        decreases old(self).tokens@.len() - old(self).current, 2nat,
    {
        if self.consume_if_match(TokenType::RParen) {
            self.error(
                Option::Some(
                    String::from_str(
                        "Found nothing in grouping parentheses. Parentheses must contain at least one expression or be associated with a call.",
                    ),
                ),
            );
            return Expression::Error(ErrorExpression);
        }
        let expr = self.parse_with_precedence(Precedence::Lowest.next());
        let msg = join3(
            "Expected ')' after expression within grouping but found ",
            self.current_token().text.as_str(),
            " instead.",
        );
        self.consume(TokenType::RParen, msg);
        match expr {
            Option::Some(expr) => expr,
            Option::None => {
                self.error(Option::Some(String::from_str("This should be unreachable.")));
                Expression::Error(ErrorExpression)
            },
        }
    }

    /// Parses the expressions of a block up to its closing brace. An empty
    /// block must be annotated with a type and stands for a missing value.
    fn block(&mut self) -> (r: Expression)
        requires
            old(self).wf(),
        ensures
            final(self).wf(),
            old(self).moved_on(*final(self)),
            !final(self).had_error ==> r.error_free(),
            !final(self).had_error ==> r is Block || r is NullMaybe,
            (r.view(), final(self).state()) == spec_block(old(self).ts(), old(self).state()),
        decreases old(self).tokens@.len() - old(self).current, 3nat,
    {
        // a new context: errors can be reported again
        self.panic_mode = false;
        let ghost ts = self.ts();
        let ghost s0 = self.state();
        let ghost target = spec_block_items(ts, s0, Seq::empty());
        let mut expressions: Vec<Expression> = Vec::new();
        assert(exprs_view(expressions@) =~= Seq::<ExprView>::empty());
        loop
            invariant_except_break
                spec_block_items(ts, self.state(), exprs_view(expressions@)) == target,
            invariant
                self.wf(),
                old(self).moved_on(*self),
                !self.had_error ==> list_error_free(expressions@),
                ts == self.ts(),
                ts == old(self).ts(),
                s0 == (ParseState { panic_mode: false, ..old(self).state() }),
                target == spec_block_items(ts, s0, Seq::empty()),
            ensures
                target == (LoopEnd::Done(exprs_view(expressions@)), self.state()),
            decreases self.tokens@.len() - self.current,
        {
            let ghost head = self.state();
            let ghost acc = exprs_view(expressions@);
            if self.consume_if_match(TokenType::RBrace) {
                break;
            }
            assert(ts[self.current as int] == self.tokens@[self.current as int]@);
            if self.is_eof() {
                break;
            }
            match self.expression() {
                Option::Some(expr) => {
                    let ghost prev = expressions@;
                    expressions.push(expr);
                    assert(expressions@.drop_last() =~= prev);
                    assert(exprs_view(expressions@) == acc.push(expr.view()));
                },
                Option::None => {
                    assert(ts[self.current as int] == self.tokens@[self.current as int]@);
                    let msg = join3(
                        "Expected expression in block but found ",
                        self.current_token().text.as_str(),
                        " instead.",
                    );
                    self.error(Option::Some(msg));
                    return Expression::Error(ErrorExpression);
                },
            }
        }
        proof {
            crate::ast::lemma_exprs_view(expressions@);
        }
        if expressions.len() == 0 {
            self.consume(TokenType::Colon, String::from_str("Type annotation is required after empty block."));
            let type_annotation = match self.type_annotation() {
                Ok(type_annotation) => type_annotation,
                Err(e) => {
                    self.error(Option::Some(e));
                    return Expression::Error(ErrorExpression);
                },
            };
            Expression::NullMaybe(type_annotation)
        } else {
            Expression::Block(expressions)
        }
    }

    /// Names with their type annotations up to the closing token or the end
    /// of the input; the commas between them are optional. The messages say
    /// what was expected, that an annotation is missing, and that there are
    /// too many.
    fn named_items(&mut self, close: TokenType, expected: &str, missing: &str, too_many: &str) -> (r: Option<
        Vec<NameAndType>,
    >)
        requires
            old(self).wf(),
            close != TokenType::EoF,
        ensures
            final(self).wf(),
            old(self).moved_on(*final(self)),
            final(self).last_name == old(self).last_name,
            r is None ==> final(self).had_error,
            (
                match r {
                    Option::Some(items) => LoopEnd::Done(named_view(items@)),
                    Option::None => LoopEnd::Failed,
                },
                final(self).state(),
            ) == spec_named_items(
                old(self).ts(),
                old(self).state(),
                close,
                expected@,
                missing@,
                too_many@,
                Seq::empty(),
            ),
    {
        let ghost ts = self.ts();
        let ghost target = spec_named_items(ts, self.state(), close, expected@, missing@, too_many@, Seq::empty());
        let mut items: Vec<NameAndType> = Vec::new();
        assert(named_view(items@) =~= Seq::<(Seq<char>, AnnotationView)>::empty());
        loop
            invariant_except_break
                spec_named_items(ts, self.state(), close, expected@, missing@, too_many@, named_view(items@))
                    == target,
            invariant
                self.wf(),
                old(self).moved_on(*self),
                self.last_name == old(self).last_name,
                items@.len() <= 255,
                close != TokenType::EoF,
                ts == self.ts(),
                ts == old(self).ts(),
                target == spec_named_items(
                    ts,
                    old(self).state(),
                    close,
                    expected@,
                    missing@,
                    too_many@,
                    Seq::empty(),
                ),
            ensures
                target == (LoopEnd::Done(named_view(items@)), self.state()),
            decreases self.tokens@.len() - self.current,
        {
            let ghost head = self.state();
            let ghost acc = named_view(items@);
            if self.consume_if_match(close) {
                break;
            }
            assert(ts[self.current as int] == self.tokens@[self.current as int]@);
            if self.is_eof() {
                break;
            }
            let name = self.current_token();
            if name.ttype != TokenType::Ident {
                let msg = join3(expected, name.text.as_str(), " instead.");
                self.error(Option::Some(msg));
                return Option::None;
            }
            let name = name.text.clone();
            self.advance();
            let msg = join3(missing, name.as_str(), ".");
            self.consume(TokenType::Colon, msg);
            let typ = match self.type_annotation() {
                Ok(type_annotation) => type_annotation,
                Err(e) => {
                    self.error(Option::Some(e));
                    return Option::None;
                },
            };
            let item = NameAndType::new(name, typ);
            let ghost prev = items@;
            items.push(item);
            assert(named_view(items@) =~= acc.push((item.name@, item.typ.view())));
            if items.len() > 255 {
                self.error(Option::Some(String::from_str(too_many)));
                return Option::None;
            }
            // comma is optional between items
            self.consume_if_match(TokenType::Comma);
        }
        Option::Some(items)
    }

    fn function_def(&mut self) -> (r: Expression)
        requires
            old(self).wf(),
        ensures
            final(self).wf(),
            old(self).moved_on(*final(self)),
            !final(self).had_error ==> r.error_free(),
            !final(self).had_error ==> r is Function,
            (r.view(), final(self).state()) == spec_function_def(old(self).ts(), old(self).state()),
        decreases old(self).tokens@.len() - old(self).current, 4nat,
    {
        let params = match self.named_items(
            TokenType::Pipe,
            "In function definition, expected parameter name but found ",
            "Missing type annotation for parameter ",
            "Too many parameters in function definition.",
        ) {
            Option::Some(params) => params,
            Option::None => {
                return Expression::Error(ErrorExpression);
            },
        };
        // optional type annotation for the return type
        let return_type = if self.consume_if_match(TokenType::Colon) {
            match self.type_annotation() {
                Ok(type_annotation) => Option::Some(type_annotation),
                Err(e) => {
                    self.error(Option::Some(e));
                    return Expression::Error(ErrorExpression);
                },
            }
        } else {
            Option::None
        };
        self.consume(TokenType::LBrace, String::from_str("Expected '{' after function parameters."));
        let body = self.block();
        let name = match &self.last_name {
            Option::Some(name) => name.clone(),
            Option::None => String::from_str("<anon>"),
        };
        Expression::Function(name, params, return_type, Box::new(body))
    }

    fn array(&mut self) -> (r: Expression)
        requires
            old(self).wf(),
        ensures
            final(self).wf(),
            old(self).moved_on(*final(self)),
            !final(self).had_error ==> r.error_free(),
            !final(self).had_error ==> r is Array || r is EmptyArray,
            (r.view(), final(self).state()) == spec_array(old(self).ts(), old(self).state()),
        decreases old(self).tokens@.len() - old(self).current, 3nat,
    {
        let ghost ts = self.ts();
        let ghost target = spec_array_items(ts, self.state(), Seq::empty());
        let mut entries: Vec<Expression> = Vec::new();
        assert(exprs_view(entries@) =~= Seq::<ExprView>::empty());
        loop
            invariant_except_break
                spec_array_items(ts, self.state(), exprs_view(entries@)) == target,
            invariant
                self.wf(),
                old(self).moved_on(*self),
                !self.had_error ==> list_error_free(entries@),
                ts == self.ts(),
                ts == old(self).ts(),
                target == spec_array_items(ts, old(self).state(), Seq::empty()),
            ensures
                target == (LoopEnd::Done(exprs_view(entries@)), self.state()),
            decreases self.tokens@.len() - self.current,
        {
            let ghost head = self.state();
            let ghost acc = exprs_view(entries@);
            if self.consume_if_match(TokenType::RSquare) {
                break;
            }
            assert(ts[self.current as int] == self.tokens@[self.current as int]@);
            if self.is_eof() {
                break;
            }
            let expr = match self.expression() {
                Option::Some(expr) => expr,
                Option::None => {
                    assert(ts[self.current as int] == self.tokens@[self.current as int]@);
                    let msg = join3(
                        "Expected expression in array but found ",
                        self.current_token().text.as_str(),
                        " instead.",
                    );
                    self.error(Option::Some(msg));
                    return Expression::Error(ErrorExpression);
                },
            };
            let ghost prev = entries@;
            entries.push(expr);
            assert(entries@.drop_last() =~= prev);
            assert(exprs_view(entries@) == acc.push(expr.view()));
            self.consume_if_match(TokenType::Comma);
        }
        proof {
            crate::ast::lemma_exprs_view(entries@);
        }
        if entries.len() == 0 {
            self.consume(TokenType::Colon, String::from_str("Empty arrays must be annoted with a type"));
            let typ = match self.type_annotation() {
                Ok(type_annotation) => type_annotation,
                Err(e) => {
                    self.error(Option::Some(e));
                    return Expression::Error(ErrorExpression);
                },
            };
            return Expression::EmptyArray(typ);
        }
        Expression::Array(entries)
    }

    fn type_def(&mut self) -> (r: Expression)
        requires
            old(self).wf(),
        ensures
            final(self).wf(),
            old(self).moved_on(*final(self)),
            !final(self).had_error ==> r is TypeDef,
            (r.view(), final(self).state()) == spec_type_def(old(self).ts(), old(self).state()),
    {
        self.consume(TokenType::LBrace, String::from_str("Expected '{' after 'type'."));
        let fields = match self.named_items(
            TokenType::RBrace,
            "In type definition, expected field name but found ",
            "Missing type annotation for field ",
            "Too many fields in type definition.",
        ) {
            Option::Some(fields) => fields,
            Option::None => {
                return Expression::Error(ErrorExpression);
            },
        };
        let name = match &self.last_name {
            Option::Some(name) => name.clone(),
            Option::None => String::from_str("<anontype>"),
        };
        Expression::TypeDef(name, fields)
    }

    /// Parses the arguments of a call; the commas between them are optional.
    #[verifier::rlimit(40)]
    fn call(&mut self, callee: Expression) -> (r: Expression)
        requires
            old(self).wf(),
        ensures
            final(self).wf(),
            old(self).moved_on(*final(self)),
            !final(self).had_error && callee.error_free() ==> r.error_free(),
            !final(self).had_error ==> r is Call,
            (r.view(), final(self).state()) == spec_call(old(self).ts(), old(self).state(), callee.view()),
        decreases old(self).tokens@.len() - old(self).current, 3nat,
    {
        let ghost ts = self.ts();
        let mut arguments: Vec<Expression> = Vec::new();
        assert(list_error_free(arguments@));
        assert(exprs_view(arguments@) =~= Seq::<ExprView>::empty());
        if !self.consume_if_match(TokenType::RParen) {
            let ghost target = spec_call_args(ts, self.state(), Seq::empty());
            loop
                invariant_except_break
                    spec_call_args(ts, self.state(), exprs_view(arguments@)) == target,
                invariant
                    self.wf(),
                    old(self).moved_on(*self),
                    !self.had_error ==> list_error_free(arguments@),
                    ts == self.ts(),
                    ts == old(self).ts(),
                    target == spec_call_args(ts, old(self).state(), Seq::empty()),
                    !spec_consume_if_match(ts, old(self).state(), TokenType::RParen).0,
                ensures
                    target == (LoopEnd::Done(exprs_view(arguments@)), self.state()),
                decreases self.tokens@.len() - self.current,
            {
                let ghost head = self.state();
                let ghost acc = exprs_view(arguments@);
                let expr = match self.expression() {
                    Option::Some(expr) => expr,
                    Option::None => {
                        self.error(Option::Some(String::from_str("Expected expression as argument in call.")));
                        assert(spec_call_args(ts, head, acc) == (LoopEnd::<ExprView>::Failed, self.state()));
                        return Expression::Error(ErrorExpression);
                    },
                };
                let ghost prev = arguments@;
                arguments.push(expr);
                assert(arguments@.drop_last() =~= prev);
                assert(exprs_view(arguments@) == acc.push(expr.view()));
                proof {
                    crate::ast::lemma_exprs_view(arguments@);
                }
                if arguments.len() > 255 {
                    self.error(Option::Some(String::from_str("Too many arguments in call")));
                    assert(target == (LoopEnd::Done(exprs_view(arguments@)), self.state()));
                    break;
                }
                // comma is optional between arguments
                self.consume_if_match(TokenType::Comma);
                if self.consume_if_match(TokenType::RParen) {
                    assert(target == (LoopEnd::Done(exprs_view(arguments@)), self.state()));
                    break;
                }
            }
        }
        Expression::Call(Box::new(callee), arguments)
    }

    fn get_field(&mut self, obj: Expression) -> (r: Expression)
        requires
            old(self).wf(),
        ensures
            final(self).wf(),
            old(self).moved_on(*final(self)),
            !final(self).had_error && obj.error_free() ==> r.error_free(),
            old(self).tokens@[old(self).current as int].ttype == TokenType::Ident ==> r == Expression::GetField(
                Box::new(obj),
                old(self).tokens@[old(self).current as int].text,
            ),
            old(self).tokens@[old(self).current as int].ttype != TokenType::Ident ==> r is Error && final(self).had_error,
            (r.view(), final(self).state()) == spec_get_field(old(self).ts(), old(self).state(), obj.view()),
    {
        let name = self.current_token();
        if name.ttype != TokenType::Ident {
            let msg = join3("Expected field name but found ", name.text.as_str(), " instead.");
            self.error(Option::Some(msg));
            return Expression::Error(ErrorExpression);
        }
        let name = name.text.clone();
        self.advance();
        Expression::GetField(Box::new(obj), name)
    }

    fn if_statement(&mut self) -> (r: Expression)
        requires
            old(self).wf(),
        ensures
            final(self).wf(),
            old(self).moved_on(*final(self)),
            !final(self).had_error ==> r.error_free(),
            !final(self).had_error ==> r is IfStatement,
            (r.view(), final(self).state()) == spec_if_statement(old(self).ts(), old(self).state()),
        decreases old(self).tokens@.len() - old(self).current, 4nat,
    {
        let condition = match self.expression() {
            Option::Some(expr) => expr,
            Option::None => {
                self.error(Option::Some(String::from_str("Expected expression as condition after 'if'.")));
                return Expression::Error(ErrorExpression);
            },
        };
        self.consume(TokenType::LBrace, String::from_str("Expected '{' after 'if' condition."));
        let then_branch = self.block();
        let else_branch = if self.consume_if_match(TokenType::Else) {
            self.consume(TokenType::LBrace, String::from_str("Expected '{' after 'else'."));
            Option::Some(Box::new(self.block()))
        } else {
            Option::None
        };
        Expression::IfStatement(Box::new(condition), Box::new(then_branch), else_branch)
    }

    /// Parses one argument in parentheses after a keyword.
    fn single_argument(&mut self, open_message: &str, missing_message: &str, close_message: &str) -> (r: Option<Expression>)
        requires
            old(self).wf(),
        ensures
            final(self).wf(),
            old(self).moved_on(*final(self)),
            r is None ==> final(self).had_error,
            r matches Option::Some(e) ==> (!final(self).had_error ==> e.error_free()),
            (opt_expr(r), final(self).state()) == spec_single_argument(old(self).ts(), old(self).state(), open_message@, missing_message@, close_message@),
        decreases old(self).tokens@.len() - old(self).current, 3nat,
    {
        self.consume(TokenType::LParen, String::from_str(open_message));
        let expr = match self.expression() {
            Option::Some(expr) => expr,
            Option::None => {
                self.error(Option::Some(String::from_str(missing_message)));
                return Option::None;
            },
        };
        self.consume(TokenType::RParen, String::from_str(close_message));
        Option::Some(expr)
    }

    fn some(&mut self) -> (r: Expression)
        requires
            old(self).wf(),
        ensures
            final(self).wf(),
            old(self).moved_on(*final(self)),
            !final(self).had_error ==> r.error_free() && r is SomeMaybe,
            (r.view(), final(self).state()) == spec_some(old(self).ts(), old(self).state()),
        decreases old(self).tokens@.len() - old(self).current, 4nat,
    {
        match self.single_argument(
            "Expected '(' after 'some'.",
            "Expected expression as argument in 'some' expression.",
            "Expected ')' after 'some' argument.",
        ) {
            Option::Some(expr) => Expression::SomeMaybe(Box::new(expr)),
            Option::None => Expression::Error(ErrorExpression),
        }
    }

    fn len(&mut self) -> (r: Expression)
        requires
            old(self).wf(),
        ensures
            final(self).wf(),
            old(self).moved_on(*final(self)),
            !final(self).had_error ==> r.error_free() && r is Len,
            (r.view(), final(self).state()) == spec_len(old(self).ts(), old(self).state()),
        decreases old(self).tokens@.len() - old(self).current, 4nat,
    {
        match self.single_argument(
            "Expected '(' after 'len'.",
            "Expected expression as argument in 'len' expression.",
            "Expected ')' after 'len' argument.",
        ) {
            Option::Some(expr) => Expression::Len(Box::new(expr)),
            Option::None => Expression::Error(ErrorExpression),
        }
    }

    /// Parses an expression that must follow, reporting `message` when there
    /// is none.
    fn required_expression(&mut self, message: &str) -> (r: Option<Expression>)
        requires
            old(self).wf(),
        ensures
            final(self).wf(),
            old(self).moved_on(*final(self)),
            r is None ==> final(self).had_error,
            r matches Option::Some(e) ==> (!final(self).had_error ==> e.error_free()),
            (opt_expr(r), final(self).state()) == spec_required_expression(old(self).ts(), old(self).state(), message@),
        decreases old(self).tokens@.len() - old(self).current, 3nat,
    {
        match self.expression() {
            Option::Some(expr) => Option::Some(expr),
            Option::None => {
                self.error(Option::Some(String::from_str(message)));
                Option::None
            },
        }
    }

    fn reduce(&mut self) -> (r: Expression)
        requires
            old(self).wf(),
        ensures
            final(self).wf(),
            old(self).moved_on(*final(self)),
            !final(self).had_error ==> r.error_free() && r is Reduce,
            (r.view(), final(self).state()) == spec_reduce(old(self).ts(), old(self).state()),
        decreases old(self).tokens@.len() - old(self).current, 4nat,
    {
        self.consume(TokenType::LParen, String::from_str("Expected '(' after 'reduce'."));
        let fn_expr = match self.required_expression("Expected function as first argument in 'reduce' expression.") {
            Option::Some(e) => e,
            Option::None => {
                return Expression::Error(ErrorExpression);
            },
        };
        self.consume_if_match(TokenType::Comma);
        let arr_expr = match self.required_expression("Expected array as second argument in 'reduce' expression.") {
            Option::Some(e) => e,
            Option::None => {
                return Expression::Error(ErrorExpression);
            },
        };
        self.consume_if_match(TokenType::Comma);
        let init_expr = match self.required_expression(
            "Expected initial value as third argument in 'reduce' expression.",
        ) {
            Option::Some(e) => e,
            Option::None => {
                return Expression::Error(ErrorExpression);
            },
        };
        self.consume(TokenType::RParen, String::from_str("Expected ')' after 'reduce' arguments."));
        Expression::Reduce(Box::new(fn_expr), Box::new(arr_expr), Box::new(init_expr))
    }

    fn filter(&mut self) -> (r: Expression)
        requires
            old(self).wf(),
        ensures
            final(self).wf(),
            old(self).moved_on(*final(self)),
            !final(self).had_error ==> r.error_free() && r is Filter,
            (r.view(), final(self).state()) == spec_filter(old(self).ts(), old(self).state()),
        decreases old(self).tokens@.len() - old(self).current, 4nat,
    {
        self.consume(TokenType::LParen, String::from_str("Expected '(' after 'filter'."));
        let fn_expr = match self.required_expression("Expected function as first argument in 'filter' expression.") {
            Option::Some(e) => e,
            Option::None => {
                return Expression::Error(ErrorExpression);
            },
        };
        self.consume_if_match(TokenType::Comma);
        let arr_expr = match self.required_expression("Expected array as second argument in 'filter' expression.") {
            Option::Some(e) => e,
            Option::None => {
                return Expression::Error(ErrorExpression);
            },
        };
        self.consume(TokenType::RParen, String::from_str("Expected ')' after 'filter' arguments."));
        Expression::Filter(Box::new(fn_expr), Box::new(arr_expr))
    }

    fn zipmap(&mut self) -> (r: Expression)
        requires
            old(self).wf(),
        ensures
            final(self).wf(),
            old(self).moved_on(*final(self)),
            !final(self).had_error ==> r.error_free() && r is ZipMap,
            (r.view(), final(self).state()) == spec_zipmap(old(self).ts(), old(self).state()),
        decreases old(self).tokens@.len() - old(self).current, 4nat,
    {
        let ghost ts = self.ts();
        self.consume(TokenType::LParen, String::from_str("Expected '(' after 'zipmap'."));
        let fn_expr = match self.required_expression("Expected function as first argument in 'zipmap' expression.") {
            Option::Some(e) => e,
            Option::None => {
                return Expression::Error(ErrorExpression);
            },
        };
        self.consume_if_match(TokenType::Comma);
        let ghost target = spec_zipmap_items(ts, self.state(), Seq::empty());
        let ghost f = fn_expr.view();
        assert(spec_zipmap(ts, old(self).state()) == match target {
            (LoopEnd::Failed, s4) => (ExprView::Error, s4),
            (LoopEnd::Done(es), s4) => (ExprView::ZipMap(Box::new(f), es), s4),
        });
        let mut exprs: Vec<Expression> = Vec::new();
        assert(exprs_view(exprs@) =~= Seq::<ExprView>::empty());
        loop
            invariant_except_break
                spec_zipmap_items(ts, self.state(), exprs_view(exprs@)) == target,
            invariant
                self.wf(),
                old(self).moved_on(*self),
                !self.had_error ==> fn_expr.error_free(),
                !self.had_error ==> list_error_free(exprs@),
                ts == self.ts(),
                ts == old(self).ts(),
                f == fn_expr.view(),
                spec_zipmap(ts, old(self).state()) == match target {
                    (LoopEnd::Failed, s4) => (ExprView::Error, s4),
                    (LoopEnd::Done(es), s4) => (ExprView::ZipMap(Box::new(f), es), s4),
                },
            ensures
                target == (LoopEnd::Done(exprs_view(exprs@)), self.state()),
            decreases self.tokens@.len() - self.current,
        {
            let ghost head = self.state();
            let ghost acc = exprs_view(exprs@);
            if self.consume_if_match(TokenType::RParen) {
                break;
            }
            let expr = match self.expression() {
                Option::Some(expr) => expr,
                Option::None => {
                    self.error(Option::Some(String::from_str("Expected expression as argument in 'zipmap' expression.")));
                    assert(spec_zipmap_items(ts, head, acc) == (LoopEnd::<ExprView>::Failed, self.state()));
                    return Expression::Error(ErrorExpression);
                },
            };
            let ghost prev = exprs@;
            exprs.push(expr);
            assert(exprs@.drop_last() =~= prev);
            assert(exprs_view(exprs@) == acc.push(expr.view()));
            self.consume_if_match(TokenType::Comma);
        }
        Expression::ZipMap(Box::new(fn_expr), exprs)
    }

    fn unwrap(&mut self) -> (r: Expression)
        requires
            old(self).wf(),
        ensures
            final(self).wf(),
            old(self).moved_on(*final(self)),
            !final(self).had_error ==> r.error_free() && r is Unwrap,
            (r.view(), final(self).state()) == spec_unwrap(old(self).ts(), old(self).state()),
        decreases old(self).tokens@.len() - old(self).current, 4nat,
    {
        self.consume(TokenType::LParen, String::from_str("Expected '(' after 'unwrap'."));
        let value = match self.required_expression("Expected expression as argument in 'unwrap' expression.") {
            Option::Some(e) => e,
            Option::None => {
                return Expression::Error(ErrorExpression);
            },
        };
        self.consume_if_match(TokenType::Comma);
        let default = match self.required_expression(
            "Expected default value as second argument in 'unwrap' expression.",
        ) {
            Option::Some(e) => e,
            Option::None => {
                return Expression::Error(ErrorExpression);
            },
        };
        self.consume(TokenType::RParen, String::from_str("Expected ')' after 'unwrap' argument."));
        Expression::Unwrap(Box::new(value), Box::new(default))
    }

    /// Parses the whole input as the body of the top-level block.
    pub fn parse(&mut self) -> (r: Expression)
        requires
            old(self).wf(),
        ensures
            final(self).wf(),
            old(self).moved_on(*final(self)),
            r is TopLevel,
            !final(self).failed() ==> r.error_free(),
            (r.view(), final(self).state()) == spec_program(old(self).ts(), old(self).state()),
    {
        let block = self.block();
        Expression::TopLevel(Box::new(block))
    }
}

/// Parses the tokens of a program. On failure, returns the errors reported,
/// in order; a program that parses has no `Error` node.
pub fn parse(tokens: Vec<Token>) -> (r: Result<Expression, Vec<ParseError>>)
    requires
        tokens@.len() >= 1,
        tokens@.last().ttype == TokenType::EoF,
    ensures
        match r {
            Ok(e) => spec_parse(token_views(tokens@)) == Ok::<ExprView, Seq<ErrorView>>(e.view()),
            Err(errs) => spec_parse(token_views(tokens@)) == Err::<ExprView, Seq<ErrorView>>(
                errs@.map_values(|e: ParseError| error_view(e)),
            ),
        },
        r matches Ok(e) ==> e.error_free() && e is TopLevel,
        r matches Err(errs) ==> errs@.len() > 0 && forall|i: int|
            0 <= i < errs@.len() ==> #[trigger] points_at(errs@[i], tokens@),
{
    let mut parser = Parser::new(tokens);
    let ast = parser.parse();
    if parser.had_error {
        return Err(parser.errors);
    }
    Ok(ast)
}

} // verus!
