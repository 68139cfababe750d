use vstd::prelude::*;

use crate::ast::{AnnotationView, ExprView, TypeView};
use crate::parser::{spec_rule, InfixFn, Precedence, PrefixFn};
use crate::token::{SpecToken, TokenType};

verus! {

/// An error the parser reported, as a value: the line of the token it was
/// at, that token's text (none at the end of the input), and the message.
pub struct ErrorView {
    pub line: nat,
    pub at: Option<Seq<char>>,
    pub message: Seq<char>,
}

/// The state of the parser between two steps: the position of the current
/// token and of the one before it, whether an error was reported, whether
/// further errors are held back, the name being assigned, and the errors
/// reported so far.
pub struct ParseState {
    pub current: int,
    pub previous: int,
    pub had_error: bool,
    pub panic_mode: bool,
    pub last_name: Option<Seq<char>>,
    pub errors: Seq<ErrorView>,
}

/// How one loop of the parser ended: with the items it collected, or with
/// an error.
pub enum LoopEnd<T> {
    Done(Seq<T>),
    Failed,
}

/// `next` is a step forward from `s`, still within the tokens.
pub open spec fn forward(ts: Seq<SpecToken>, s: ParseState, next: ParseState) -> bool {
    s.current <= next.current <= ts.len()
}

/// `next` is past `s`, still within the tokens.
pub open spec fn progressed(ts: Seq<SpecToken>, s: ParseState, next: ParseState) -> bool {
    s.current < next.current <= ts.len()
}

/// Reports an error at the previous token, unless errors are held back;
/// without a message, the token's text is the message.
pub open spec fn spec_error(ts: Seq<SpecToken>, s: ParseState, message: Option<Seq<char>>) -> ParseState {
    if s.panic_mode {
        s
    } else {
        let t = ts[s.previous];
        let e = ErrorView {
            line: t.line,
            at: if t.ttype == TokenType::EoF { Option::None } else { Option::Some(t.text) },
            message: match message {
                Option::Some(m) => m,
                Option::None => t.text,
            },
        };
        ParseState { had_error: true, panic_mode: true, errors: s.errors.push(e), ..s }
    }
}

/// Moves on by one token, and past every error token after it, reporting
/// each.
pub open spec fn spec_skip_errors(ts: Seq<SpecToken>, s: ParseState) -> ParseState
    decreases ts.len() - s.current,
{
    let s1 = ParseState { current: s.current + 1, ..s };
    if s1.current >= ts.len() {
        s1
    } else if ts[s1.current].ttype != TokenType::Error {
        s1
    } else {
        spec_skip_errors(ts, spec_error(ts, s1, Option::None))
    }
}

/// Moves to the next token that is not an error token; the current token
/// becomes the previous one.
pub open spec fn spec_advance(ts: Seq<SpecToken>, s: ParseState) -> ParseState {
    spec_skip_errors(ts, ParseState { previous: s.current, ..s })
}

/// Moves on when the current token is of the given kind, and says whether it
/// was.
pub open spec fn spec_consume_if_match(ts: Seq<SpecToken>, s: ParseState, ttype: TokenType) -> (bool, ParseState) {
    if ts[s.current].ttype == ttype {
        (true, spec_advance(ts, s))
    } else {
        (false, s)
    }
}

/// Moves on when the current token is of the given kind, and reports the
/// message otherwise.
pub open spec fn spec_consume(ts: Seq<SpecToken>, s: ParseState, ttype: TokenType, message: Seq<char>) -> ParseState {
    if ts[s.current].ttype == ttype {
        spec_advance(ts, s)
    } else {
        spec_error(ts, s, Option::Some(message))
    }
}

/// The end of the input is reached.
pub open spec fn spec_at_eof(ts: Seq<SpecToken>, s: ParseState) -> bool {
    ts[s.current].ttype == TokenType::EoF
}

/// A type annotation and the state after it, or the message of what is
/// wrong with it (the state is then unchanged when the annotation does not
/// start with a name).
pub open spec fn spec_type_annotation(ts: Seq<SpecToken>, s: ParseState) -> (Result<AnnotationView, Seq<char>>, ParseState)
    decreases ts.len() - s.current, 0nat,
{
    let t = ts[s.current];
    if t.ttype != TokenType::Ident {
        (Err("In type annotation, expected identifier, but found "@ + t.text + " instead."@), s)
    } else {
        let s1 = spec_advance(ts, s);
        let (open, s2) = spec_consume_if_match(ts, s1, TokenType::LParen);
        if !progressed(ts, s, s2) {
            (Err(Seq::empty()), s2)
        } else if open {
            match spec_annotation_children(ts, s2, Seq::empty()) {
                (Ok(children), s3) => (Ok(AnnotationView { typename: t.text, children }), s3),
                (Err(e), s3) => (Err(e), s3),
            }
        } else {
            (Ok(AnnotationView { typename: t.text, children: Seq::empty() }), s2)
        }
    }
}

/// The annotations in parentheses up to the closing one, after `acc`.
pub open spec fn spec_annotation_children(ts: Seq<SpecToken>, s: ParseState, acc: Seq<AnnotationView>) -> (
    Result<Seq<AnnotationView>, Seq<char>>,
    ParseState,
)
    decreases ts.len() - s.current, 1nat,
{
    let (close, s1) = spec_consume_if_match(ts, s, TokenType::RParen);
    if close {
        (Ok(acc), s1)
    } else if !forward(ts, s, s1) {
        (Err(Seq::empty()), s1)
    } else {
        match spec_type_annotation(ts, s1) {
            (Ok(c), s2) => {
                let (_, s3) = spec_consume_if_match(ts, s2, TokenType::Comma);
                if !progressed(ts, s, s3) {
                    (Err(Seq::empty()), s3)
                } else {
                    spec_annotation_children(ts, s3, acc.push(c))
                }
            },
            (Err(e), s2) => (Err(e), s2),
        }
    }
}

/// A literal of the given type: the text of the token just consumed.
pub open spec fn spec_literal(ts: Seq<SpecToken>, s: ParseState, t: TypeView) -> (ExprView, ParseState) {
    (ExprView::Literal(t, ts[s.previous].text), s)
}

/// An expression whose operators bind at least as strongly as `precedence`,
/// or none at the end of the input or after an error.
pub open spec fn spec_parse_with_precedence(ts: Seq<SpecToken>, s: ParseState, precedence: Precedence) -> (
    Option<ExprView>,
    ParseState,
)
    decreases ts.len() - s.current, 2nat,
{
    if spec_at_eof(ts, s) {
        (Option::None, s)
    } else {
        let s1 = spec_advance(ts, s);
        match spec_rule(ts[s1.previous].ttype).prefix {
            Option::None => (
                Option::None,
                spec_error(
                    ts,
                    s1,
                    Option::Some("Expected a token that can begin an expression, but got "@ + ts[s1.previous].text),
                ),
            ),
            Option::Some(rule) => if !progressed(ts, s, s1) {
                (Option::None, s1)
            } else {
                let (prefix, s2) = spec_call_prefix(ts, s1, rule);
                if !forward(ts, s1, s2) {
                    (Option::None, s2)
                } else {
                    spec_infix_loop(ts, s2, precedence, prefix)
                }
            },
        }
    }
}

/// Continues an expression with infix operators that bind at least as
/// strongly as `precedence`.
pub open spec fn spec_infix_loop(ts: Seq<SpecToken>, s: ParseState, precedence: Precedence, left: ExprView) -> (
    Option<ExprView>,
    ParseState,
)
    decreases ts.len() - s.current, 2nat,
{
    if !(precedence.spec_level() <= spec_rule(ts[s.current].ttype).precedence.spec_level() && !spec_at_eof(ts, s)) {
        (Option::Some(left), s)
    } else {
        let s1 = spec_advance(ts, s);
        match spec_rule(ts[s1.previous].ttype).infix {
            Option::None => (
                Option::None,
                spec_error(
                    ts,
                    s1,
                    Option::Some("Expected token that can act as an infix operator, but got "@ + ts[s1.previous].text),
                ),
            ),
            Option::Some(rule) => if !progressed(ts, s, s1) {
                (Option::None, s1)
            } else {
                let (e, s2) = spec_call_infix(ts, s1, rule, left);
                if !forward(ts, s1, s2) {
                    (Option::None, s2)
                } else {
                    spec_infix_loop(ts, s2, precedence, e)
                }
            },
        }
    }
}

/// Runs the prefix parser of a rule.
pub open spec fn spec_call_prefix(ts: Seq<SpecToken>, s: ParseState, rule: PrefixFn) -> (ExprView, ParseState)
    decreases ts.len() - s.current, 10nat,
{
    match rule {
        PrefixFn::Grouping => spec_grouping(ts, s),
        PrefixFn::Block => spec_block(ts, s),
        PrefixFn::IfStatement => spec_if_statement(ts, s),
        PrefixFn::FunctionDef => spec_function_def(ts, s),
        PrefixFn::Array => spec_array(ts, s),
        PrefixFn::TypeDef => spec_type_def(ts, s),
        PrefixFn::Int => spec_literal(ts, s, TypeView::Int),
        PrefixFn::Float => spec_literal(ts, s, TypeView::Float),
        PrefixFn::Str => spec_literal(ts, s, TypeView::Str),
        PrefixFn::Boolean => spec_literal(ts, s, TypeView::Bool),
        PrefixFn::Unary => spec_unary(ts, s),
        PrefixFn::Variable => spec_variable(ts, s),
        PrefixFn::SomeExpr => spec_some(ts, s),
        PrefixFn::Reduce => spec_reduce(ts, s),
        PrefixFn::Filter => spec_filter(ts, s),
        PrefixFn::Len => spec_len(ts, s),
        PrefixFn::ZipMap => spec_zipmap(ts, s),
        PrefixFn::Unwrap => spec_unwrap(ts, s),
    }
}

/// Runs the infix parser of a rule on the expression to its left.
pub open spec fn spec_call_infix(ts: Seq<SpecToken>, s: ParseState, rule: InfixFn, left: ExprView) -> (ExprView, ParseState)
    decreases ts.len() - s.current, 10nat,
{
    match rule {
        InfixFn::Call => spec_call(ts, s, left),
        InfixFn::GetField => spec_get_field(ts, s, left),
        InfixFn::Binary => spec_binary(ts, s, left),
    }
}

/// An expression of any precedence.
pub open spec fn spec_expression(ts: Seq<SpecToken>, s: ParseState) -> (Option<ExprView>, ParseState)
    decreases ts.len() - s.current, 4nat,
{
    spec_parse_with_precedence(ts, s, Precedence::Assignment)
}

/// The value assigned to a name; the name is the name being assigned while
/// the value is parsed.
pub open spec fn spec_assignment(ts: Seq<SpecToken>, s: ParseState, name: Seq<char>) -> (ExprView, ParseState)
    decreases ts.len() - s.current, 4nat,
{
    let s1 = ParseState { last_name: Option::Some(name), ..s };
    match spec_parse_with_precedence(ts, s1, Precedence::Assignment) {
        (Option::Some(v), s2) => (
            ExprView::Assignment(name, Box::new(v)),
            ParseState { last_name: Option::None, ..s2 },
        ),
        (Option::None, s2) => (
            ExprView::Error,
            spec_error(ts, s2, Option::Some("Expected an expression after ':=', but couldn't find anything."@)),
        ),
    }
}

/// A variable, or an assignment to it.
pub open spec fn spec_variable(ts: Seq<SpecToken>, s: ParseState) -> (ExprView, ParseState)
    decreases ts.len() - s.current, 9nat,
{
    let name = ts[s.previous].text;
    let (assign, s1) = spec_consume_if_match(ts, s, TokenType::Assign);
    if assign {
        if !forward(ts, s, s1) {
            (ExprView::Error, s1)
        } else {
            spec_assignment(ts, s1, name)
        }
    } else {
        (ExprView::Variable(name), s1)
    }
}

/// The message when nothing follows an operator.
pub open spec fn nothing_follows(text: Seq<char>) -> Seq<char> {
    "Expected something that could follow '"@ + text + "', but couldn't find anything."@
}

/// A unary operator applied to the expression after it.
pub open spec fn spec_unary(ts: Seq<SpecToken>, s: ParseState) -> (ExprView, ParseState)
    decreases ts.len() - s.current, 4nat,
{
    let t = ts[s.previous];
    match spec_parse_with_precedence(ts, s, Precedence::Unary) {
        (Option::Some(r), s1) => (ExprView::Unary(t.ttype, Box::new(r)), s1),
        (Option::None, s1) => (ExprView::Error, spec_error(ts, s1, Option::Some(nothing_follows(t.text)))),
    }
}

/// A binary operator applied to `left` and the expression after it.
pub open spec fn spec_binary(ts: Seq<SpecToken>, s: ParseState, left: ExprView) -> (ExprView, ParseState)
    decreases ts.len() - s.current, 4nat,
{
    let t = ts[s.previous];
    let rule = spec_rule(t.ttype);
    if rule.precedence == Precedence::Call {
        (ExprView::Error, spec_error(ts, s, Option::Some("Expected a binary operator."@)))
    } else {
        match spec_parse_with_precedence(ts, s, rule.precedence.spec_next()) {
            (Option::Some(r), s1) => (ExprView::Binary(Box::new(left), t.ttype, Box::new(r)), s1),
            (Option::None, s1) => (ExprView::Error, spec_error(ts, s1, Option::Some(nothing_follows(t.text)))),
        }
    }
}

/// An expression in parentheses.
pub open spec fn spec_grouping(ts: Seq<SpecToken>, s: ParseState) -> (ExprView, ParseState)
    decreases ts.len() - s.current, 4nat,
{
    let (close, s1) = spec_consume_if_match(ts, s, TokenType::RParen);
    if close {
        (
            ExprView::Error,
            spec_error(
                ts,
                s1,
                Option::Some(
                    "Found nothing in grouping parentheses. Parentheses must contain at least one expression or be associated with a call."@,
                ),
            ),
        )
    } else {
        let (e, s2) = spec_parse_with_precedence(ts, s1, Precedence::Assignment);
        let s3 = spec_consume(
            ts,
            s2,
            TokenType::RParen,
            "Expected ')' after expression within grouping but found "@ + ts[s2.current].text + " instead."@,
        );
        match e {
            Option::Some(e) => (e, s3),
            Option::None => (ExprView::Error, spec_error(ts, s3, Option::Some("This should be unreachable."@))),
        }
    }
}

/// The expressions of a block up to its closing brace or the end of the
/// input, after `acc`.
pub open spec fn spec_block_items(ts: Seq<SpecToken>, s: ParseState, acc: Seq<ExprView>) -> (
    LoopEnd<ExprView>,
    ParseState,
)
    decreases ts.len() - s.current, 7nat,
{
    let (close, s1) = spec_consume_if_match(ts, s, TokenType::RBrace);
    if close || spec_at_eof(ts, s1) {
        (LoopEnd::Done(acc), s1)
    } else if !forward(ts, s, s1) {
        (LoopEnd::Failed, s1)
    } else {
        match spec_expression(ts, s1) {
            (Option::Some(e), s2) => if !progressed(ts, s, s2) {
                (LoopEnd::Failed, s2)
            } else {
                spec_block_items(ts, s2, acc.push(e))
            },
            (Option::None, s2) => (
                LoopEnd::Failed,
                spec_error(
                    ts,
                    s2,
                    Option::Some("Expected expression in block but found "@ + ts[s2.current].text + " instead."@),
                ),
            ),
        }
    }
}

/// A block: its expressions, or, when it has none, the annotated type of the
/// missing value it stands for. Errors can be reported again inside it.
pub open spec fn spec_block(ts: Seq<SpecToken>, s: ParseState) -> (ExprView, ParseState)
    decreases ts.len() - s.current, 8nat,
{
    let s0 = ParseState { panic_mode: false, ..s };
    match spec_block_items(ts, s0, Seq::empty()) {
        (LoopEnd::Failed, s1) => (ExprView::Error, s1),
        (LoopEnd::Done(es), s1) => if es.len() == 0 {
            let s2 = spec_consume(ts, s1, TokenType::Colon, "Type annotation is required after empty block."@);
            match spec_type_annotation(ts, s2) {
                (Ok(t), s3) => (ExprView::NullMaybe(t), s3),
                (Err(e), s3) => (ExprView::Error, spec_error(ts, s3, Option::Some(e))),
            }
        } else {
            (ExprView::Block(es), s1)
        },
    }
}

/// A name with its type annotation, as in a parameter list or a type
/// definition; `what` names what it is in the messages.
pub open spec fn spec_named_item(ts: Seq<SpecToken>, s: ParseState, expected: Seq<char>, missing: Seq<char>) -> (
    Option<(Seq<char>, AnnotationView)>,
    ParseState,
) {
    let t = ts[s.current];
    if t.ttype != TokenType::Ident {
        (Option::None, spec_error(ts, s, Option::Some(expected + t.text + " instead."@)))
    } else {
        let s1 = spec_advance(ts, s);
        let s2 = spec_consume(ts, s1, TokenType::Colon, missing + t.text + "."@);
        match spec_type_annotation(ts, s2) {
            (Ok(a), s3) => (Option::Some((t.text, a)), s3),
            (Err(e), s3) => (Option::None, spec_error(ts, s3, Option::Some(e))),
        }
    }
}

/// Named annotations up to the closing token or the end of the input, after
/// `acc`; commas between them are optional.
pub open spec fn spec_named_items(
    ts: Seq<SpecToken>,
    s: ParseState,
    close: TokenType,
    expected: Seq<char>,
    missing: Seq<char>,
    too_many: Seq<char>,
    acc: Seq<(Seq<char>, AnnotationView)>,
) -> (LoopEnd<(Seq<char>, AnnotationView)>, ParseState)
    decreases ts.len() - s.current,
{
    let (closed, s1) = spec_consume_if_match(ts, s, close);
    if closed || spec_at_eof(ts, s1) {
        (LoopEnd::Done(acc), s1)
    } else {
        match spec_named_item(ts, s1, expected, missing) {
            (Option::None, s2) => (LoopEnd::Failed, s2),
            (Option::Some(p), s2) => if acc.len() + 1 > 255 {
                (LoopEnd::Failed, spec_error(ts, s2, Option::Some(too_many)))
            } else {
                let (_, s3) = spec_consume_if_match(ts, s2, TokenType::Comma);
                if !progressed(ts, s, s3) {
                    (LoopEnd::Failed, s3)
                } else {
                    spec_named_items(ts, s3, close, expected, missing, too_many, acc.push(p))
                }
            },
        }
    }
}

/// A function definition: its parameters, optional return type annotation
/// and body, named after the name being assigned.
pub open spec fn spec_function_def(ts: Seq<SpecToken>, s: ParseState) -> (ExprView, ParseState)
    decreases ts.len() - s.current, 9nat,
{
    match spec_named_items(
        ts,
        s,
        TokenType::Pipe,
        "In function definition, expected parameter name but found "@,
        "Missing type annotation for parameter "@,
        "Too many parameters in function definition."@,
        Seq::empty(),
    ) {
        (LoopEnd::Failed, s1) => (ExprView::Error, s1),
        (LoopEnd::Done(params), s1) => {
            let (has_ret, s2) = spec_consume_if_match(ts, s1, TokenType::Colon);
            let (ret, s3) = if has_ret {
                match spec_type_annotation(ts, s2) {
                    (Ok(t), s3) => (Ok(Option::Some(t)), s3),
                    (Err(e), s3) => (Err(()), spec_error(ts, s3, Option::Some(e))),
                }
            } else {
                (Ok(Option::None), s2)
            };
            match ret {
                Err(_) => (ExprView::Error, s3),
                Ok(ret) => {
                    let s4 = spec_consume(ts, s3, TokenType::LBrace, "Expected '{' after function parameters."@);
                    if !forward(ts, s, s4) {
                        (ExprView::Error, s4)
                    } else {
                        let (body, s5) = spec_block(ts, s4);
                        let name = match s5.last_name {
                            Option::Some(n) => n,
                            Option::None => "<anon>"@,
                        };
                        (ExprView::Function(name, params, ret, Box::new(body)), s5)
                    }
                },
            }
        },
    }
}

/// The entries of an array up to the closing bracket or the end of the
/// input, after `acc`; commas between them are optional.
pub open spec fn spec_array_items(ts: Seq<SpecToken>, s: ParseState, acc: Seq<ExprView>) -> (
    LoopEnd<ExprView>,
    ParseState,
)
    decreases ts.len() - s.current, 7nat,
{
    let (close, s1) = spec_consume_if_match(ts, s, TokenType::RSquare);
    if close || spec_at_eof(ts, s1) {
        (LoopEnd::Done(acc), s1)
    } else if !forward(ts, s, s1) {
        (LoopEnd::Failed, s1)
    } else {
        match spec_expression(ts, s1) {
            (Option::Some(e), s2) => {
                let (_, s3) = spec_consume_if_match(ts, s2, TokenType::Comma);
                if !progressed(ts, s, s3) {
                    (LoopEnd::Failed, s3)
                } else {
                    spec_array_items(ts, s3, acc.push(e))
                }
            },
            (Option::None, s2) => (
                LoopEnd::Failed,
                spec_error(
                    ts,
                    s2,
                    Option::Some("Expected expression in array but found "@ + ts[s2.current].text + " instead."@),
                ),
            ),
        }
    }
}

/// An array: its entries, or, when it has none, the annotated type of its
/// entries.
pub open spec fn spec_array(ts: Seq<SpecToken>, s: ParseState) -> (ExprView, ParseState)
    decreases ts.len() - s.current, 8nat,
{
    match spec_array_items(ts, s, Seq::empty()) {
        (LoopEnd::Failed, s1) => (ExprView::Error, s1),
        (LoopEnd::Done(es), s1) => if es.len() == 0 {
            let s2 = spec_consume(ts, s1, TokenType::Colon, "Empty arrays must be annoted with a type"@);
            match spec_type_annotation(ts, s2) {
                (Ok(t), s3) => (ExprView::EmptyArray(t), s3),
                (Err(e), s3) => (ExprView::Error, spec_error(ts, s3, Option::Some(e))),
            }
        } else {
            (ExprView::Array(es), s1)
        },
    }
}

/// A type definition: its fields in braces, named after the name being
/// assigned.
pub open spec fn spec_type_def(ts: Seq<SpecToken>, s: ParseState) -> (ExprView, ParseState) {
    let s1 = spec_consume(ts, s, TokenType::LBrace, "Expected '{' after 'type'."@);
    match spec_named_items(
        ts,
        s1,
        TokenType::RBrace,
        "In type definition, expected field name but found "@,
        "Missing type annotation for field "@,
        "Too many fields in type definition."@,
        Seq::empty(),
    ) {
        (LoopEnd::Failed, s2) => (ExprView::Error, s2),
        (LoopEnd::Done(fields), s2) => {
            let name = match s2.last_name {
                Option::Some(n) => n,
                Option::None => "<anontype>"@,
            };
            (ExprView::TypeDef(name, fields), s2)
        },
    }
}

/// The arguments of a call after `acc`, up to the closing parenthesis.
pub open spec fn spec_call_args(ts: Seq<SpecToken>, s: ParseState, acc: Seq<ExprView>) -> (
    LoopEnd<ExprView>,
    ParseState,
)
    decreases ts.len() - s.current, 7nat,
{
    match spec_expression(ts, s) {
        (Option::None, s1) => (
            LoopEnd::Failed,
            spec_error(ts, s1, Option::Some("Expected expression as argument in call."@)),
        ),
        (Option::Some(e), s1) => {
            let args = acc.push(e);
            if args.len() > 255 {
                (LoopEnd::Done(args), spec_error(ts, s1, Option::Some("Too many arguments in call"@)))
            } else {
                let (_, s2) = spec_consume_if_match(ts, s1, TokenType::Comma);
                let (close, s3) = spec_consume_if_match(ts, s2, TokenType::RParen);
                if close {
                    (LoopEnd::Done(args), s3)
                } else if !progressed(ts, s, s3) {
                    (LoopEnd::Failed, s3)
                } else {
                    spec_call_args(ts, s3, args)
                }
            }
        },
    }
}

/// A call of `callee` with the arguments in parentheses; commas between
/// them are optional.
pub open spec fn spec_call(ts: Seq<SpecToken>, s: ParseState, callee: ExprView) -> (ExprView, ParseState)
    decreases ts.len() - s.current, 8nat,
{
    let (close, s1) = spec_consume_if_match(ts, s, TokenType::RParen);
    if close {
        (ExprView::Call(Box::new(callee), Seq::empty()), s1)
    } else {
        match spec_call_args(ts, s1, Seq::empty()) {
            (LoopEnd::Failed, s2) => (ExprView::Error, s2),
            (LoopEnd::Done(args), s2) => (ExprView::Call(Box::new(callee), args), s2),
        }
    }
}

/// A field of `obj`, named by the current token.
pub open spec fn spec_get_field(ts: Seq<SpecToken>, s: ParseState, obj: ExprView) -> (ExprView, ParseState) {
    let t = ts[s.current];
    if t.ttype != TokenType::Ident {
        (
            ExprView::Error,
            spec_error(ts, s, Option::Some("Expected field name but found "@ + t.text + " instead."@)),
        )
    } else {
        (ExprView::GetField(Box::new(obj), t.text), spec_advance(ts, s))
    }
}

/// A conditional: its condition, the block that follows, and the block
/// after `else`, when there is one.
pub open spec fn spec_if_statement(ts: Seq<SpecToken>, s: ParseState) -> (ExprView, ParseState)
    decreases ts.len() - s.current, 9nat,
{
    match spec_expression(ts, s) {
        (Option::None, s1) => (
            ExprView::Error,
            spec_error(ts, s1, Option::Some("Expected expression as condition after 'if'."@)),
        ),
        (Option::Some(c), s1) => {
            let s2 = spec_consume(ts, s1, TokenType::LBrace, "Expected '{' after 'if' condition."@);
            if !forward(ts, s, s2) {
                (ExprView::Error, s2)
            } else {
                let (then_branch, s3) = spec_block(ts, s2);
                let (has_else, s4) = spec_consume_if_match(ts, s3, TokenType::Else);
                if !has_else {
                    (ExprView::IfStatement(Box::new(c), Box::new(then_branch), Option::None), s4)
                } else {
                    let s5 = spec_consume(ts, s4, TokenType::LBrace, "Expected '{' after 'else'."@);
                    if !forward(ts, s, s5) {
                        (ExprView::Error, s5)
                    } else {
                        let (else_branch, s6) = spec_block(ts, s5);
                        (
                            ExprView::IfStatement(
                                Box::new(c),
                                Box::new(then_branch),
                                Option::Some(Box::new(else_branch)),
                            ),
                            s6,
                        )
                    }
                }
            }
        },
    }
}

/// One argument in parentheses after a keyword.
pub open spec fn spec_single_argument(
    ts: Seq<SpecToken>,
    s: ParseState,
    open_message: Seq<char>,
    missing_message: Seq<char>,
    close_message: Seq<char>,
) -> (Option<ExprView>, ParseState)
    decreases ts.len() - s.current, 6nat,
{
    let s1 = spec_consume(ts, s, TokenType::LParen, open_message);
    if !forward(ts, s, s1) {
        (Option::None, s1)
    } else {
        match spec_expression(ts, s1) {
            (Option::None, s2) => (Option::None, spec_error(ts, s2, Option::Some(missing_message))),
            (Option::Some(e), s2) => (Option::Some(e), spec_consume(ts, s2, TokenType::RParen, close_message)),
        }
    }
}

/// `some` and its argument.
pub open spec fn spec_some(ts: Seq<SpecToken>, s: ParseState) -> (ExprView, ParseState)
    decreases ts.len() - s.current, 9nat,
{
    match spec_single_argument(
        ts,
        s,
        "Expected '(' after 'some'."@,
        "Expected expression as argument in 'some' expression."@,
        "Expected ')' after 'some' argument."@,
    ) {
        (Option::Some(e), s1) => (ExprView::SomeMaybe(Box::new(e)), s1),
        (Option::None, s1) => (ExprView::Error, s1),
    }
}

/// `len` and its argument.
pub open spec fn spec_len(ts: Seq<SpecToken>, s: ParseState) -> (ExprView, ParseState)
    decreases ts.len() - s.current, 9nat,
{
    match spec_single_argument(
        ts,
        s,
        "Expected '(' after 'len'."@,
        "Expected expression as argument in 'len' expression."@,
        "Expected ')' after 'len' argument."@,
    ) {
        (Option::Some(e), s1) => (ExprView::Len(Box::new(e)), s1),
        (Option::None, s1) => (ExprView::Error, s1),
    }
}

/// An expression that must follow; the message is reported when there is
/// none.
pub open spec fn spec_required_expression(ts: Seq<SpecToken>, s: ParseState, message: Seq<char>) -> (
    Option<ExprView>,
    ParseState,
)
    decreases ts.len() - s.current, 6nat,
{
    match spec_expression(ts, s) {
        (Option::Some(e), s1) => (Option::Some(e), s1),
        (Option::None, s1) => (Option::None, spec_error(ts, s1, Option::Some(message))),
    }
}

/// `reduce` and its function, iterable and initial value.
pub open spec fn spec_reduce(ts: Seq<SpecToken>, s: ParseState) -> (ExprView, ParseState)
    decreases ts.len() - s.current, 9nat,
{
    let s1 = spec_consume(ts, s, TokenType::LParen, "Expected '(' after 'reduce'."@);
    if !forward(ts, s, s1) {
        (ExprView::Error, s1)
    } else {
        match spec_required_expression(ts, s1, "Expected function as first argument in 'reduce' expression."@) {
            (Option::None, s2) => (ExprView::Error, s2),
            (Option::Some(f), s2) => {
                let (_, s3) = spec_consume_if_match(ts, s2, TokenType::Comma);
                if !forward(ts, s, s3) {
                    (ExprView::Error, s3)
                } else {
                    match spec_required_expression(
                        ts,
                        s3,
                        "Expected array as second argument in 'reduce' expression."@,
                    ) {
                        (Option::None, s4) => (ExprView::Error, s4),
                        (Option::Some(a), s4) => {
                            let (_, s5) = spec_consume_if_match(ts, s4, TokenType::Comma);
                            if !forward(ts, s, s5) {
                                (ExprView::Error, s5)
                            } else {
                                match spec_required_expression(
                                    ts,
                                    s5,
                                    "Expected initial value as third argument in 'reduce' expression."@,
                                ) {
                                    (Option::None, s6) => (ExprView::Error, s6),
                                    (Option::Some(i), s6) => (
                                        ExprView::Reduce(Box::new(f), Box::new(a), Box::new(i)),
                                        spec_consume(
                                            ts,
                                            s6,
                                            TokenType::RParen,
                                            "Expected ')' after 'reduce' arguments."@,
                                        ),
                                    ),
                                }
                            }
                        },
                    }
                }
            },
        }
    }
}

/// `filter` and its function and iterable.
pub open spec fn spec_filter(ts: Seq<SpecToken>, s: ParseState) -> (ExprView, ParseState)
    decreases ts.len() - s.current, 9nat,
{
    let s1 = spec_consume(ts, s, TokenType::LParen, "Expected '(' after 'filter'."@);
    if !forward(ts, s, s1) {
        (ExprView::Error, s1)
    } else {
        match spec_required_expression(ts, s1, "Expected function as first argument in 'filter' expression."@) {
            (Option::None, s2) => (ExprView::Error, s2),
            (Option::Some(f), s2) => {
                let (_, s3) = spec_consume_if_match(ts, s2, TokenType::Comma);
                if !forward(ts, s, s3) {
                    (ExprView::Error, s3)
                } else {
                    match spec_required_expression(
                        ts,
                        s3,
                        "Expected array as second argument in 'filter' expression."@,
                    ) {
                        (Option::None, s4) => (ExprView::Error, s4),
                        (Option::Some(a), s4) => (
                            ExprView::Filter(Box::new(f), Box::new(a)),
                            spec_consume(ts, s4, TokenType::RParen, "Expected ')' after 'filter' arguments."@),
                        ),
                    }
                }
            },
        }
    }
}

/// The iterables of a `zipmap` after `acc`, up to the closing parenthesis;
/// commas between them are optional.
pub open spec fn spec_zipmap_items(ts: Seq<SpecToken>, s: ParseState, acc: Seq<ExprView>) -> (
    LoopEnd<ExprView>,
    ParseState,
)
    decreases ts.len() - s.current, 8nat,
{
    let (close, s1) = spec_consume_if_match(ts, s, TokenType::RParen);
    if close {
        (LoopEnd::Done(acc), s1)
    } else if !forward(ts, s, s1) {
        (LoopEnd::Failed, s1)
    } else {
        match spec_expression(ts, s1) {
            (Option::None, s2) => (
                LoopEnd::Failed,
                spec_error(ts, s2, Option::Some("Expected expression as argument in 'zipmap' expression."@)),
            ),
            (Option::Some(e), s2) => {
                let (_, s3) = spec_consume_if_match(ts, s2, TokenType::Comma);
                if !progressed(ts, s, s3) {
                    (LoopEnd::Failed, s3)
                } else {
                    spec_zipmap_items(ts, s3, acc.push(e))
                }
            },
        }
    }
}

/// `zipmap` and its function and iterables.
pub open spec fn spec_zipmap(ts: Seq<SpecToken>, s: ParseState) -> (ExprView, ParseState)
    decreases ts.len() - s.current, 9nat,
{
    let s1 = spec_consume(ts, s, TokenType::LParen, "Expected '(' after 'zipmap'."@);
    if !forward(ts, s, s1) {
        (ExprView::Error, s1)
    } else {
        match spec_required_expression(ts, s1, "Expected function as first argument in 'zipmap' expression."@) {
            (Option::None, s2) => (ExprView::Error, s2),
            (Option::Some(f), s2) => {
                let (_, s3) = spec_consume_if_match(ts, s2, TokenType::Comma);
                if !forward(ts, s, s3) {
                    (ExprView::Error, s3)
                } else {
                    match spec_zipmap_items(ts, s3, Seq::empty()) {
                        (LoopEnd::Failed, s4) => (ExprView::Error, s4),
                        (LoopEnd::Done(es), s4) => (ExprView::ZipMap(Box::new(f), es), s4),
                    }
                }
            },
        }
    }
}

/// `unwrap` and its value and default.
pub open spec fn spec_unwrap(ts: Seq<SpecToken>, s: ParseState) -> (ExprView, ParseState)
    decreases ts.len() - s.current, 9nat,
{
    let s1 = spec_consume(ts, s, TokenType::LParen, "Expected '(' after 'unwrap'."@);
    if !forward(ts, s, s1) {
        (ExprView::Error, s1)
    } else {
        match spec_required_expression(ts, s1, "Expected expression as argument in 'unwrap' expression."@) {
            (Option::None, s2) => (ExprView::Error, s2),
            (Option::Some(v), s2) => {
                let (_, s3) = spec_consume_if_match(ts, s2, TokenType::Comma);
                if !forward(ts, s, s3) {
                    (ExprView::Error, s3)
                } else {
                    match spec_required_expression(
                        ts,
                        s3,
                        "Expected default value as second argument in 'unwrap' expression."@,
                    ) {
                        (Option::None, s4) => (ExprView::Error, s4),
                        (Option::Some(d), s4) => (
                            ExprView::Unwrap(Box::new(v), Box::new(d)),
                            spec_consume(ts, s4, TokenType::RParen, "Expected ')' after 'unwrap' argument."@),
                        ),
                    }
                }
            },
        }
    }
}

/// The state the parser starts in: at the first token, with nothing
/// reported.
pub open spec fn start_state() -> ParseState {
    ParseState {
        current: 0,
        previous: 0,
        had_error: false,
        panic_mode: false,
        last_name: Option::None,
        errors: Seq::empty(),
    }
}

/// What parsing a program gives: its syntax tree, or, when any error was
/// reported, the errors in the order they were found.
pub open spec fn spec_parse(ts: Seq<SpecToken>) -> Result<ExprView, Seq<ErrorView>> {
    let (tree, end) = spec_program(ts, start_state());
    if end.had_error {
        Err(end.errors)
    } else {
        Ok(tree)
    }
}

/// The whole input as the body of the top-level block.
pub open spec fn spec_program(ts: Seq<SpecToken>, s: ParseState) -> (ExprView, ParseState) {
    let (b, s1) = spec_block(ts, s);
    (ExprView::TopLevel(Box::new(b)), s1)
}

} // verus!
