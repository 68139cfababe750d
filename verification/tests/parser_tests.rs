use henrylang::parser::{get_rule, parse, InfixFn, Parser, Precedence, PrefixFn};
use henrylang::scanner::scan;
use henrylang::token::TokenType;

fn tree(source: &str) -> String {
    match parse(scan(source.to_string())) {
        Ok(ast) => format!("{:?}", ast),
        Err(errors) => panic!("unexpected parse errors: {:?}", errors),
    }
}

#[test]
fn product_binds_tighter_than_sum() {
    assert_eq!(
        tree("1 + 2 * 3"),
        "TopLevel(Block([Binary(Literal(Int, \"1\"), Plus, Binary(Literal(Int, \"2\"), Star, Literal(Int, \"3\")))]))"
    );
}

#[test]
fn sum_is_left_associative() {
    assert_eq!(
        tree("1 - 2 - 3"),
        "TopLevel(Block([Binary(Binary(Literal(Int, \"1\"), Minus, Literal(Int, \"2\")), Minus, Literal(Int, \"3\"))]))"
    );
}

#[test]
fn assignment_of_a_literal() {
    assert_eq!(tree("x := 5"), "TopLevel(Block([Assignment(\"x\", Literal(Int, \"5\"))]))");
}

#[test]
fn literals_of_each_kind() {
    assert_eq!(
        tree("1 2.5 \"s\" true"),
        "TopLevel(Block([Literal(Int, \"1\"), Literal(Float, \"2.5\"), Literal(Str, \"\\\"s\\\"\"), Literal(Bool, \"true\")]))"
    );
}

#[test]
fn unary_minus_and_variable() {
    assert_eq!(tree("-x"), "TopLevel(Block([Unary(Minus, Variable(\"x\"))]))");
}

#[test]
fn comparison_binds_tighter_than_and() {
    assert_eq!(
        tree("a < b and c"),
        "TopLevel(Block([Binary(Binary(Variable(\"a\"), LT, Variable(\"b\")), And, Variable(\"c\"))]))"
    );
}

#[test]
fn missing_operand_is_reported() {
    let errors = parse(scan("1 +".to_string())).unwrap_err();
    assert_eq!(errors.len(), 1);
    assert_eq!(errors[0].line, 1);
    assert_eq!(errors[0].at, Some("+".to_string()));
    assert_eq!(errors[0].message, "Expected something that could follow '+', but couldn't find anything.");
}

#[test]
fn empty_program_needs_a_type_annotation() {
    let errors = parse(scan(String::new())).unwrap_err();
    assert_eq!(errors.len(), 1);
    assert_eq!(errors[0].at, None);
    assert_eq!(errors[0].message, "Type annotation is required after empty block.");
}

#[test]
fn parser_keeps_its_errors() {
    let mut parser = Parser::new(scan("1 +".to_string()));
    let _ = parser.parse();
    assert_eq!(parser.errors().len(), 1);
    let mut fine = Parser::new(scan("1".to_string()));
    let ast = fine.parse();
    assert!(fine.errors().is_empty());
    assert_eq!(format!("{:?}", ast), "TopLevel(Block([Literal(Int, \"1\")]))");
}

#[test]
fn rules_of_operators() {
    let plus = get_rule(TokenType::Plus);
    assert_eq!(plus.prefix, None);
    assert_eq!(plus.infix, Some(InfixFn::Binary));
    assert_eq!(plus.precedence, Precedence::Term);
    let minus = get_rule(TokenType::Minus);
    assert_eq!(minus.prefix, Some(PrefixFn::Unary));
    let eof = get_rule(TokenType::EoF);
    assert_eq!(eof.prefix, None);
    assert_eq!(eof.infix, None);
    assert_eq!(eof.precedence, Precedence::Lowest);
}

#[test]
fn precedence_levels_rise() {
    assert!(Precedence::Term.level() < Precedence::Factor.level());
    assert_eq!(Precedence::Term.next(), Precedence::Factor);
    assert!(Precedence::Lowest.level() < Precedence::Call.level());
}

#[test]
fn errors_are_reported_with_line_and_token() {
    let errors = parse(scan("x := 1\n2 +".to_string())).unwrap_err();
    assert_eq!(
        errors[0].report(),
        "Error on line 2 at '+': Expected something that could follow '+', but couldn't find anything."
    );
    let errors = parse(scan(String::new())).unwrap_err();
    assert_eq!(errors[0].report(), "Error on line 1 at end: Type annotation is required after empty block.");
}

#[test]
fn function_definition_takes_the_assigned_name() {
    assert_eq!(
        tree("f := |x: Int| { x * x + 2 }"),
        "TopLevel(Block([Assignment(\"f\", Function(\"f\", [NameAndType { name: \"x\", typ: TypeAnnotation { typename: \"Int\", children: [] } }], None, Block([Binary(Binary(Variable(\"x\"), Star, Variable(\"x\")), Plus, Literal(Int, \"2\"))])))]))"
    );
}

#[test]
fn anonymous_function_with_annotations() {
    assert_eq!(
        tree("|xs: Arr(Int)|: Int { len(xs) }"),
        "TopLevel(Block([Function(\"<anon>\", [NameAndType { name: \"xs\", typ: TypeAnnotation { typename: \"Arr\", children: [TypeAnnotation { typename: \"Int\", children: [] }] } }], Some(TypeAnnotation { typename: \"Int\", children: [] }), Block([Len(Variable(\"xs\"))]))]))"
    );
}

#[test]
fn conditional_with_else() {
    assert_eq!(
        tree("if x > 1 { 2 } else { 3 }"),
        "TopLevel(Block([IfStatement(Binary(Variable(\"x\"), GT, Literal(Int, \"1\")), Block([Literal(Int, \"2\")]), Some(Block([Literal(Int, \"3\")])))]))"
    );
}

#[test]
fn arrays_with_and_without_entries() {
    assert_eq!(
        tree("[1, 2 3]"),
        "TopLevel(Block([Array([Literal(Int, \"1\"), Literal(Int, \"2\"), Literal(Int, \"3\")])]))"
    );
    assert_eq!(tree("[]: Int"), "TopLevel(Block([EmptyArray(TypeAnnotation { typename: \"Int\", children: [] })]))");
}

#[test]
fn calls_and_fields() {
    assert_eq!(
        tree("f(1, 2).x"),
        "TopLevel(Block([GetField(Call(Variable(\"f\"), [Literal(Int, \"1\"), Literal(Int, \"2\")]), \"x\")]))"
    );
    assert_eq!(tree("g()"), "TopLevel(Block([Call(Variable(\"g\"), [])]))");
}

#[test]
fn type_definition_takes_the_assigned_name() {
    assert_eq!(
        tree("Point := type { x: Int, y: Float }"),
        "TopLevel(Block([Assignment(\"Point\", TypeDef(\"Point\", [NameAndType { name: \"x\", typ: TypeAnnotation { typename: \"Int\", children: [] } }, NameAndType { name: \"y\", typ: TypeAnnotation { typename: \"Float\", children: [] } }]))]))"
    );
}

#[test]
fn functional_operations() {
    assert_eq!(
        tree("reduce(f, xs, 0)"),
        "TopLevel(Block([Reduce(Variable(\"f\"), Variable(\"xs\"), Literal(Int, \"0\"))]))"
    );
    assert_eq!(tree("filter(p xs)"), "TopLevel(Block([Filter(Variable(\"p\"), Variable(\"xs\"))]))");
    assert_eq!(
        tree("zipmap(f, a, b)"),
        "TopLevel(Block([ZipMap(Variable(\"f\"), [Variable(\"a\"), Variable(\"b\")])]))"
    );
    assert_eq!(tree("unwrap(m, 1)"), "TopLevel(Block([Unwrap(Variable(\"m\"), Literal(Int, \"1\"))]))");
    assert_eq!(tree("some(1)"), "TopLevel(Block([SomeMaybe(Literal(Int, \"1\"))]))");
    assert_eq!(
        tree("f -> 0 to 3"),
        "TopLevel(Block([Binary(Variable(\"f\"), RightArrow, Binary(Literal(Int, \"0\"), To, Literal(Int, \"3\")))]))"
    );
}

#[test]
fn grouping_overrides_precedence() {
    assert_eq!(
        tree("(1 + 2) * 3"),
        "TopLevel(Block([Binary(Binary(Literal(Int, \"1\"), Plus, Literal(Int, \"2\")), Star, Literal(Int, \"3\"))]))"
    );
    assert_eq!(tree("{}: Int"), "TopLevel(Block([NullMaybe(TypeAnnotation { typename: \"Int\", children: [] })]))");
}

#[test]
fn parse_errors_name_what_was_expected() {
    let errors = parse(scan("()".to_string())).unwrap_err();
    assert_eq!(
        errors[0].message,
        "Found nothing in grouping parentheses. Parentheses must contain at least one expression or be associated with a call."
    );
    let errors = parse(scan("f(".to_string())).unwrap_err();
    assert_eq!(errors[0].message, "Expected expression as argument in call.");
    assert_eq!(errors[0].at, Some("(".to_string()));
    let errors = parse(scan("|x| { x }".to_string())).unwrap_err();
    assert_eq!(errors[0].message, "Missing type annotation for parameter x.");
    let errors = parse(scan("p.1".to_string())).unwrap_err();
    assert_eq!(errors[0].message, "Expected field name but found 1 instead.");
}

#[test]
fn scanner_errors_are_reported_at_the_token_before() {
    // the error token is passed over and reported at the token before it
    let errors = parse(scan("1 # 2".to_string())).unwrap_err();
    assert_eq!(errors.len(), 1);
    assert_eq!(errors[0].at, Some("1".to_string()));
    assert_eq!(errors[0].message, "1");
}

#[test]
fn sample_programs_parse() {
    let programs = [
        "1 + 2 * 3 + 4",
        "1 - 2 / (3 - 4)",
        "x := { x := 1 + { 2 } x + 1 } x",
        "a := [[1,2], [3]] a(0) + a(1)",
        "f := ||{[\"henry\",\"lenry\"]} x:=f() [121,122,188,100] x",
        "MyType := type { c: Bool, a:Int b: Float } MyType(true, 152, 16.2)",
        "(type { a: Str, b: Arr(Int) })(\"henry\", [1,2])",
        "MyType := type { a: Int } get_a := |x: MyType|{x.a} x := MyType(152) get_a(x)",
        "len(|x:Int|{x} -> []:Int)",
        "unwrap({}: Int, 0)",
        "!issome({}: Str)",
        "if { x := 1 x > 0 } { 1 } else { 0 }",
        "x := 2 f := |y: Int|{g := |z: Int|{x+y+z} g(y)} f(1)",
        "reduce(|acc:Str, x:Str|{acc + \" \" + x}, [\"Henry\", \"is\", \"cool\"], \">\")",
        "all(|x:Int|{mod(x, 2) = 0} -> filter(|x:Int|{mod(x, 2) = 0}, 0 to 1234))",
        "fib_helper := |n: Int, x: Int, y: Int|: Int {
            z := x + y
            if n = 1 {
                z
            }
            else {
                fib_helper(n - 1, y, z)
            }
        }
        fib := |n: Int| {
            if n < 3 {
                1
            }
            else {
                fib_helper(n - 2, 1, 1)
            }
        }
        fib(80)",
    ];
    for source in programs.iter() {
        let result = parse(scan(source.to_string()));
        assert!(result.is_ok(), "{} did not parse: {:?}", source, result.err());
    }
}
