use henrylang::scanner::{scan, Scanner};
use henrylang::token::{Token, TokenType};

fn kinds(tokens: &[Token]) -> Vec<TokenType> {
    tokens.iter().map(|t| t.ttype).collect()
}

fn texts(tokens: &[Token]) -> Vec<String> {
    tokens.iter().map(|t| t.text.clone()).collect()
}

fn lines(tokens: &[Token]) -> Vec<usize> {
    tokens.iter().map(|t| t.line).collect()
}

#[test]
fn scans_assignment_of_sum() {
    let tokens = scan("x := 1 + 2.5".to_string());
    assert_eq!(
        kinds(&tokens),
        vec![TokenType::Ident, TokenType::Assign, TokenType::Int, TokenType::Plus, TokenType::Float, TokenType::EoF]
    );
    assert_eq!(texts(&tokens), vec!["x", ":=", "1", "+", "2.5", ""]);
    assert_eq!(lines(&tokens), vec![1, 1, 1, 1, 1, 1]);
}

#[test]
fn scans_single_character_tokens() {
    let tokens = scan("( ) { } | [ ] . , = + / * @".to_string());
    assert_eq!(
        kinds(&tokens),
        vec![
            TokenType::LParen,
            TokenType::RParen,
            TokenType::LBrace,
            TokenType::RBrace,
            TokenType::Pipe,
            TokenType::LSquare,
            TokenType::RSquare,
            TokenType::Dot,
            TokenType::Comma,
            TokenType::Eq,
            TokenType::Plus,
            TokenType::Slash,
            TokenType::Star,
            TokenType::At,
            TokenType::EoF,
        ]
    );
}

#[test]
fn scans_one_and_two_character_operators() {
    let tokens = scan("!= >= <= -> ! > < - : :=".to_string());
    assert_eq!(
        kinds(&tokens),
        vec![
            TokenType::NEq,
            TokenType::GEq,
            TokenType::LEq,
            TokenType::RightArrow,
            TokenType::Bang,
            TokenType::GT,
            TokenType::LT,
            TokenType::Minus,
            TokenType::Colon,
            TokenType::Assign,
            TokenType::EoF,
        ]
    );
    assert_eq!(texts(&tokens), vec!["!=", ">=", "<=", "->", "!", ">", "<", "-", ":", ":=", ""]);
}

#[test]
fn scans_keywords_and_identifiers() {
    let tokens = scan("and or type if else true false to some reduce filter len zipmap unwrap foo".to_string());
    assert_eq!(
        kinds(&tokens),
        vec![
            TokenType::And,
            TokenType::Or,
            TokenType::Type,
            TokenType::If,
            TokenType::Else,
            TokenType::True,
            TokenType::False,
            TokenType::To,
            TokenType::SomeKw,
            TokenType::Reduce,
            TokenType::Filter,
            TokenType::Len,
            TokenType::ZipMap,
            TokenType::Unwrap,
            TokenType::Ident,
            TokenType::EoF,
        ]
    );
}

#[test]
fn identifiers_take_underscores_digits_and_letters() {
    let tokens = scan("_ab1 é iffy".to_string());
    assert_eq!(kinds(&tokens), vec![TokenType::Ident, TokenType::Ident, TokenType::Ident, TokenType::EoF]);
    assert_eq!(texts(&tokens), vec!["_ab1", "é", "iffy", ""]);
}

#[test]
fn numbers_need_a_digit_after_the_point() {
    let tokens = scan("3. 3.25 42".to_string());
    assert_eq!(
        kinds(&tokens),
        vec![TokenType::Int, TokenType::Dot, TokenType::Float, TokenType::Int, TokenType::EoF]
    );
    assert_eq!(texts(&tokens), vec!["3", ".", "3.25", "42", ""]);
}

#[test]
fn newlines_count_lines() {
    let tokens = scan("a\nb\n\nc".to_string());
    assert_eq!(texts(&tokens), vec!["a", "b", "c", ""]);
    assert_eq!(lines(&tokens), vec![1, 2, 4, 4]);
}

#[test]
fn comment_runs_to_the_end_of_the_line() {
    // the newline that ends a comment starts a new line like any other
    let tokens = scan("a ? a note\nb".to_string());
    assert_eq!(kinds(&tokens), vec![TokenType::Ident, TokenType::Ident, TokenType::EoF]);
    assert_eq!(texts(&tokens), vec!["a", "b", ""]);
    assert_eq!(lines(&tokens), vec![1, 2, 2]);
}

#[test]
fn string_literal_keeps_its_quotes_and_counts_lines() {
    let tokens = scan("\"a\nb\" x".to_string());
    assert_eq!(kinds(&tokens), vec![TokenType::Str, TokenType::Ident, TokenType::EoF]);
    assert_eq!(texts(&tokens), vec!["\"a\nb\"", "x", ""]);
    assert_eq!(lines(&tokens), vec![2, 2, 2]);
}

#[test]
fn unterminated_string_is_an_error_token() {
    let tokens = scan("\"abc".to_string());
    assert_eq!(kinds(&tokens), vec![TokenType::Error, TokenType::EoF]);
    assert_eq!(texts(&tokens), vec!["Unterminated string", ""]);
}

#[test]
fn unexpected_character_is_an_error_token() {
    let tokens = scan("# 1".to_string());
    assert_eq!(kinds(&tokens), vec![TokenType::Error, TokenType::Int, TokenType::EoF]);
    assert_eq!(texts(&tokens), vec!["Unexpected character", "1", ""]);
}

#[test]
fn nul_character_ends_the_text() {
    let tokens = scan("a\u{0}b".to_string());
    assert_eq!(kinds(&tokens), vec![TokenType::Ident, TokenType::EoF]);
    assert_eq!(texts(&tokens), vec!["a", ""]);
}

#[test]
fn empty_text_gives_only_end_of_file() {
    let tokens = scan(String::new());
    assert_eq!(kinds(&tokens), vec![TokenType::EoF]);
    assert_eq!(lines(&tokens), vec![1]);
}

#[test]
fn scanner_object_scans_like_the_function() {
    let mut scanner = Scanner::new("f(4) * 2".to_string());
    let tokens = scanner.scan();
    assert_eq!(
        kinds(&tokens),
        vec![
            TokenType::Ident,
            TokenType::LParen,
            TokenType::Int,
            TokenType::RParen,
            TokenType::Star,
            TokenType::Int,
            TokenType::EoF,
        ]
    );
    assert_eq!(texts(&tokens), texts(&scan("f(4) * 2".to_string())));
}

#[test]
fn keyword_lookup_of_token_type() {
    assert_eq!(TokenType::keyword_or_ident("zipmap"), TokenType::ZipMap);
    assert_eq!(TokenType::keyword_or_ident("some"), TokenType::SomeKw);
    assert_eq!(TokenType::keyword_or_ident("Some"), TokenType::Ident);
    assert_eq!(TokenType::single_char_keyword('@'), Some(TokenType::At));
    assert_eq!(TokenType::single_char_keyword('-'), None);
}
