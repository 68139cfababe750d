use vstd::prelude::*;

verus! {

/// Kinds of tokens produced by the scanner.
#[derive(Debug, PartialEq, Eq, Copy, Clone, Hash, Structural)]
pub enum TokenType {
    LParen,
    RParen,
    LBrace,
    RBrace,
    Pipe,
    LSquare,
    RSquare,
    Comma,
    Dot,
    Colon,
    RightArrow,
    At,
    Eq,
    NEq,
    GT,
    LT,
    GEq,
    LEq,
    Plus,
    Minus,
    Slash,
    Star,
    Assign,
    Bang,
    Ident,
    Int,
    Float,
    Str,
    And,
    Or,
    Type,
    If,
    Else,
    True,
    False,
    To,
    SomeKw,
    Reduce,
    Filter,
    Len,
    ZipMap,
    Unwrap,
    Error,
    EoF,
}

/// The token kind of a character that forms a token on its own.
pub open spec fn spec_single_char(c: char) -> Option<TokenType> {
    if c == '(' {
        Option::Some(TokenType::LParen)
    } else if c == ')' {
        Option::Some(TokenType::RParen)
    } else if c == '{' {
        Option::Some(TokenType::LBrace)
    } else if c == '}' {
        Option::Some(TokenType::RBrace)
    } else if c == '|' {
        Option::Some(TokenType::Pipe)
    } else if c == '[' {
        Option::Some(TokenType::LSquare)
    } else if c == ']' {
        Option::Some(TokenType::RSquare)
    } else if c == '.' {
        Option::Some(TokenType::Dot)
    } else if c == ',' {
        Option::Some(TokenType::Comma)
    } else if c == '=' {
        Option::Some(TokenType::Eq)
    } else if c == '+' {
        Option::Some(TokenType::Plus)
    } else if c == '/' {
        Option::Some(TokenType::Slash)
    } else if c == '*' {
        Option::Some(TokenType::Star)
    } else if c == '@' {
        Option::Some(TokenType::At)
    } else {
        Option::None
    }
}

/// The keyword a word spells, or `Ident` for any other word.
pub open spec fn spec_keyword(text: Seq<char>) -> TokenType {
    if text == seq!['a', 'n', 'd'] {
        TokenType::And
    } else if text == seq!['o', 'r'] {
        TokenType::Or
    } else if text == seq!['t', 'y', 'p', 'e'] {
        TokenType::Type
    } else if text == seq!['i', 'f'] {
        TokenType::If
    } else if text == seq!['e', 'l', 's', 'e'] {
        TokenType::Else
    } else if text == seq!['t', 'r', 'u', 'e'] {
        TokenType::True
    } else if text == seq!['f', 'a', 'l', 's', 'e'] {
        TokenType::False
    } else if text == seq!['t', 'o'] {
        TokenType::To
    } else if text == seq!['s', 'o', 'm', 'e'] {
        TokenType::SomeKw
    } else if text == seq!['r', 'e', 'd', 'u', 'c', 'e'] {
        TokenType::Reduce
    } else if text == seq!['f', 'i', 'l', 't', 'e', 'r'] {
        TokenType::Filter
    } else if text == seq!['l', 'e', 'n'] {
        TokenType::Len
    } else if text == seq!['z', 'i', 'p', 'm', 'a', 'p'] {
        TokenType::ZipMap
    } else if text == seq!['u', 'n', 'w', 'r', 'a', 'p'] {
        TokenType::Unwrap
    } else {
        TokenType::Ident
    }
}

/// The word that spells a keyword of the language, for each keyword token.
pub open spec fn keyword_spelling(t: TokenType) -> Option<Seq<char>> {
    match t {
        TokenType::And => Some(seq!['a', 'n', 'd']),
        TokenType::Or => Some(seq!['o', 'r']),
        TokenType::Type => Some(seq!['t', 'y', 'p', 'e']),
        TokenType::If => Some(seq!['i', 'f']),
        TokenType::Else => Some(seq!['e', 'l', 's', 'e']),
        TokenType::True => Some(seq!['t', 'r', 'u', 'e']),
        TokenType::False => Some(seq!['f', 'a', 'l', 's', 'e']),
        TokenType::To => Some(seq!['t', 'o']),
        TokenType::SomeKw => Some(seq!['s', 'o', 'm', 'e']),
        TokenType::Reduce => Some(seq!['r', 'e', 'd', 'u', 'c', 'e']),
        TokenType::Filter => Some(seq!['f', 'i', 'l', 't', 'e', 'r']),
        TokenType::Len => Some(seq!['l', 'e', 'n']),
        TokenType::ZipMap => Some(seq!['z', 'i', 'p', 'm', 'a', 'p']),
        TokenType::Unwrap => Some(seq!['u', 'n', 'w', 'r', 'a', 'p']),
        _ => None,
    }
}

/// A word is read as the keyword it spells, and only the keywords' own
/// words are read as keywords: every other word is an identifier. So `or`
/// is `Or` and `and` is `And`, and `order` is an identifier.
pub proof fn law_keywords_read_as_spelled(t: TokenType, w: Seq<char>)
    ensures
        keyword_spelling(t) matches Some(k) ==> spec_keyword(k) == t,
        spec_keyword(w) != TokenType::Ident ==> keyword_spelling(spec_keyword(w)) == Some(w),
{
}

/// The character that forms each single-character token.
pub open spec fn single_char_spelling(t: TokenType) -> Option<char> {
    match t {
        TokenType::LParen => Some('('),
        TokenType::RParen => Some(')'),
        TokenType::LBrace => Some('{'),
        TokenType::RBrace => Some('}'),
        TokenType::Pipe => Some('|'),
        TokenType::LSquare => Some('['),
        TokenType::RSquare => Some(']'),
        TokenType::Dot => Some('.'),
        TokenType::Comma => Some(','),
        TokenType::Eq => Some('='),
        TokenType::Plus => Some('+'),
        TokenType::Slash => Some('/'),
        TokenType::Star => Some('*'),
        TokenType::At => Some('@'),
        _ => None,
    }
}

/// A character that forms a token on its own is read as the token it
/// stands for (`+` as `Plus`, `*` as `Star`, ...), and no two such
/// characters are read as one token.
pub proof fn law_single_chars_read_as_written(t: TokenType, c: char)
    ensures
        single_char_spelling(t) matches Some(d) ==> spec_single_char(d) == Some(t),
        spec_single_char(c) matches Some(u) ==> single_char_spelling(u) == Some(c),
{
}

/// Whether a slice of characters spells the given word.
pub fn chars_equal(a: &[char], b: &[char]) -> (r: bool)
    ensures
        r == (a@ == b@),
{
    if a.len() != b.len() {
        return false;
    }
    let mut i: usize = 0;
    while i < a.len()
        invariant
            a@.len() == b@.len(),
            0 <= i <= a@.len(),
            forall|j: int| 0 <= j < i ==> a@[j] == b@[j],
        decreases a@.len() - i,
    {
        if a[i] != b[i] {
            return false;
        }
        i = i + 1;
    }
    assert(a@ =~= b@);
    true
}

/// The characters of a string.
pub fn str_chars(s: &str) -> (v: Vec<char>)
    ensures
        v@ == s@,
{
    broadcast use vstd::string::group_string_axioms;

    let mut v: Vec<char> = Vec::new();
    for c in iter: s.chars()
        invariant
            v@ == iter.seq().take(iter.index() as int),
            iter.seq() == s@,
    {
        v.push(c);
    }
    v
}

/// Whether two strings are equal.
pub fn str_eq(a: &str, b: &str) -> (r: bool)
    ensures
        r == (a@ == b@),
{
    let ca = str_chars(a);
    let cb = str_chars(b);
    chars_equal(ca.as_slice(), cb.as_slice())
}

impl TokenType {
    pub fn single_char_keyword(c: char) -> (r: Option<TokenType>)
        ensures
            r == spec_single_char(c),
    {
        match c {
            '(' => Option::Some(TokenType::LParen),
            ')' => Option::Some(TokenType::RParen),
            '{' => Option::Some(TokenType::LBrace),
            '}' => Option::Some(TokenType::RBrace),
            '|' => Option::Some(TokenType::Pipe),
            '[' => Option::Some(TokenType::LSquare),
            ']' => Option::Some(TokenType::RSquare),
            '.' => Option::Some(TokenType::Dot),
            ',' => Option::Some(TokenType::Comma),
            '=' => Option::Some(TokenType::Eq),
            '+' => Option::Some(TokenType::Plus),
            '/' => Option::Some(TokenType::Slash),
            '*' => Option::Some(TokenType::Star),
            '@' => Option::Some(TokenType::At),
            _ => Option::None,
        }
    }

    /// Classifies a word given as characters.
    pub fn keyword_or_ident_chars(text: &[char]) -> (t: TokenType)
        ensures
            t == spec_keyword(text@),
    {
        if chars_equal(text, &['a', 'n', 'd']) {
            TokenType::And
        } else if chars_equal(text, &['o', 'r']) {
            TokenType::Or
        } else if chars_equal(text, &['t', 'y', 'p', 'e']) {
            TokenType::Type
        } else if chars_equal(text, &['i', 'f']) {
            TokenType::If
        } else if chars_equal(text, &['e', 'l', 's', 'e']) {
            TokenType::Else
        } else if chars_equal(text, &['t', 'r', 'u', 'e']) {
            TokenType::True
        } else if chars_equal(text, &['f', 'a', 'l', 's', 'e']) {
            TokenType::False
        } else if chars_equal(text, &['t', 'o']) {
            TokenType::To
        } else if chars_equal(text, &['s', 'o', 'm', 'e']) {
            TokenType::SomeKw
        } else if chars_equal(text, &['r', 'e', 'd', 'u', 'c', 'e']) {
            TokenType::Reduce
        } else if chars_equal(text, &['f', 'i', 'l', 't', 'e', 'r']) {
            TokenType::Filter
        } else if chars_equal(text, &['l', 'e', 'n']) {
            TokenType::Len
        } else if chars_equal(text, &['z', 'i', 'p', 'm', 'a', 'p']) {
            TokenType::ZipMap
        } else if chars_equal(text, &['u', 'n', 'w', 'r', 'a', 'p']) {
            TokenType::Unwrap
        } else {
            TokenType::Ident
        }
    }

    pub fn keyword_or_ident(text: &str) -> (t: TokenType)
        ensures
            t == spec_keyword(text@),
    {
        let chars = str_chars(text);
        Self::keyword_or_ident_chars(chars.as_slice())
    }
}

/// A token as a value: its kind, its line and its text.
pub struct SpecToken {
    pub ttype: TokenType,
    pub line: nat,
    pub text: Seq<char>,
}

/// A token of source text.
#[derive(Debug, Clone)]
pub struct Token {
    pub ttype: TokenType,
    pub line: usize,
    pub text: String,
}

impl View for Token {
    type V = SpecToken;

    open spec fn view(&self) -> SpecToken {
        SpecToken { ttype: self.ttype, line: self.line as nat, text: self.text@ }
    }
}

impl TokenType {
    /// The token kind's name as `Debug` writes it in messages.
    pub open spec fn spec_debug_name(self) -> Seq<char> {
        match self {
            TokenType::LParen => "LParen"@,
            TokenType::RParen => "RParen"@,
            TokenType::LBrace => "LBrace"@,
            TokenType::RBrace => "RBrace"@,
            TokenType::Pipe => "Pipe"@,
            TokenType::LSquare => "LSquare"@,
            TokenType::RSquare => "RSquare"@,
            TokenType::Comma => "Comma"@,
            TokenType::Dot => "Dot"@,
            TokenType::Colon => "Colon"@,
            TokenType::RightArrow => "RightArrow"@,
            TokenType::At => "At"@,
            TokenType::Eq => "Eq"@,
            TokenType::NEq => "NEq"@,
            TokenType::GT => "GT"@,
            TokenType::LT => "LT"@,
            TokenType::GEq => "GEq"@,
            TokenType::LEq => "LEq"@,
            TokenType::Plus => "Plus"@,
            TokenType::Minus => "Minus"@,
            TokenType::Slash => "Slash"@,
            TokenType::Star => "Star"@,
            TokenType::Assign => "Assign"@,
            TokenType::Bang => "Bang"@,
            TokenType::Ident => "Ident"@,
            TokenType::Int => "Int"@,
            TokenType::Float => "Float"@,
            TokenType::Str => "Str"@,
            TokenType::And => "And"@,
            TokenType::Or => "Or"@,
            TokenType::Type => "Type"@,
            TokenType::If => "If"@,
            TokenType::Else => "Else"@,
            TokenType::True => "True"@,
            TokenType::False => "False"@,
            TokenType::To => "To"@,
            TokenType::SomeKw => "Some"@,
            TokenType::Reduce => "Reduce"@,
            TokenType::Filter => "Filter"@,
            TokenType::Len => "Len"@,
            TokenType::ZipMap => "ZipMap"@,
            TokenType::Unwrap => "Unwrap"@,
            TokenType::Error => "Error"@,
            TokenType::EoF => "EoF"@,
        }
    }

    /// The token kind's name as `Debug` writes it in messages.
    pub fn debug_name(&self) -> (r: &'static str)
        ensures
            r@ == self.spec_debug_name(),
    {
        match self {
            TokenType::LParen => "LParen",
            TokenType::RParen => "RParen",
            TokenType::LBrace => "LBrace",
            TokenType::RBrace => "RBrace",
            TokenType::Pipe => "Pipe",
            TokenType::LSquare => "LSquare",
            TokenType::RSquare => "RSquare",
            TokenType::Comma => "Comma",
            TokenType::Dot => "Dot",
            TokenType::Colon => "Colon",
            TokenType::RightArrow => "RightArrow",
            TokenType::At => "At",
            TokenType::Eq => "Eq",
            TokenType::NEq => "NEq",
            TokenType::GT => "GT",
            TokenType::LT => "LT",
            TokenType::GEq => "GEq",
            TokenType::LEq => "LEq",
            TokenType::Plus => "Plus",
            TokenType::Minus => "Minus",
            TokenType::Slash => "Slash",
            TokenType::Star => "Star",
            TokenType::Assign => "Assign",
            TokenType::Bang => "Bang",
            TokenType::Ident => "Ident",
            TokenType::Int => "Int",
            TokenType::Float => "Float",
            TokenType::Str => "Str",
            TokenType::And => "And",
            TokenType::Or => "Or",
            TokenType::Type => "Type",
            TokenType::If => "If",
            TokenType::Else => "Else",
            TokenType::True => "True",
            TokenType::False => "False",
            TokenType::To => "To",
            TokenType::SomeKw => "Some",
            TokenType::Reduce => "Reduce",
            TokenType::Filter => "Filter",
            TokenType::Len => "Len",
            TokenType::ZipMap => "ZipMap",
            TokenType::Unwrap => "Unwrap",
            TokenType::Error => "Error",
            TokenType::EoF => "EoF",
        }
    }
}

} // verus!
