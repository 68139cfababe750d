use vstd::prelude::*;

use crate::token::{spec_keyword, spec_single_char, str_chars, SpecToken, Token, TokenType};
use vstd::string::StringExecFns;

verus! {

/// Whether `c` is alphabetic in Unicode's sense; the result of
/// `char::is_alphabetic`.
pub uninterp spec fn is_alphabetic_char(c: char) -> bool;

/// Whether `c` has one of Unicode's numeric general categories; the result of
/// `char::is_numeric`.
pub uninterp spec fn is_numeric_char(c: char) -> bool;

/// Whether `char::is_alphabetic` holds of `c`: in the ASCII range exactly
/// for the letters `a`-`z` and `A`-`Z`, elsewhere as Unicode's Alphabetic
/// property says.
pub open spec fn alphabetic(c: char) -> bool {
    if (c as u32) < 128 {
        ('a' <= c && c <= 'z') || ('A' <= c && c <= 'Z')
    } else {
        is_alphabetic_char(c)
    }
}

/// Whether `char::is_numeric` holds of `c`: in the ASCII range exactly for
/// the digits `0`-`9`, elsewhere as Unicode's numeric categories say.
pub open spec fn numeric(c: char) -> bool {
    if (c as u32) < 128 {
        '0' <= c && c <= '9'
    } else {
        is_numeric_char(c)
    }
}

/// `char::is_alphabetic`. The contract names its result; of Unicode's
/// Alphabetic property it restates only the ASCII range, where exactly the
/// letters `a`-`z` and `A`-`Z` have it.
#[verifier::external_body]
fn char_is_alphabetic(c: char) -> (r: bool)
    ensures
        (c as u32) < 128 ==> (r <==> (('a' <= c && c <= 'z') || ('A' <= c && c <= 'Z'))),
        (c as u32) >= 128 ==> r == is_alphabetic_char(c),
{
    c.is_alphabetic()
}

/// `char::is_numeric`. The contract names its result; of Unicode's numeric
/// categories it restates only the ASCII range, where exactly the digits
/// `0`-`9` are numeric.
#[verifier::external_body]
fn char_is_numeric(c: char) -> (r: bool)
    ensures
        (c as u32) < 128 ==> (r <==> ('0' <= c && c <= '9')),
        (c as u32) >= 128 ==> r == is_numeric_char(c),
{
    c.is_numeric()
}

/// `String::push`: appends one character at the end of the string.
#[verifier::external_body]
pub(crate) fn string_push(s: &mut String, c: char)
    ensures
        final(s)@ == old(s)@.push(c),
{
    s.push(c)
}

/// `char::is_alphanumeric`, which std defines as alphabetic or numeric.
pub open spec fn is_alphanumeric_char(c: char) -> bool {
    alphabetic(c) || numeric(c)
}

fn char_is_alphanumeric(c: char) -> (r: bool)
    ensures
        r == is_alphanumeric_char(c),
{
    char_is_alphabetic(c) || char_is_numeric(c)
}

/// `char::is_ascii_digit`: '0' to '9'.
pub open spec fn is_digit_char(c: char) -> bool {
    '0' <= c && c <= '9'
}

fn char_is_digit(c: char) -> (r: bool)
    ensures
        r == is_digit_char(c),
{
    '0' <= c && c <= '9'
}

/// `char::is_ascii_whitespace`: space, tab, line feed, form feed and
/// carriage return.
pub open spec fn is_layout_char(c: char) -> bool {
    c == ' ' || c == '\t' || c == '\n' || c == '\x0C' || c == '\r'
}

fn char_is_layout(c: char) -> (r: bool)
    ensures
        r == is_layout_char(c),
{
    c == ' ' || c == '\t' || c == '\n' || c == '\x0C' || c == '\r'
}

/// The character at `i`, or NUL past the end.
pub open spec fn peek_at(s: Seq<char>, i: int) -> char {
    if 0 <= i < s.len() {
        s[i]
    } else {
        '\0'
    }
}

/// Scanning stops at the end of the text and at a NUL character.
pub open spec fn ended(s: Seq<char>, i: int) -> bool {
    peek_at(s, i) == '\0'
}

/// Where a comment whose text begins at `i` ends: at the next line break, or
/// where the text ends.
pub open spec fn comment_end(s: Seq<char>, i: nat) -> nat
    decreases s.len() - i,
{
    if ended(s, i as int) || s[i as int] == '\n' {
        i
    } else {
        comment_end(s, i + 1)
    }
}

pub proof fn lemma_comment_end(s: Seq<char>, i: nat)
    ensures
        i <= comment_end(s, i),
        i <= s.len() ==> comment_end(s, i) <= s.len(),
        ended(s, comment_end(s, i) as int) || s[comment_end(s, i) as int] == '\n',
        !ended(s, comment_end(s, i) as int) ==> comment_end(s, i) < s.len(),
    decreases s.len() - i,
{
    if !(ended(s, i as int) || s[i as int] == '\n') {
        lemma_comment_end(s, i + 1);
    }
}

/// Position and line after the whitespace and comments at `i`. A comment runs
/// from `?` to the end of its line; the line break that ends it counts as a
/// new line like any other.
pub open spec fn skip_layout(s: Seq<char>, i: nat, line: nat) -> (nat, nat)
    decreases s.len() - i,
{
    if ended(s, i as int) {
        (i, line)
    } else if s[i as int] == '\n' {
        skip_layout(s, i + 1, line + 1)
    } else if s[i as int] == '?' {
        let e = comment_end(s, i + 1);
        if ended(s, e as int) {
            (e, line)
        } else {
            proof {
                lemma_comment_end(s, i + 1);
            }
            skip_layout(s, e + 1, line + 1)
        }
    } else if is_layout_char(s[i as int]) {
        skip_layout(s, i + 1, line)
    } else {
        (i, line)
    }
}

/// Between tokens the scanner skips every ASCII whitespace character (space,
/// tab, form feed, carriage return and line feed, as `is_ascii_whitespace`
/// has them): skipping from such a character gives what skipping from the
/// next one gives, and a line feed also starts a new line.
pub proof fn law_whitespace_is_skipped(s: Seq<char>, i: nat, line: nat)
    requires
        i < s.len(),
        s[i as int] == ' ' || s[i as int] == '\t' || s[i as int] == '\x0C' || s[i as int] == '\r' || s[i as int]
            == '\n',
    ensures
        skip_layout(s, i, line) == skip_layout(s, i + 1, if s[i as int] == '\n' { line + 1 } else { line }),
{
    assert(!ended(s, i as int));
}

/// Nothing else is skipped: at any character other than ASCII whitespace,
/// a comment's `?`, or the end of the text, skipping layout stays where it is.
pub proof fn law_only_whitespace_is_skipped(s: Seq<char>, i: nat, line: nat)
    requires
        i < s.len(),
        !(s[i as int] == ' ' || s[i as int] == '\t' || s[i as int] == '\x0C' || s[i as int] == '\r' || s[i as int]
            == '\n' || s[i as int] == '?' || s[i as int] == '\0'),
    ensures
        skip_layout(s, i, line) == (i, line),
{
}

/// Skipping layout from `i` reads only the text from `i` on.
proof fn lemma_skip_layout_suffix(s1: Seq<char>, s2: Seq<char>, i: nat, line: nat)
    requires
        s1.len() == s2.len(),
        forall|k: int| i <= k < s1.len() ==> s1[k] == s2[k],
    ensures
        skip_layout(s1, i, line) == skip_layout(s2, i, line),
    decreases s1.len() - i,
{
    if i < s1.len() {
        assert(s1[i as int] == s2[i as int]);
        if !ended(s1, i as int) {
            if s1[i as int] == '\n' {
                lemma_skip_layout_suffix(s1, s2, i + 1, line + 1);
            } else if s1[i as int] == '?' {
                lemma_comment_end_suffix(s1, s2, i + 1);
                lemma_comment_end(s1, i + 1);
                let e = comment_end(s1, i + 1);
                if !ended(s1, e as int) {
                    assert(e < s1.len());
                    assert(s1[e as int] == s2[e as int]);
                    lemma_skip_layout_suffix(s1, s2, e + 1, line + 1);
                } else {
                    if e < s1.len() {
                        assert(s1[e as int] == s2[e as int]);
                    }
                }
            } else if is_layout_char(s1[i as int]) {
                lemma_skip_layout_suffix(s1, s2, i + 1, line);
            }
        }
    }
}

proof fn lemma_comment_end_suffix(s1: Seq<char>, s2: Seq<char>, i: nat)
    requires
        s1.len() == s2.len(),
        forall|k: int| i <= k < s1.len() ==> s1[k] == s2[k],
    ensures
        comment_end(s1, i) == comment_end(s2, i),
    decreases s1.len() - i,
{
    if i < s1.len() {
        assert(s1[i as int] == s2[i as int]);
        if !(ended(s1, i as int) || s1[i as int] == '\n') {
            lemma_comment_end_suffix(s1, s2, i + 1);
        }
    }
}

/// A tab between tokens is skipped exactly like a space: with a tab or a
/// space at `i`, skipping layout from `i` ends at the same place on the same
/// line.
pub proof fn law_tab_is_like_space(s: Seq<char>, i: nat, line: nat)
    requires
        i < s.len(),
    ensures
        skip_layout(s.update(i as int, '\t'), i, line) == skip_layout(s.update(i as int, ' '), i, line),
{
    let t = s.update(i as int, '\t');
    let sp = s.update(i as int, ' ');
    law_whitespace_is_skipped(t, i, line);
    law_whitespace_is_skipped(sp, i, line);
    lemma_skip_layout_suffix(t, sp, i + 1, line);
}

/// End of the run of ASCII digits at `i`.
pub open spec fn digits_end(s: Seq<char>, i: nat) -> nat
    decreases s.len() - i,
{
    if i < s.len() && is_digit_char(s[i as int]) {
        digits_end(s, i + 1)
    } else {
        i
    }
}

/// End of the run of identifier characters at `i`: letters, digits and `_`.
pub open spec fn ident_end(s: Seq<char>, i: nat) -> nat
    decreases s.len() - i,
{
    if !ended(s, i as int) && (is_alphanumeric_char(s[i as int]) || s[i as int] == '_') {
        ident_end(s, i + 1)
    } else {
        i
    }
}

/// End of a string literal's contents at `i` and the line reached there: the
/// next double quote, or where the text ends.
pub open spec fn string_end(s: Seq<char>, i: nat, line: nat) -> (nat, nat)
    decreases s.len() - i,
{
    if ended(s, i as int) || s[i as int] == '"' {
        (i, line)
    } else if s[i as int] == '\n' {
        string_end(s, i + 1, line + 1)
    } else {
        string_end(s, i + 1, line)
    }
}

pub open spec fn mk_token(ttype: TokenType, line: nat, text: Seq<char>) -> SpecToken {
    SpecToken { ttype, line, text }
}

/// The message of the token for an unterminated string literal.
pub open spec fn unterminated_message() -> Seq<char> {
    "Unterminated string"@
}

/// The message of the token for a character that starts no token.
pub open spec fn unexpected_message() -> Seq<char> {
    "Unexpected character"@
}

/// A string literal whose opening quote is at `start`.
pub open spec fn spec_read_string(s: Seq<char>, start: nat, line: nat) -> (SpecToken, nat, nat) {
    let (e, l) = string_end(s, start + 1, line);
    if ended(s, e as int) {
        (mk_token(TokenType::Error, l, unterminated_message()), e, l)
    } else {
        (mk_token(TokenType::Str, l, s.subrange(start as int, e + 1 as int)), e + 1, l)
    }
}

/// A number whose first character is at `start`: a run of digits, then
/// optionally a dot followed by at least one digit and the rest of that run.
pub open spec fn spec_read_number(s: Seq<char>, start: nat, line: nat) -> (SpecToken, nat, nat) {
    let d = digits_end(s, start + 1);
    if peek_at(s, d as int) == '.' && is_digit_char(peek_at(s, d + 1 as int)) {
        let e = digits_end(s, d + 1);
        (mk_token(TokenType::Float, line, s.subrange(start as int, e as int)), e, line)
    } else {
        (mk_token(TokenType::Int, line, s.subrange(start as int, d as int)), d, line)
    }
}

/// A word whose first character is at `start`: a keyword or an identifier.
pub open spec fn spec_read_word(s: Seq<char>, start: nat, line: nat) -> (SpecToken, nat, nat) {
    let e = ident_end(s, start + 1);
    (mk_token(spec_keyword(s.subrange(start as int, e as int)), line, s.subrange(start as int, e as int)), e, line)
}

/// The kind of an operator that may be one or two characters long.
pub open spec fn two_char_type(c: char, long: bool) -> TokenType {
    if c == '!' {
        if long { TokenType::NEq } else { TokenType::Bang }
    } else if c == '>' {
        if long { TokenType::GEq } else { TokenType::GT }
    } else if c == '<' {
        if long { TokenType::LEq } else { TokenType::LT }
    } else if c == ':' {
        if long { TokenType::Assign } else { TokenType::Colon }
    } else {
        if long { TokenType::RightArrow } else { TokenType::Minus }
    }
}

/// The text of each operator of one or two characters.
pub open spec fn operator_spelling(t: TokenType) -> Option<Seq<char>> {
    match t {
        TokenType::NEq => Some(seq!['!', '=']),
        TokenType::Bang => Some(seq!['!']),
        TokenType::GEq => Some(seq!['>', '=']),
        TokenType::GT => Some(seq!['>']),
        TokenType::LEq => Some(seq!['<', '=']),
        TokenType::LT => Some(seq!['<']),
        TokenType::Assign => Some(seq![':', '=']),
        TokenType::Colon => Some(seq![':']),
        TokenType::RightArrow => Some(seq!['-', '>']),
        TokenType::Minus => Some(seq!['-']),
        _ => None,
    }
}

/// Where the text at `p` starts with an operator's text (and, for a
/// one-character operator, the longer operator that begins with the same
/// character does not stand there instead), the token read at `p` is that
/// operator, with that text, and reading goes on right after it. The longer
/// operator wins: `<=` is one token, not `<` and then `=`.
pub proof fn law_operators_read_as_spelled(s: Seq<char>, p: nat, l: nat, t: TokenType)
    requires
        operator_spelling(t) is Some,
        p + operator_spelling(t)->0.len() <= s.len(),
        s.subrange(p as int, (p + operator_spelling(t)->0.len()) as int) == operator_spelling(t)->0,
        operator_spelling(t)->0.len() == 1 ==> peek_at(s, (p + 1) as int) != (if s[p as int] == '-' { '>' } else { '=' }),
    ensures
        spec_token_at(s, p, l) == (mk_token(t, l, operator_spelling(t)->0), p + operator_spelling(t)->0.len(), l),
{
    let w = operator_spelling(t)->0;
    assert(s[p as int] == s.subrange(p as int, (p + w.len()) as int)[0]);
    if w.len() == 2 {
        assert(s[(p + 1) as int] == s.subrange(p as int, (p + w.len()) as int)[1]);
        assert(peek_at(s, (p + 1) as int) == w[1]);
    }
}

/// Characters that begin an operator of one or two characters.
pub open spec fn is_operator_start(c: char) -> bool {
    c == '!' || c == '>' || c == '<' || c == ':' || c == '-'
}

/// The second character of a two-character operator.
pub open spec fn operator_second(c: char) -> char {
    if c == '-' {
        '>'
    } else {
        '='
    }
}

/// The token that starts at `p`, where a character that is not layout stands.
pub open spec fn spec_token_at(s: Seq<char>, p: nat, l: nat) -> (SpecToken, nat, nat) {
    let c = s[p as int];
    if spec_single_char(c) is Some {
        (mk_token(spec_single_char(c)->0, l, s.subrange(p as int, p + 1 as int)), p + 1, l)
    } else if is_operator_start(c) {
        let long = peek_at(s, p + 1 as int) == operator_second(c);
        let e: nat = if long { p + 2 } else { p + 1 };
        (mk_token(two_char_type(c, long), l, s.subrange(p as int, e as int)), e, l)
    } else if c == '"' {
        spec_read_string(s, p, l)
    } else if numeric(c) {
        spec_read_number(s, p, l)
    } else if alphabetic(c) || c == '_' {
        spec_read_word(s, p, l)
    } else {
        (mk_token(TokenType::Error, l, unexpected_message()), p + 1, l)
    }
}

/// The next token from position `i` on line `line`, with the position and
/// line after it. At the end of the text this is an empty end-of-file token.
pub open spec fn spec_scan_token(s: Seq<char>, i: nat, line: nat) -> (SpecToken, nat, nat) {
    let (p, l) = skip_layout(s, i, line);
    if ended(s, p as int) {
        (mk_token(TokenType::EoF, l, Seq::empty()), p, l)
    } else {
        spec_token_at(s, p, l)
    }
}

proof fn lemma_skip_layout(s: Seq<char>, i: nat, line: nat)
    ensures
        i <= skip_layout(s, i, line).0,
        line <= skip_layout(s, i, line).1,
        skip_layout(s, i, line).1 - line <= skip_layout(s, i, line).0 - i,
        i <= s.len() ==> skip_layout(s, i, line).0 <= s.len(),
        !ended(s, skip_layout(s, i, line).0 as int) ==> !is_layout_char(s[skip_layout(s, i, line).0 as int])
            && s[skip_layout(s, i, line).0 as int] != '?',
    decreases s.len() - i,
{
    if ended(s, i as int) {
    } else if s[i as int] == '\n' {
        lemma_skip_layout(s, i + 1, line + 1);
    } else if s[i as int] == '?' {
        lemma_comment_end(s, i + 1);
        let e = comment_end(s, i + 1);
        if !ended(s, e as int) {
            lemma_skip_layout(s, e + 1, line + 1);
        }
    } else if is_layout_char(s[i as int]) {
        lemma_skip_layout(s, i + 1, line);
    }
}

proof fn lemma_digits_end(s: Seq<char>, i: nat)
    ensures
        i <= digits_end(s, i),
        i <= s.len() ==> digits_end(s, i) <= s.len(),
    decreases s.len() - i,
{
    if i < s.len() && is_digit_char(s[i as int]) {
        lemma_digits_end(s, i + 1);
    }
}

proof fn lemma_ident_end(s: Seq<char>, i: nat)
    ensures
        i <= ident_end(s, i),
        i <= s.len() ==> ident_end(s, i) <= s.len(),
    decreases s.len() - i,
{
    if !ended(s, i as int) && (is_alphanumeric_char(s[i as int]) || s[i as int] == '_') {
        lemma_ident_end(s, i + 1);
    }
}

proof fn lemma_string_end(s: Seq<char>, i: nat, line: nat)
    ensures
        i <= string_end(s, i, line).0,
        line <= string_end(s, i, line).1,
        string_end(s, i, line).1 - line <= string_end(s, i, line).0 - i,
        i <= s.len() ==> string_end(s, i, line).0 <= s.len(),
        !ended(s, string_end(s, i, line).0 as int) ==> string_end(s, i, line).0 < s.len()
            && s[string_end(s, i, line).0 as int] == '"',
    decreases s.len() - i,
{
    if !(ended(s, i as int) || s[i as int] == '"') {
        if s[i as int] == '\n' {
            lemma_string_end(s, i + 1, line + 1);
        } else {
            lemma_string_end(s, i + 1, line);
        }
    }
}

/// Each token but the end-of-file token moves past at least one character,
/// never past the end of the text, and lines advance no faster than
/// positions.
pub proof fn lemma_scan_token_progress(s: Seq<char>, i: nat, line: nat)
    requires
        i <= s.len(),
    ensures
        spec_scan_token(s, i, line).0.ttype != TokenType::EoF ==> i < spec_scan_token(s, i, line).1,
        spec_scan_token(s, i, line).0.ttype == TokenType::EoF ==> ended(s, spec_scan_token(s, i, line).1 as int),
        i <= spec_scan_token(s, i, line).1 <= s.len(),
        line <= spec_scan_token(s, i, line).2,
        spec_scan_token(s, i, line).2 - line <= spec_scan_token(s, i, line).1 - i,
        spec_scan_token(s, i, line).0.line == spec_scan_token(s, i, line).2,
{
    lemma_skip_layout(s, i, line);
    let (p, l) = skip_layout(s, i, line);
    if !ended(s, p as int) {
        let c = s[p as int];
        lemma_digits_end(s, p + 1);
        lemma_ident_end(s, p + 1);
        lemma_string_end(s, p + 1, l);
        if spec_single_char(c) is Some {
        } else if is_operator_start(c) {
        } else if c == '"' {
        } else if numeric(c) {
            let d = digits_end(s, p + 1);
            if peek_at(s, d as int) == '.' && is_digit_char(peek_at(s, d + 1 as int)) {
                lemma_digits_end(s, d + 1);
            }
        }
    }
}

/// The tokens of the text from position `i` on line `line`, up to and
/// including the end-of-file token.
pub open spec fn spec_scan_from(s: Seq<char>, i: nat, line: nat) -> Seq<SpecToken>
    decreases s.len() + 1 - i,
{
    if i > s.len() {
        Seq::empty()
    } else {
        let (t, p, l) = spec_scan_token(s, i, line);
        if t.ttype == TokenType::EoF {
            seq![t]
        } else {
            proof {
                lemma_scan_token_progress(s, i, line);
            }
            seq![t] + spec_scan_from(s, p, l)
        }
    }
}

/// The tokens of a whole text, which starts on line 1.
pub open spec fn spec_scan(s: Seq<char>) -> Seq<SpecToken> {
    spec_scan_from(s, 0, 1)
}

/// Scanning from any position yields a list that ends with the one and only
/// end-of-file token, whose line numbers never go down and start no lower
/// than the line scanning started on.
pub proof fn lemma_scan_from_shape(s: Seq<char>, i: nat, line: nat)
    requires
        i <= s.len(),
    ensures
        spec_scan_from(s, i, line).len() >= 1,
        spec_scan_from(s, i, line).last().ttype == TokenType::EoF,
        forall|k: int|
            0 <= k < spec_scan_from(s, i, line).len() - 1 ==> #[trigger] spec_scan_from(s, i, line)[k].ttype
                != TokenType::EoF,
        forall|k: int|
            0 <= k < spec_scan_from(s, i, line).len() ==> line <= #[trigger] spec_scan_from(s, i, line)[k].line,
        forall|k: int, m: int|
            0 <= k <= m < spec_scan_from(s, i, line).len() ==> #[trigger] spec_scan_from(s, i, line)[k].line
                <= #[trigger] spec_scan_from(s, i, line)[m].line,
    decreases s.len() + 1 - i,
{
    lemma_scan_token_progress(s, i, line);
    let (t, p, l) = spec_scan_token(s, i, line);
    if t.ttype != TokenType::EoF {
        lemma_scan_from_shape(s, p, l);
        let rest = spec_scan_from(s, p, l);
        let all = spec_scan_from(s, i, line);
        assert(all == seq![t] + rest);
        assert forall|k: int| 0 <= k < all.len() - 1 implies #[trigger] all[k].ttype != TokenType::EoF by {
            if k > 0 {
                assert(all[k] == rest[k - 1]);
            }
        }
        assert forall|k: int| 0 <= k < all.len() implies line <= #[trigger] all[k].line by {
            if k > 0 {
                assert(all[k] == rest[k - 1]);
            }
        }
        assert forall|k: int, m: int| 0 <= k <= m < all.len() implies #[trigger] all[k].line <= #[trigger] all[m].line by {
            if k > 0 {
                assert(all[k] == rest[k - 1]);
            }
            if m > 0 {
                assert(all[m] == rest[m - 1]);
            }
        }
    }
}

/// The tokens of a text end with its one end-of-file token, and their line
/// numbers start at 1 and never go down.
pub proof fn law_scan_shape(s: Seq<char>)
    ensures
        spec_scan(s).len() >= 1,
        spec_scan(s).last().ttype == TokenType::EoF,
        forall|k: int| 0 <= k < spec_scan(s).len() - 1 ==> #[trigger] spec_scan(s)[k].ttype != TokenType::EoF,
        forall|k: int| 0 <= k < spec_scan(s).len() ==> 1 <= #[trigger] spec_scan(s)[k].line,
        forall|k: int, m: int|
            0 <= k <= m < spec_scan(s).len() ==> #[trigger] spec_scan(s)[k].line <= #[trigger] spec_scan(s)[m].line,
{
    lemma_scan_from_shape(s, 0, 1);
}

/// The views of a list of tokens.
pub open spec fn token_views(tokens: Seq<Token>) -> Seq<SpecToken> {
    tokens.map_values(|t: Token| t@)
}

/// Turns source text into tokens.
pub struct Scanner {
    source: Vec<char>,
    start: usize,
    current: usize,
    line: usize,
}

impl Scanner {
    /// The scanner's invariant: positions within the text, and a line
    /// number that cannot outgrow the position.
    pub closed spec fn wf(&self) -> bool {
        &&& self.source@.len() < usize::MAX
        &&& self.start <= self.current <= self.source@.len()
        &&& 1 <= self.line <= self.current + 1
    }

    pub closed spec fn text(&self) -> Seq<char> {
        self.source@
    }

    pub closed spec fn pos(&self) -> nat {
        self.current as nat
    }

    pub closed spec fn line_no(&self) -> nat {
        self.line as nat
    }

    pub fn new(source: String) -> (sc: Scanner)
        requires
            source@.len() < usize::MAX,
        ensures
            sc.wf(),
            sc.text() == source@,
            sc.pos() == 0,
            sc.line_no() == 1,
    {
        let chars = str_chars(source.as_str());
        Scanner { source: chars, start: 0, current: 0, line: 1 }
    }

    fn is_at_end(&self) -> (r: bool)
        requires
            self.wf(),
        ensures
            r == ended(self.source@, self.current as int),
    {
        self.peek(0) == '\0'
    }

    fn peek(&self, offset: usize) -> (c: char)
        requires
            self.wf(),
        ensures
            c == peek_at(self.source@, self.current + offset),
    {
        if offset >= self.source.len() - self.current {
            '\0'
        } else {
            self.source[self.current + offset]
        }
    }

    fn advance(&mut self) -> (c: char)
        requires
            old(self).wf(),
            old(self).current < old(self).source@.len(),
            old(self).line <= old(self).current + 1,
        ensures
            final(self).wf(),
            final(self).source == old(self).source,
            final(self).start == old(self).start,
            final(self).line == old(self).line,
            final(self).current == old(self).current + 1,
            c == old(self).source@[old(self).current as int],
    {
        self.current = self.current + 1;
        self.source[self.current - 1]
    }

    fn match_char(&mut self, expected: char) -> (r: bool)
        requires
            old(self).wf(),
        ensures
            final(self).wf(),
            final(self).source == old(self).source,
            final(self).start == old(self).start,
            final(self).line == old(self).line,
            r == (!ended(old(self).source@, old(self).current as int) && peek_at(
                old(self).source@,
                old(self).current as int,
            ) == expected),
            final(self).current == old(self).current + if r { 1int } else { 0int },
    {
        if self.is_at_end() {
            return false;
        }
        if self.peek(0) != expected {
            return false;
        }
        self.advance();
        true
    }

    fn make_token(&self, ttype: TokenType) -> (t: Token)
        requires
            self.wf(),
        ensures
            t@ == mk_token(ttype, self.line as nat, self.source@.subrange(self.start as int, self.current as int)),
    {
        let mut text = String::new();
        let mut i: usize = self.start;
        while i < self.current
            invariant
                self.wf(),
                self.start <= i <= self.current,
                text@ == self.source@.subrange(self.start as int, i as int),
            decreases self.current - i,
        {
            string_push(&mut text, self.source[i]);
            assert(text@ =~= self.source@.subrange(self.start as int, i + 1));
            i = i + 1;
        }
        Token { ttype, line: self.line, text }
    }

    fn error_token(&self, message: &str) -> (t: Token)
        ensures
            t@ == mk_token(TokenType::Error, self.line as nat, message@),
    {
        Token { ttype: TokenType::Error, line: self.line, text: String::from_str(message) }
    }

    fn handle_comment(&mut self)
        requires
            old(self).wf(),
        ensures
            final(self).wf(),
            final(self).source == old(self).source,
            final(self).start == old(self).start,
            final(self).line == old(self).line,
            if !ended(old(self).source@, old(self).current as int) && old(self).source@[old(self).current as int] == '?' {
                final(self).current == comment_end(old(self).source@, (old(self).current + 1) as nat)
            } else {
                final(self).current == old(self).current
            },
    {
        if !self.match_char('?') {
            return;
        }
        while !self.is_at_end() && self.peek(0) != '\n'
            invariant
                self.wf(),
                self.source == old(self).source,
                self.start == old(self).start,
                self.line == old(self).line,
                old(self).current < self.current,
                comment_end(self.source@, self.current as nat) == comment_end(
                    old(self).source@,
                    (old(self).current + 1) as nat,
                ),
            decreases self.source@.len() - self.current,
        {
            self.advance();
        }
    }

    fn handle_comments_and_whitespace(&mut self)
        requires
            old(self).wf(),
        ensures
            final(self).wf(),
            final(self).source == old(self).source,
            final(self).start == old(self).start,
            (final(self).current as nat, final(self).line as nat) == skip_layout(
                old(self).source@,
                old(self).current as nat,
                old(self).line as nat,
            ),
    {
        while !self.is_at_end()
            invariant
                self.wf(),
                self.source == old(self).source,
                self.start == old(self).start,
                skip_layout(self.source@, self.current as nat, self.line as nat) == skip_layout(
                    old(self).source@,
                    old(self).current as nat,
                    old(self).line as nat,
                ),
            ensures
                (self.current as nat, self.line as nat) == skip_layout(
                    self.source@,
                    self.current as nat,
                    self.line as nat,
                ),
            decreases self.source@.len() - self.current,
        {
            let c = self.peek(0);
            if c == '\n' {
                self.advance();
                self.line = self.line + 1;
            } else if c == '?' {
                let ghost before = self.current;
                self.handle_comment();
                proof {
                    lemma_comment_end(self.source@, (before + 1) as nat);
                }
                if !self.is_at_end() {
                    self.advance();
                    self.line = self.line + 1;
                }
            } else if !char_is_layout(c) {
                break;
            } else {
                self.advance();
            }
        }
    }

    fn read_string(&mut self) -> (t: Token)
        requires
            old(self).wf(),
            old(self).start < old(self).current,
            old(self).current == old(self).start + 1,
            old(self).line <= old(self).start + 1,
        ensures
            final(self).wf(),
            final(self).source == old(self).source,
            final(self).start == old(self).start,
            (t@, final(self).current as nat, final(self).line as nat) == spec_read_string(
                old(self).source@,
                old(self).start as nat,
                old(self).line as nat,
            ),
    {
        while !self.is_at_end() && self.peek(0) != '"'
            invariant
                self.wf(),
                self.source == old(self).source,
                self.start == old(self).start,
                self.start < self.current,
                self.line <= self.current,
                string_end(self.source@, self.current as nat, self.line as nat) == string_end(
                    old(self).source@,
                    old(self).current as nat,
                    old(self).line as nat,
                ),
            decreases self.source@.len() - self.current,
        {
            let is_newline = self.peek(0) == '\n';
            self.advance();
            if is_newline {
                self.line = self.line + 1;
            }
        }
        if self.is_at_end() {
            return self.error_token("Unterminated string");
        }
        self.advance();
        self.make_token(TokenType::Str)
    }

    fn read_number(&mut self) -> (t: Token)
        requires
            old(self).wf(),
            old(self).current == old(self).start + 1,
        ensures
            final(self).wf(),
            final(self).source == old(self).source,
            final(self).start == old(self).start,
            final(self).line == old(self).line,
            (t@, final(self).current as nat, final(self).line as nat) == spec_read_number(
                old(self).source@,
                old(self).start as nat,
                old(self).line as nat,
            ),
    {
        while char_is_digit(self.peek(0))
            invariant
                self.wf(),
                self.source == old(self).source,
                self.start == old(self).start,
                self.line == old(self).line,
                old(self).current <= self.current,
                digits_end(self.source@, self.current as nat) == digits_end(
                    old(self).source@,
                    old(self).current as nat,
                ),
            decreases self.source@.len() - self.current,
        {
            self.advance();
        }
        if self.peek(0) == '.' && char_is_digit(self.peek(1)) {
            self.advance();
            while char_is_digit(self.peek(0))
                invariant
                    self.wf(),
                    self.source == old(self).source,
                    self.start == old(self).start,
                    self.line == old(self).line,
                    digits_end(self.source@, self.current as nat) == digits_end(
                        old(self).source@,
                        (digits_end(old(self).source@, old(self).current as nat) + 1) as nat,
                    ),
                decreases self.source@.len() - self.current,
            {
                self.advance();
            }
            return self.make_token(TokenType::Float);
        }
        self.make_token(TokenType::Int)
    }

    fn read_ident_or_keyword(&mut self) -> (t: Token)
        requires
            old(self).wf(),
            old(self).current == old(self).start + 1,
        ensures
            final(self).wf(),
            final(self).source == old(self).source,
            final(self).start == old(self).start,
            final(self).line == old(self).line,
            (t@, final(self).current as nat, final(self).line as nat) == spec_read_word(
                old(self).source@,
                old(self).start as nat,
                old(self).line as nat,
            ),
    {
        // NUL is neither alphabetic nor numeric; testing for the end first
        // keeps the scan inside the text.
        while !self.is_at_end() && (char_is_alphanumeric(self.peek(0)) || self.peek(0) == '_')
            invariant
                self.wf(),
                self.source == old(self).source,
                self.start == old(self).start,
                self.line == old(self).line,
                old(self).current <= self.current,
                ident_end(self.source@, self.current as nat) == ident_end(
                    old(self).source@,
                    old(self).current as nat,
                ),
            decreases self.source@.len() - self.current,
        {
            self.advance();
        }
        let text = self.make_token(TokenType::Ident);
        let chars = str_chars(text.text.as_str());
        let ttype = TokenType::keyword_or_ident_chars(chars.as_slice());
        Token { ttype, line: self.line, text: text.text }
    }

    fn scan_token(&mut self) -> (t: Token)
        requires
            old(self).wf(),
        ensures
            final(self).wf(),
            final(self).source == old(self).source,
            (t@, final(self).current as nat, final(self).line as nat) == spec_scan_token(
                old(self).source@,
                old(self).current as nat,
                old(self).line as nat,
            ),
    {
        self.handle_comments_and_whitespace();
        self.start = self.current;
        proof {
            lemma_skip_layout(old(self).source@, old(self).current as nat, old(self).line as nat);
        }
        if self.is_at_end() {
            let t = self.make_token(TokenType::EoF);
            assert(self.source@.subrange(self.start as int, self.current as int) =~= Seq::<char>::empty());
            return t;
        }
        let c = self.advance();
        if let Option::Some(ttype) = TokenType::single_char_keyword(c) {
            return self.make_token(ttype);
        }
        if c == '!' {
            let is_neq = self.match_char('=');
            return self.make_token(if is_neq { TokenType::NEq } else { TokenType::Bang });
        } else if c == '>' {
            let is_geq = self.match_char('=');
            return self.make_token(if is_geq { TokenType::GEq } else { TokenType::GT });
        } else if c == '<' {
            let is_leq = self.match_char('=');
            return self.make_token(if is_leq { TokenType::LEq } else { TokenType::LT });
        } else if c == ':' {
            let is_assign = self.match_char('=');
            return self.make_token(if is_assign { TokenType::Assign } else { TokenType::Colon });
        } else if c == '-' {
            let is_right_arrow = self.match_char('>');
            return self.make_token(if is_right_arrow { TokenType::RightArrow } else { TokenType::Minus });
        }
        if c == '"' {
            return self.read_string();
        }
        if char_is_numeric(c) {
            return self.read_number();
        }
        if char_is_alphabetic(c) || c == '_' {
            return self.read_ident_or_keyword();
        }
        self.error_token("Unexpected character")
    }

    /// Scans the rest of the text: every token up to and including the
    /// end-of-file token.
    pub fn scan(&mut self) -> (tokens: Vec<Token>)
        requires
            old(self).wf(),
        ensures
            token_views(tokens@) == spec_scan_from(old(self).text(), old(self).pos(), old(self).line_no()),
    {
        let mut tokens: Vec<Token> = Vec::new();
        loop
            invariant
                self.wf(),
                self.source == old(self).source,
                token_views(tokens@) + spec_scan_from(self.source@, self.current as nat, self.line as nat)
                    == spec_scan_from(old(self).source@, old(self).current as nat, old(self).line as nat),
            decreases self.source@.len() + 1 - self.current,
        {
            let ghost cur = self.current as nat;
            let ghost ln = self.line as nat;
            proof {
                lemma_scan_token_progress(self.source@, cur, ln);
            }
            let token = self.scan_token();
            let ghost tv = token@;
            if token.ttype == TokenType::EoF {
                tokens.push(token);
                assert(token_views(tokens@) =~= token_views(tokens@.drop_last()).push(tv));
                return tokens;
            }
            tokens.push(token);
            assert(token_views(tokens@) =~= token_views(tokens@.drop_last()).push(tv));
        }
    }
}

/// The tokens of a source text.
pub fn scan(source: String) -> (tokens: Vec<Token>)
    requires
        source@.len() < usize::MAX,
    ensures
        token_views(tokens@) == spec_scan(source@),
{
    let mut scanner = Scanner::new(source);
    scanner.scan()
}

} // verus!
