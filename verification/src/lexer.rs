//! The lexer: source text to a token stream. Keywords, identifiers, integer
//! literals, comments, and longest-match operator scanning, specified
//! exactly by the `slex` mirror over the character sequence.

use crate::text::str_eq;
use vstd::prelude::*;
use vstd::string::StrSliceExecFns;

verus! {

/// Token of the source language, as emitted by the lexer.
#[derive(Clone, Debug, PartialEq, Eq)]
pub enum Token {
    /// Literal "int"
    KeywordInt,
    /// Literal "return"
    KeywordReturn,
    /// Literal "bingus" (the debug-print intrinsic)
    KeywordBingus,
    /// Literal "if"
    KeywordIf,
    /// Literal "else"
    KeywordElse,
    /// Literal "while"
    KeywordWhile,
    /// Literal "for"
    KeywordFor,
    /// Literal "do"
    KeywordDo,
    /// Literal "break"
    KeywordBreak,
    /// Literal "continue"
    KeywordContinue,
    /// An identifier, such as `main`
    Identifier(String),
    /// An integer literal
    IntLiteral(i32),
    /// A character literal
    CharLiteral(char),
    /// `(`
    LParen,
    /// `)`
    RParen,
    /// `{`
    LBrace,
    /// `}`
    RBrace,
    /// `;`
    Semicolon,
    /// `-`
    Minus,
    /// `~`
    Tilde,
    /// `!`
    Bang,
    /// `+`
    Plus,
    /// `*`
    Asterisk,
    /// `/`
    Slash,
    /// `&`
    And,
    /// `&=`
    AndEqual,
    /// `|`
    Or,
    /// `|=`
    OrEqual,
    /// `^`
    Xor,
    /// `^=`
    XorEqual,
    /// `<<`
    ShiftLeft,
    /// `<<=`
    ShiftLeftEqual,
    /// `>>`
    ShiftRight,
    /// `>>=`
    ShiftRightEqual,
    /// `%`
    Modulo,
    /// `%=`
    ModuloEqual,
    /// `&&`
    AndAnd,
    /// `||`
    OrOr,
    /// `==`
    EqualEqual,
    /// `!=`
    BangEqual,
    /// `<`
    Less,
    /// `<=`
    LessEqual,
    /// `>`
    Greater,
    /// `>=`
    GreaterEqual,
    /// `+=`
    PlusEqual,
    /// `-=`
    MinusEqual,
    /// `*=`
    AsteriskEqual,
    /// `/=`
    SlashEqual,
    /// `,`
    Comma,
    /// `++`
    PlusPlus,
    /// `--`
    MinusMinus,
    /// `=`
    Equal,
    /// `?`
    QuestionMark,
    /// `:`
    Colon,
}

/// The abstract value of a token: identifier names by their characters.
pub enum TokenV {
    Ident(Seq<char>),
    Other(Token),
}

impl View for Token {
    type V = TokenV;

    open spec fn view(&self) -> TokenV {
        match self {
            Token::Identifier(n) => TokenV::Ident(n@),
            _ => TokenV::Other(*self),
        }
    }
}

/// The abstract values of a token list.
pub open spec fn tviews(s: Seq<Token>) -> Seq<TokenV> {
    Seq::new(s.len(), |i: int| s[i]@)
}

/// Why lexing failed.
#[derive(Debug, Clone, Copy, PartialEq, Eq, Structural)]
pub enum LexError {
    /// A `/* ... */` comment was never closed.
    UnterminatedBlockComment,
    /// An integer literal does not fit the word width.
    InvalidInteger,
    /// A character that starts no token.
    UnrecognizedCharacter,
}

/// What `char::is_whitespace` holds of a character; the result depends on
/// the character alone.
pub uninterp spec fn is_whitespace_char(c: char) -> bool;

/// What `char::is_alphabetic` holds of a character; the result depends on
/// the character alone.
pub uninterp spec fn is_alphabetic_char(c: char) -> bool;

/// What `char::is_alphanumeric` holds of a character; the result depends on
/// the character alone.
pub uninterp spec fn is_alphanumeric_char(c: char) -> bool;

/// Relies on char::is_whitespace, a classification of the character alone.
#[verifier::external_body]
fn char_is_whitespace(c: char) -> (r: bool)
    ensures
        r == is_whitespace_char(c),
{
    c.is_whitespace()
}

/// Relies on char::is_alphabetic, a classification of the character alone.
#[verifier::external_body]
fn char_is_alphabetic(c: char) -> (r: bool)
    ensures
        r == is_alphabetic_char(c),
{
    c.is_alphabetic()
}

/// Relies on char::is_alphanumeric, a classification of the character
/// alone.
#[verifier::external_body]
fn char_is_alphanumeric(c: char) -> (r: bool)
    ensures
        r == is_alphanumeric_char(c),
{
    c.is_alphanumeric()
}

/// Relies on String::push: appends one character.
#[verifier::external_body]
fn push_char(s: &mut String, c: char)
    ensures
        final(s)@ == old(s)@.push(c),
{
    s.push(c);
}

/// A valid identifier character: a letter or digit, or an underscore.
pub open spec fn is_ident_char(c: char) -> bool {
    is_alphanumeric_char(c) || c == '_'
}

/// An ASCII decimal digit.
pub open spec fn is_digit_char(c: char) -> bool {
    48 <= (c as u32) <= 57
}

/// The end of the run of identifier characters starting at `i`.
pub open spec fn scan_ident(s: Seq<char>, i: int) -> int
    decreases s.len() - i,
{
    if i < 0 || i >= s.len() || !is_ident_char(s[i]) {
        i
    } else {
        scan_ident(s, i + 1)
    }
}

/// The end of the run of digits starting at `i`.
pub open spec fn scan_digits(s: Seq<char>, i: int) -> int
    decreases s.len() - i,
{
    if i < 0 || i >= s.len() || !is_digit_char(s[i]) {
        i
    } else {
        scan_digits(s, i + 1)
    }
}

/// The position of the next newline at or after `i`, or the end of input.
pub open spec fn skip_line(s: Seq<char>, i: int) -> int
    decreases s.len() - i,
{
    if i < 0 || i >= s.len() {
        s.len() as int
    } else if s[i] == '\n' {
        i
    } else {
        skip_line(s, i + 1)
    }
}

/// The position just past the first `*/` at or after `i`, if any.
pub open spec fn find_close(s: Seq<char>, i: int) -> Option<int>
    decreases s.len() - i,
{
    if i < 0 || i >= s.len() {
        Option::None
    } else if s[i] == '*' && i + 1 < s.len() && s[i + 1] == '/' {
        Option::Some(i + 2)
    } else {
        find_close(s, i + 1)
    }
}

/// The value of a run of decimal digits.
pub open spec fn digits_val(w: Seq<char>) -> int
    decreases w.len(),
{
    if w.len() == 0 {
        0
    } else {
        digits_val(w.drop_last()) * 10 + (w.last() as u32) - 48
    }
}

/// The keyword a word lexes to, or an identifier token for any other word.
pub open spec fn word_token(w: Seq<char>) -> TokenV {
    if w == "bingus"@ {
        TokenV::Other(Token::KeywordBingus)
    } else if w == "int"@ {
        TokenV::Other(Token::KeywordInt)
    } else if w == "return"@ {
        TokenV::Other(Token::KeywordReturn)
    } else if w == "if"@ {
        TokenV::Other(Token::KeywordIf)
    } else if w == "else"@ {
        TokenV::Other(Token::KeywordElse)
    } else if w == "while"@ {
        TokenV::Other(Token::KeywordWhile)
    } else if w == "for"@ {
        TokenV::Other(Token::KeywordFor)
    } else if w == "do"@ {
        TokenV::Other(Token::KeywordDo)
    } else if w == "break"@ {
        TokenV::Other(Token::KeywordBreak)
    } else if w == "continue"@ {
        TokenV::Other(Token::KeywordContinue)
    } else {
        TokenV::Ident(w)
    }
}

/// The three-character operators.
pub open spec fn op_lookup3(a: char, b: char, c: char) -> Option<Token> {
    if a == '>' && b == '>' && c == '=' {
        Option::Some(Token::ShiftRightEqual)
    } else if a == '<' && b == '<' && c == '=' {
        Option::Some(Token::ShiftLeftEqual)
    } else {
        Option::None
    }
}

/// The two-character operators.
pub open spec fn op_lookup2(a: char, b: char) -> Option<Token> {
    if a == '+' && b == '+' {
        Option::Some(Token::PlusPlus)
    } else if a == '-' && b == '-' {
        Option::Some(Token::MinusMinus)
    } else if a == '+' && b == '=' {
        Option::Some(Token::PlusEqual)
    } else if a == '-' && b == '=' {
        Option::Some(Token::MinusEqual)
    } else if a == '/' && b == '=' {
        Option::Some(Token::SlashEqual)
    } else if a == '*' && b == '=' {
        Option::Some(Token::AsteriskEqual)
    } else if a == '=' && b == '=' {
        Option::Some(Token::EqualEqual)
    } else if a == '!' && b == '=' {
        Option::Some(Token::BangEqual)
    } else if a == '>' && b == '=' {
        Option::Some(Token::GreaterEqual)
    } else if a == '<' && b == '=' {
        Option::Some(Token::LessEqual)
    } else if a == '&' && b == '&' {
        Option::Some(Token::AndAnd)
    } else if a == '|' && b == '|' {
        Option::Some(Token::OrOr)
    } else if a == '%' && b == '=' {
        Option::Some(Token::ModuloEqual)
    } else if a == '&' && b == '=' {
        Option::Some(Token::AndEqual)
    } else if a == '^' && b == '=' {
        Option::Some(Token::XorEqual)
    } else if a == '>' && b == '>' {
        Option::Some(Token::ShiftRight)
    } else if a == '<' && b == '<' {
        Option::Some(Token::ShiftLeft)
    } else if a == '|' && b == '=' {
        Option::Some(Token::OrEqual)
    } else {
        Option::None
    }
}

/// The one-character operators.
pub open spec fn op_lookup1(a: char) -> Option<Token> {
    if a == '+' {
        Option::Some(Token::Plus)
    } else if a == '-' {
        Option::Some(Token::Minus)
    } else if a == '*' {
        Option::Some(Token::Asterisk)
    } else if a == '/' {
        Option::Some(Token::Slash)
    } else if a == '=' {
        Option::Some(Token::Equal)
    } else if a == '!' {
        Option::Some(Token::Bang)
    } else if a == '~' {
        Option::Some(Token::Tilde)
    } else if a == '>' {
        Option::Some(Token::Greater)
    } else if a == '<' {
        Option::Some(Token::Less)
    } else if a == ',' {
        Option::Some(Token::Comma)
    } else if a == ';' {
        Option::Some(Token::Semicolon)
    } else if a == '(' {
        Option::Some(Token::LParen)
    } else if a == ')' {
        Option::Some(Token::RParen)
    } else if a == '{' {
        Option::Some(Token::LBrace)
    } else if a == '}' {
        Option::Some(Token::RBrace)
    } else if a == '%' {
        Option::Some(Token::Modulo)
    } else if a == '&' {
        Option::Some(Token::And)
    } else if a == '|' {
        Option::Some(Token::Or)
    } else if a == '^' {
        Option::Some(Token::Xor)
    } else if a == '?' {
        Option::Some(Token::QuestionMark)
    } else if a == ':' {
        Option::Some(Token::Colon)
    } else {
        Option::None
    }
}

/// Longest-match operator scan at position `i`: the token and the position
/// after it.
pub open spec fn op_scan(s: Seq<char>, i: int) -> Option<(Token, int)> {
    if i + 2 < s.len() && op_lookup3(s[i], s[i + 1], s[i + 2]) is Some {
        Option::Some((op_lookup3(s[i], s[i + 1], s[i + 2])->Some_0, i + 3))
    } else if i + 1 < s.len() && op_lookup2(s[i], s[i + 1]) is Some {
        Option::Some((op_lookup2(s[i], s[i + 1])->Some_0, i + 2))
    } else if op_lookup1(s[i]) is Some {
        Option::Some((op_lookup1(s[i])->Some_0, i + 1))
    } else {
        Option::None
    }
}

proof fn lemma_scan_ident_bounds(s: Seq<char>, i: int)
    requires
        0 <= i <= s.len(),
    ensures
        i <= scan_ident(s, i) <= s.len(),
    decreases s.len() - i,
{
    if i < s.len() && is_ident_char(s[i]) {
        lemma_scan_ident_bounds(s, i + 1);
    }
}

proof fn lemma_scan_digits_bounds(s: Seq<char>, i: int)
    requires
        0 <= i <= s.len(),
    ensures
        i <= scan_digits(s, i) <= s.len(),
    decreases s.len() - i,
{
    if i < s.len() && is_digit_char(s[i]) {
        lemma_scan_digits_bounds(s, i + 1);
    }
}

proof fn lemma_skip_line_bounds(s: Seq<char>, i: int)
    requires
        0 <= i <= s.len(),
    ensures
        i <= skip_line(s, i) <= s.len(),
    decreases s.len() - i,
{
    if i < s.len() && s[i] != '\n' {
        lemma_skip_line_bounds(s, i + 1);
    }
}

proof fn lemma_find_close_bounds(s: Seq<char>, i: int)
    requires
        0 <= i <= s.len(),
    ensures
        find_close(s, i) matches Option::Some(j) ==> i + 2 <= j <= s.len(),
    decreases s.len() - i,
{
    if i < s.len() && !(s[i] == '*' && i + 1 < s.len() && s[i + 1] == '/') {
        lemma_find_close_bounds(s, i + 1);
    }
}

proof fn lemma_scan_digits_chars(s: Seq<char>, i: int)
    requires
        0 <= i <= s.len(),
    ensures
        forall|q: int| i <= q < scan_digits(s, i) ==> is_digit_char(s[q]),
    decreases s.len() - i,
{
    if i < s.len() && is_digit_char(s[i]) {
        lemma_scan_digits_bounds(s, i + 1);
        lemma_scan_digits_chars(s, i + 1);
    }
}

#[via_fn]
proof fn slex_decreases(s: Seq<char>, i: int) {
    if 0 <= i < s.len() {
        lemma_scan_ident_bounds(s, i + 1);
        if is_digit_char(s[i]) {
            lemma_scan_digits_bounds(s, i + 1);
            assert(scan_digits(s, i) == scan_digits(s, i + 1));
        }
        if i + 2 <= s.len() {
            lemma_skip_line_bounds(s, i + 2);
            lemma_find_close_bounds(s, i + 2);
        }
    }
}

/// The exact lexing of the input from position `i` on: whitespace skipped;
/// a word starting with a letter or underscore becomes a keyword or
/// identifier; a digit run becomes an integer literal if it fits the word
/// width; comments are skipped; otherwise the longest matching operator.
pub open spec fn slex(s: Seq<char>, i: int) -> Result<Seq<TokenV>, LexError>
    decreases s.len() - i,
        via slex_decreases
{
    if i < 0 || i >= s.len() {
        Ok(Seq::empty())
    } else if is_whitespace_char(s[i]) {
        slex(s, i + 1)
    } else if is_alphabetic_char(s[i]) || s[i] == '_' {
        let j = scan_ident(s, i + 1);
        match slex(s, j) {
            Ok(rest) => Ok(seq![word_token(s.subrange(i, j))] + rest),
            Err(er) => Err(er),
        }
    } else if is_digit_char(s[i]) {
        let j = scan_digits(s, i);
        let v = digits_val(s.subrange(i, j));
        if v > i32::MAX {
            Err(LexError::InvalidInteger)
        } else {
            match slex(s, j) {
                Ok(rest) => Ok(seq![TokenV::Other(Token::IntLiteral(v as i32))] + rest),
                Err(er) => Err(er),
            }
        }
    } else if s[i] == '/' && i + 1 < s.len() && s[i + 1] == '/' {
        slex(s, skip_line(s, i + 2))
    } else if s[i] == '/' && i + 1 < s.len() && s[i + 1] == '*' {
        match find_close(s, i + 2) {
            Option::None => Err(LexError::UnterminatedBlockComment),
            Option::Some(j) => slex(s, j),
        }
    } else {
        match op_scan(s, i) {
            Option::Some((t, j)) => match slex(s, j) {
                Ok(rest) => Ok(seq![TokenV::Other(t)] + rest),
                Err(er) => Err(er),
            },
            Option::None => Err(LexError::UnrecognizedCharacter),
        }
    }
}

fn str_chars(s: &str) -> (r: Vec<char>)
    ensures
        r@ == s@,
{
    let n = s.unicode_len();
    let mut v: Vec<char> = Vec::new();
    let mut i: usize = 0;
    while i < n
        invariant
            n == s@.len(),
            i <= n,
            v@ == s@.subrange(0, i as int),
        decreases n - i,
    {
        v.push(s.get_char(i));
        proof {
            assert(v@ =~= s@.subrange(0, i + 1 as int));
        }
        i += 1;
    }
    proof {
        assert(v@ =~= s@);
    }
    v
}

fn is_ident_char_exec(c: char) -> (r: bool)
    ensures
        r == is_ident_char(c),
{
    if char_is_alphanumeric(c) {
        true
    } else {
        c == '_'
    }
}

fn is_digit_exec(c: char) -> (r: bool)
    ensures
        r == is_digit_char(c),
{
    let u = c as u32;
    48 <= u && u <= 57
}

fn scan_ident_exec(chars: &Vec<char>, i: usize) -> (r: usize)
    requires
        i <= chars@.len(),
    ensures
        r == scan_ident(chars@, i as int),
        i <= r <= chars@.len(),
    decreases chars@.len() - i,
{
    if i < chars.len() && is_ident_char_exec(chars[i]) {
        scan_ident_exec(chars, i + 1)
    } else {
        i
    }
}

fn scan_digits_exec(chars: &Vec<char>, i: usize) -> (r: usize)
    requires
        i <= chars@.len(),
    ensures
        r == scan_digits(chars@, i as int),
        i <= r <= chars@.len(),
    decreases chars@.len() - i,
{
    if i < chars.len() && is_digit_exec(chars[i]) {
        scan_digits_exec(chars, i + 1)
    } else {
        i
    }
}

fn op_lookup3_exec(a: char, b: char, c: char) -> (r: Option<Token>)
    ensures
        r == op_lookup3(a, b, c),
{
    if a == '>' && b == '>' && c == '=' {
        Option::Some(Token::ShiftRightEqual)
    } else if a == '<' && b == '<' && c == '=' {
        Option::Some(Token::ShiftLeftEqual)
    } else {
        Option::None
    }
}

fn op_lookup2_exec(a: char, b: char) -> (r: Option<Token>)
    ensures
        r == op_lookup2(a, b),
{
    if a == '+' && b == '+' {
        Option::Some(Token::PlusPlus)
    } else if a == '-' && b == '-' {
        Option::Some(Token::MinusMinus)
    } else if a == '+' && b == '=' {
        Option::Some(Token::PlusEqual)
    } else if a == '-' && b == '=' {
        Option::Some(Token::MinusEqual)
    } else if a == '/' && b == '=' {
        Option::Some(Token::SlashEqual)
    } else if a == '*' && b == '=' {
        Option::Some(Token::AsteriskEqual)
    } else if a == '=' && b == '=' {
        Option::Some(Token::EqualEqual)
    } else if a == '!' && b == '=' {
        Option::Some(Token::BangEqual)
    } else if a == '>' && b == '=' {
        Option::Some(Token::GreaterEqual)
    } else if a == '<' && b == '=' {
        Option::Some(Token::LessEqual)
    } else if a == '&' && b == '&' {
        Option::Some(Token::AndAnd)
    } else if a == '|' && b == '|' {
        Option::Some(Token::OrOr)
    } else if a == '%' && b == '=' {
        Option::Some(Token::ModuloEqual)
    } else if a == '&' && b == '=' {
        Option::Some(Token::AndEqual)
    } else if a == '^' && b == '=' {
        Option::Some(Token::XorEqual)
    } else if a == '>' && b == '>' {
        Option::Some(Token::ShiftRight)
    } else if a == '<' && b == '<' {
        Option::Some(Token::ShiftLeft)
    } else if a == '|' && b == '=' {
        Option::Some(Token::OrEqual)
    } else {
        Option::None
    }
}

fn op_lookup1_exec(a: char) -> (r: Option<Token>)
    ensures
        r == op_lookup1(a),
{
    if a == '+' {
        Option::Some(Token::Plus)
    } else if a == '-' {
        Option::Some(Token::Minus)
    } else if a == '*' {
        Option::Some(Token::Asterisk)
    } else if a == '/' {
        Option::Some(Token::Slash)
    } else if a == '=' {
        Option::Some(Token::Equal)
    } else if a == '!' {
        Option::Some(Token::Bang)
    } else if a == '~' {
        Option::Some(Token::Tilde)
    } else if a == '>' {
        Option::Some(Token::Greater)
    } else if a == '<' {
        Option::Some(Token::Less)
    } else if a == ',' {
        Option::Some(Token::Comma)
    } else if a == ';' {
        Option::Some(Token::Semicolon)
    } else if a == '(' {
        Option::Some(Token::LParen)
    } else if a == ')' {
        Option::Some(Token::RParen)
    } else if a == '{' {
        Option::Some(Token::LBrace)
    } else if a == '}' {
        Option::Some(Token::RBrace)
    } else if a == '%' {
        Option::Some(Token::Modulo)
    } else if a == '&' {
        Option::Some(Token::And)
    } else if a == '|' {
        Option::Some(Token::Or)
    } else if a == '^' {
        Option::Some(Token::Xor)
    } else if a == '?' {
        Option::Some(Token::QuestionMark)
    } else if a == ':' {
        Option::Some(Token::Colon)
    } else {
        Option::None
    }
}

fn digits_value(chars: &Vec<char>, i: usize, j: usize) -> (r: (bool, u64))
    requires
        i <= j <= chars@.len(),
        forall|q: int| i <= q < j ==> is_digit_char(chars@[q]),
    ensures
        r.0 <==> digits_val(chars@.subrange(i as int, j as int)) > i32::MAX,
        !r.0 ==> r.1 == digits_val(chars@.subrange(i as int, j as int)),
{
    let ghost s = chars@;
    let mut acc: u64 = 0;
    let mut too_big = false;
    let mut k: usize = i;
    while k < j
        invariant
            i <= k <= j <= s.len(),
            chars@ == s,
            forall|q: int| i <= q < j ==> is_digit_char(s[q]),
            !too_big ==> acc == digits_val(s.subrange(i as int, k as int)) && acc <= i32::MAX,
            too_big ==> digits_val(s.subrange(i as int, k as int)) > i32::MAX,
        decreases j - k,
    {
        let d = (chars[k] as u32) as u64;
        proof {
            assert(is_digit_char(s[k as int]));
            assert(s.subrange(i as int, k + 1 as int).drop_last() =~= s.subrange(
                i as int,
                k as int,
            ));
            assert(s.subrange(i as int, k + 1 as int).last() == s[k as int]);
        }
        if too_big {
            proof {
                assert(digits_val(s.subrange(i as int, k + 1 as int)) > i32::MAX);
            }
        } else {
            let next = acc * 10 + (d - 48);
            if next > 0x7fff_ffff {
                too_big = true;
            } else {
                acc = next;
            }
        }
        k += 1;
    }
    proof {
        assert(s.subrange(i as int, k as int) =~= s.subrange(i as int, j as int));
    }
    (too_big, acc)
}

fn skip_line_exec(chars: &Vec<char>, i: usize) -> (r: usize)
    requires
        i <= chars@.len(),
    ensures
        r == skip_line(chars@, i as int),
        i <= r <= chars@.len(),
    decreases chars@.len() - i,
{
    if i < chars.len() && chars[i] != '\n' {
        skip_line_exec(chars, i + 1)
    } else if i < chars.len() {
        i
    } else {
        i
    }
}

fn find_close_exec(chars: &Vec<char>, i: usize) -> (r: Option<usize>)
    requires
        i <= chars@.len(),
    ensures
        ({
            let f = find_close(chars@, i as int);
            &&& (r is Some <==> f is Some)
            &&& (r matches Option::Some(j) ==> f == Option::Some(j as int) && i + 2 <= j
                <= chars@.len())
        }),
    decreases chars@.len() - i,
{
    if i >= chars.len() {
        Option::None
    } else if chars[i] == '*' && i + 1 < chars.len() && chars[i + 1] == '/' {
        Option::Some(i + 2)
    } else {
        find_close_exec(chars, i + 1)
    }
}

fn word_string(chars: &Vec<char>, i: usize, j: usize) -> (r: String)
    requires
        i <= j <= chars@.len(),
    ensures
        r@ == chars@.subrange(i as int, j as int),
{
    let mut w = String::new();
    let mut k: usize = i;
    while k < j
        invariant
            i <= k <= j <= chars@.len(),
            w@ == chars@.subrange(i as int, k as int),
        decreases j - k,
    {
        push_char(&mut w, chars[k]);
        proof {
            assert(w@ =~= chars@.subrange(i as int, k + 1 as int));
        }
        k += 1;
    }
    w
}

fn keyword_or_ident(w: String) -> (r: Token)
    ensures
        r@ == word_token(w@),
{
    if str_eq(w.as_str(), "bingus") {
        Token::KeywordBingus
    } else if str_eq(w.as_str(), "int") {
        Token::KeywordInt
    } else if str_eq(w.as_str(), "return") {
        Token::KeywordReturn
    } else if str_eq(w.as_str(), "if") {
        Token::KeywordIf
    } else if str_eq(w.as_str(), "else") {
        Token::KeywordElse
    } else if str_eq(w.as_str(), "while") {
        Token::KeywordWhile
    } else if str_eq(w.as_str(), "for") {
        Token::KeywordFor
    } else if str_eq(w.as_str(), "do") {
        Token::KeywordDo
    } else if str_eq(w.as_str(), "break") {
        Token::KeywordBreak
    } else if str_eq(w.as_str(), "continue") {
        Token::KeywordContinue
    } else {
        Token::Identifier(w)
    }
}

/// Turns source text into its token stream, or reports the first lexical
/// error.
#[verifier::rlimit(60)]
pub fn lex(input: &str) -> (r: Result<Vec<Token>, LexError>)
    ensures
        ({
            let s = slex(input@, 0);
            &&& (r is Ok <==> s is Ok)
            &&& (s matches Ok(tv) ==> r matches Ok(toks) && tviews(toks@) == tv)
            &&& (s matches Err(er) ==> r == Result::<Vec<Token>, LexError>::Err(er))
        }),
{
    let chars = str_chars(input);
    let ghost s = input@;
    let n = chars.len();
    let mut toks: Vec<Token> = Vec::new();
    let mut i: usize = 0;
    while i < n
        invariant
            i <= n,
            n == s.len(),
            chars@ == s,
            s == input@,
            slex(s, 0) matches Ok(tv) ==> {
                &&& slex(s, i as int) matches Ok(tv2)
                &&& tviews(toks@) + tv2 == tv
            },
            slex(s, 0) matches Err(er0) ==> slex(s, i as int) == Result::<
                Seq<TokenV>,
                LexError,
            >::Err(er0),
        decreases n - i,
    {
        let ghost toks0 = toks@;
        let c = chars[i];
        if char_is_whitespace(c) {
            i += 1;
            continue ;
        }
        if char_is_alphabetic(c) || c == '_' {
            let j = scan_ident_exec(&chars, i + 1);
            let w = word_string(&chars, i, j);
            toks.push(keyword_or_ident(w));
            proof {
                assert(tviews(toks@) =~= tviews(toks0).push(word_token(s.subrange(i as int, j as int))));
                if slex(s, 0) is Ok {
                    assert(tviews(toks0) + (seq![word_token(s.subrange(i as int, j as int))]
                        + slex(s, j as int)->Ok_0) =~= tviews(toks@) + slex(s, j as int)->Ok_0);
                }
            }
            i = j;
            continue ;
        }
        if is_digit_exec(c) {
            let j = scan_digits_exec(&chars, i);
            let ghost w = s.subrange(i as int, j as int);
            proof {
                lemma_scan_digits_chars(s, i as int);
            }
            let (too_big, acc) = digits_value(&chars, i, j);
            if too_big {
                proof {
                    assert(slex(s, i as int) == Result::<Seq<TokenV>, LexError>::Err(
                        LexError::InvalidInteger,
                    ));
                    if slex(s, 0) is Ok {
                        assert(false);
                    }
                }
                return Err(LexError::InvalidInteger);
            }
            toks.push(Token::IntLiteral(acc as i32));
            proof {
                assert(tviews(toks@) =~= tviews(toks0).push(
                    TokenV::Other(Token::IntLiteral(digits_val(w) as i32)),
                ));
                if slex(s, 0) is Ok {
                    assert(tviews(toks0) + (seq![
                        TokenV::Other(Token::IntLiteral(digits_val(w) as i32)),
                    ] + slex(s, j as int)->Ok_0) =~= tviews(toks@) + slex(s, j as int)->Ok_0);
                }
            }
            proof {
                assert(scan_digits(s, i as int) == scan_digits(s, i + 1 as int));
                lemma_scan_digits_bounds(s, i + 1 as int);
            }
            i = j;
            continue ;
        }
        if c == '/' && i + 1 < n && chars[i + 1] == '/' {
            i = skip_line_exec(&chars, i + 2);
            continue ;
        }
        if c == '/' && i + 1 < n && chars[i + 1] == '*' {
            let close_opt = find_close_exec(&chars, i + 2);
            let (found, close): (bool, usize) = match close_opt {
                Option::Some(cl) => (true, cl),
                Option::None => (false, 0),
            };
            if !found {
                proof {
                    assert(find_close(s, i + 2 as int) is None);
                    assert(slex(s, i as int) == Result::<Seq<TokenV>, LexError>::Err(
                        LexError::UnterminatedBlockComment,
                    ));
                    if slex(s, 0) is Ok {
                        assert(false);
                    }
                }
                return Err(LexError::UnterminatedBlockComment);
            }
            i = close;
            continue ;
        }
        let op = if n - i >= 3 {
            op_lookup3_exec(chars[i], chars[i + 1], chars[i + 2])
        } else {
            Option::None
        };
        let (tok, next): (Token, usize) = match op {
            Option::Some(t) => (t, i + 3),
            Option::None => {
                let op2 = if n - i >= 2 {
                    op_lookup2_exec(chars[i], chars[i + 1])
                } else {
                    Option::None
                };
                match op2 {
                    Option::Some(t) => (t, i + 2),
                    Option::None => {
                        match op_lookup1_exec(chars[i]) {
                            Option::Some(t) => (t, i + 1),
                            Option::None => {
                                proof {
                                    assert(op_scan(s, i as int) is None);
                                    assert(slex(s, i as int) == Result::<
                                        Seq<TokenV>,
                                        LexError,
                                    >::Err(LexError::UnrecognizedCharacter));
                                    if slex(s, 0) is Ok {
                                        assert(false);
                                    }
                                }
                                return Err(LexError::UnrecognizedCharacter);
                            },
                        }
                    },
                }
            },
        };
        let ghost tok_v = tok@;
        toks.push(tok);
        proof {
            assert(op_scan(s, i as int) == Option::Some((tok, next as int)));
            assert(tviews(toks@) =~= tviews(toks0).push(TokenV::Other(tok)));
            if slex(s, 0) is Ok {
                assert(tviews(toks0) + (seq![TokenV::Other(tok)] + slex(s, next as int)->Ok_0)
                    =~= tviews(toks@) + slex(s, next as int)->Ok_0);
            }
        }
        i = next;
    }
    proof {
        assert(slex(s, n as int) == Ok::<Seq<TokenV>, LexError>(Seq::empty()));
        if slex(s, 0) is Ok {
            assert(tviews(toks@) + Seq::<TokenV>::empty() =~= tviews(toks@));
        }
    }
    Ok(toks)
}

} // verus!
