//! The lexical grammar, as spec functions on the bytes of the source: the
//! line and column of each position, the byte classes, and the token that a
//! scan from a position gives; and the byte classifiers that the scanner runs.
use vstd::prelude::*;
use crate::token::TokenKind;

verus! {

// ---------------------------------------------------------------------------
// Positions
// ---------------------------------------------------------------------------

/// A byte that continues a multi-byte UTF-8 character.
pub open spec fn continuation(c: u8) -> bool {
    0x80 <= c && c < 0xc0
}

/// The line of the character that starts at byte `i`: one more than the
/// number of newlines before it.
pub open spec fn line_at(b: Seq<u8>, i: int) -> int
    decreases i,
{
    if i <= 0 {
        1
    } else if b[i - 1] == 0x0a {
        line_at(b, i - 1) + 1
    } else {
        line_at(b, i - 1)
    }
}

/// The column of the character that starts at byte `i`: the number of
/// characters between the last newline before it and it.
pub open spec fn col_at(b: Seq<u8>, i: int) -> int
    decreases i,
{
    if i <= 0 {
        0
    } else if b[i - 1] == 0x0a {
        0
    } else if continuation(b[i - 1]) {
        col_at(b, i - 1)
    } else {
        col_at(b, i - 1) + 1
    }
}

pub(crate) proof fn lemma_position_bounds(b: Seq<u8>, i: int)
    requires
        0 <= i,
    ensures
        1 <= line_at(b, i) <= i + 1,
        0 <= col_at(b, i) <= i,
    decreases i,
{
    if i > 0 {
        lemma_position_bounds(b, i - 1);
    }
}

// ---------------------------------------------------------------------------
// Byte classes
// ---------------------------------------------------------------------------

/// Bytes skipped between tokens: space, tab, carriage return and newline.
pub open spec fn space_byte(c: u8) -> bool {
    c == 0x20 || c == 0x09 || c == 0x0d || c == 0x0a
}

/// Bytes that start and continue an identifier: ASCII letters and `_`.
pub open spec fn ident_byte(c: u8) -> bool {
    (0x61 <= c && c <= 0x7a) || (0x41 <= c && c <= 0x5a) || c == 0x5f
}

/// ASCII decimal digits, which start a number literal.
pub open spec fn digit_byte(c: u8) -> bool {
    0x30 <= c && c <= 0x39
}

/// The kinds of runs of bytes that a token extends over, once started.
#[derive(Clone, Copy, Debug, PartialEq, Eq, Structural)]
pub enum Run {
    /// ASCII letters and `_`.
    Identifier,
    /// ASCII digits and `_`, the separator of digit groups.
    Number,
    /// The continuation bytes of one UTF-8 character.
    Continuation,
}

pub open spec fn in_run(r: Run, c: u8) -> bool {
    match r {
        Run::Identifier => ident_byte(c),
        Run::Number => digit_byte(c) || c == 0x5f,
        Run::Continuation => continuation(c),
    }
}

/// The first position at or after `i` whose byte is not in the run `r`.
pub open spec fn run_end(b: Seq<u8>, i: int, r: Run) -> int
    decreases b.len() - i,
{
    if 0 <= i < b.len() && in_run(r, b[i]) {
        run_end(b, i + 1, r)
    } else {
        i
    }
}

/// The first position at or after `i` whose byte is not skipped.
pub open spec fn skip_space(b: Seq<u8>, i: int) -> int
    decreases b.len() - i,
{
    if 0 <= i < b.len() && space_byte(b[i]) {
        skip_space(b, i + 1)
    } else {
        i
    }
}

/// The position of the first `"` at or after `i`, if any.
pub open spec fn closing_quote(b: Seq<u8>, i: int) -> Option<int>
    decreases b.len() - i,
{
    if !(0 <= i < b.len()) {
        None
    } else if b[i] == 0x22 {
        Some(i)
    } else {
        closing_quote(b, i + 1)
    }
}

/// The two-byte operators: the long forms of the maximal-munch table.
pub open spec fn pair_kind(c: u8, n: u8) -> Option<TokenKind> {
    if c == 0x2b && n == 0x2b {
        Some(TokenKind::PlusPlus)
    } else if c == 0x2b && n == 0x3d {
        Some(TokenKind::PlusEqual)
    } else if c == 0x2d && n == 0x2d {
        Some(TokenKind::MinusMinus)
    } else if c == 0x2d && n == 0x3d {
        Some(TokenKind::MinusEqual)
    } else if c == 0x2d && n == 0x3e {
        Some(TokenKind::ArrowOp)
    } else if c == 0x2a && n == 0x2a {
        Some(TokenKind::AsteriskAsterisk)
    } else if c == 0x2a && n == 0x3d {
        Some(TokenKind::AsteriskEqual)
    } else if c == 0x2f && n == 0x2f {
        Some(TokenKind::SlashSlash)
    } else if c == 0x2f && n == 0x3d {
        Some(TokenKind::SlashEqual)
    } else if c == 0x3d && n == 0x3d {
        Some(TokenKind::EqualEqual)
    } else if c == 0x3a && n == 0x3a {
        Some(TokenKind::ColonColon)
    } else if c == 0x3a && n == 0x3d {
        Some(TokenKind::ColonEqual)
    } else {
        None
    }
}

/// The one-byte tokens: the short forms of the operators, and punctuation.
pub open spec fn single_kind(c: u8) -> Option<TokenKind> {
    if c == 0x2b {
        Some(TokenKind::Plus)
    } else if c == 0x2d {
        Some(TokenKind::Minus)
    } else if c == 0x2a {
        Some(TokenKind::Asterisk)
    } else if c == 0x2f {
        Some(TokenKind::Slash)
    } else if c == 0x3d {
        Some(TokenKind::Equal)
    } else if c == 0x3a {
        Some(TokenKind::Colon)
    } else if c == 0x3b {
        Some(TokenKind::SemiColon)
    } else if c == 0x2c {
        Some(TokenKind::Comma)
    } else if c == 0x2e {
        Some(TokenKind::Dot)
    } else if c == 0x28 {
        Some(TokenKind::LParen)
    } else if c == 0x29 {
        Some(TokenKind::RParen)
    } else if c == 0x7b {
        Some(TokenKind::LBrace)
    } else if c == 0x7d {
        Some(TokenKind::RBrace)
    } else if c == 0x5b {
        Some(TokenKind::LBracket)
    } else if c == 0x5d {
        Some(TokenKind::RBracket)
    } else {
        None
    }
}

// ---------------------------------------------------------------------------
// Tokens
// ---------------------------------------------------------------------------

/// The kind and the end of the token whose first byte is at `s`, a byte that
/// is not skipped. An unterminated string literal, and a character that no
/// token starts with, make an `Invalid` token.
pub open spec fn token_at(b: Seq<u8>, s: int) -> (TokenKind, int)
    recommends
        0 <= s < b.len(),
{
    let c = b[s];
    if ident_byte(c) {
        (TokenKind::Identifier, run_end(b, s + 1, Run::Identifier))
    } else if digit_byte(c) {
        (TokenKind::NumberLiteral, run_end(b, s + 1, Run::Number))
    } else if c == 0x22 {
        match closing_quote(b, s + 1) {
            Some(q) => (TokenKind::StringLiteral, q + 1),
            None => (TokenKind::Invalid, b.len() as int),
        }
    } else if s + 1 < b.len() && pair_kind(c, b[s + 1]) is Some {
        (pair_kind(c, b[s + 1]).unwrap(), s + 2)
    } else if single_kind(c) is Some {
        (single_kind(c).unwrap(), s + 1)
    } else {
        (TokenKind::Invalid, run_end(b, s + 1, Run::Continuation))
    }
}

/// The token that a scan from position `i` produces, as kind, start and end:
/// spaces and newlines are skipped, and at the end of the input the token is
/// an empty `Eof`.
pub open spec fn scan(b: Seq<u8>, i: int) -> (TokenKind, int, int) {
    let s = skip_space(b, i);
    if s >= b.len() {
        (TokenKind::Eof, s, s)
    } else {
        (token_at(b, s).0, s, token_at(b, s).1)
    }
}

/// The tokens that successive scans produce from position `i`, up to and
/// including the first `Eof`. (A scan from inside the source always ends past
/// its start and inside the source; the second test only bounds the
/// recursion.)
pub open spec fn tokens_from(b: Seq<u8>, i: int) -> Seq<(TokenKind, int, int)>
    decreases b.len() - i,
{
    let t = scan(b, i);
    if t.0 == TokenKind::Eof || !(i < t.2 <= b.len()) {
        seq![t]
    } else {
        seq![t] + tokens_from(b, t.2)
    }
}

// ---------------------------------------------------------------------------
// Classifiers
// ---------------------------------------------------------------------------

pub(crate) fn is_space_byte(c: u8) -> (r: bool)
    ensures
        r == space_byte(c),
{
    c == 0x20 || c == 0x09 || c == 0x0d || c == 0x0a
}

pub(crate) fn is_ident_byte(c: u8) -> (r: bool)
    ensures
        r == ident_byte(c),
{
    (0x61 <= c && c <= 0x7a) || (0x41 <= c && c <= 0x5a) || c == 0x5f
}

pub(crate) fn is_digit_byte(c: u8) -> (r: bool)
    ensures
        r == digit_byte(c),
{
    0x30 <= c && c <= 0x39
}

pub(crate) fn is_in_run(r: Run, c: u8) -> (res: bool)
    ensures
        res == in_run(r, c),
{
    match r {
        Run::Identifier => is_ident_byte(c),
        Run::Number => is_digit_byte(c) || c == 0x5f,
        Run::Continuation => 0x80 <= c && c < 0xc0,
    }
}

/// The two-byte operator that `c` followed by `n` makes, if any.
pub fn pair_operator(c: u8, n: u8) -> (r: Option<TokenKind>)
    ensures
        r == pair_kind(c, n),
{
    match (c, n) {
        (0x2b, 0x2b) => Some(TokenKind::PlusPlus),
        (0x2b, 0x3d) => Some(TokenKind::PlusEqual),
        (0x2d, 0x2d) => Some(TokenKind::MinusMinus),
        (0x2d, 0x3d) => Some(TokenKind::MinusEqual),
        (0x2d, 0x3e) => Some(TokenKind::ArrowOp),
        (0x2a, 0x2a) => Some(TokenKind::AsteriskAsterisk),
        (0x2a, 0x3d) => Some(TokenKind::AsteriskEqual),
        (0x2f, 0x2f) => Some(TokenKind::SlashSlash),
        (0x2f, 0x3d) => Some(TokenKind::SlashEqual),
        (0x3d, 0x3d) => Some(TokenKind::EqualEqual),
        (0x3a, 0x3a) => Some(TokenKind::ColonColon),
        (0x3a, 0x3d) => Some(TokenKind::ColonEqual),
        _ => None,
    }
}

/// The one-byte token that `c` makes on its own, if any.
pub fn single_operator(c: u8) -> (r: Option<TokenKind>)
    ensures
        r == single_kind(c),
{
    match c {
        0x2b => Some(TokenKind::Plus),
        0x2d => Some(TokenKind::Minus),
        0x2a => Some(TokenKind::Asterisk),
        0x2f => Some(TokenKind::Slash),
        0x3d => Some(TokenKind::Equal),
        0x3a => Some(TokenKind::Colon),
        0x3b => Some(TokenKind::SemiColon),
        0x2c => Some(TokenKind::Comma),
        0x2e => Some(TokenKind::Dot),
        0x28 => Some(TokenKind::LParen),
        0x29 => Some(TokenKind::RParen),
        0x7b => Some(TokenKind::LBrace),
        0x7d => Some(TokenKind::RBrace),
        0x5b => Some(TokenKind::LBracket),
        0x5d => Some(TokenKind::RBracket),
        _ => None,
    }
}

} // verus!
