//! Token kinds and tokens.
use vstd::prelude::*;
use crate::grammar::{col_at, line_at};

verus! {

/// The lexical categories of the scanner.
#[derive(Clone, Copy, Debug, PartialEq, Eq, Structural)]
pub enum TokenKind {
    Eof,
    Invalid,
    Identifier,
    NumberLiteral,
    StringLiteral,
    Plus,
    PlusPlus,
    PlusEqual,
    Minus,
    MinusMinus,
    MinusEqual,
    Asterisk,
    AsteriskAsterisk,
    AsteriskEqual,
    Slash,
    SlashSlash,
    SlashEqual,
    SemiColon,
    Comma,
    ArrowOp,
    Dot,
    Colon,
    ColonEqual,
    ColonColon,
    Equal,
    EqualEqual,
    LParen,
    RParen,
    LBrace,
    RBrace,
    LBracket,
    RBracket,
}

impl TokenKind {
    /// The name of the kind, as it is printed.
    pub open spec fn spec_name(self) -> Seq<char> {
        match self {
            TokenKind::Eof => "Eof"@,
            TokenKind::Invalid => "Invalid"@,
            TokenKind::Identifier => "Identifier"@,
            TokenKind::NumberLiteral => "NumberLiteral"@,
            TokenKind::StringLiteral => "StringLiteral"@,
            TokenKind::Plus => "Plus"@,
            TokenKind::PlusPlus => "PlusPlus"@,
            TokenKind::PlusEqual => "PlusEqual"@,
            TokenKind::Minus => "Minus"@,
            TokenKind::MinusMinus => "MinusMinus"@,
            TokenKind::MinusEqual => "MinusEqual"@,
            TokenKind::Asterisk => "Asterisk"@,
            TokenKind::AsteriskAsterisk => "AsteriskAsterisk"@,
            TokenKind::AsteriskEqual => "AsteriskEqual"@,
            TokenKind::Slash => "Slash"@,
            TokenKind::SlashSlash => "SlashSlash"@,
            TokenKind::SlashEqual => "SlashEqual"@,
            TokenKind::SemiColon => "SemiColon"@,
            TokenKind::Comma => "Comma"@,
            TokenKind::ArrowOp => "ArrowOp"@,
            TokenKind::Dot => "Dot"@,
            TokenKind::Colon => "Colon"@,
            TokenKind::ColonEqual => "ColonEqual"@,
            TokenKind::ColonColon => "ColonColon"@,
            TokenKind::Equal => "Equal"@,
            TokenKind::EqualEqual => "EqualEqual"@,
            TokenKind::LParen => "LParen"@,
            TokenKind::RParen => "RParen"@,
            TokenKind::LBrace => "LBrace"@,
            TokenKind::RBrace => "RBrace"@,
            TokenKind::LBracket => "LBracket"@,
            TokenKind::RBracket => "RBracket"@,
        }
    }

    /// The name of the kind, as it is printed.
    pub fn name(&self) -> (r: &'static str)
        ensures
            r@ == self.spec_name(),
    {
        match self {
            TokenKind::Eof => "Eof",
            TokenKind::Invalid => "Invalid",
            TokenKind::Identifier => "Identifier",
            TokenKind::NumberLiteral => "NumberLiteral",
            TokenKind::StringLiteral => "StringLiteral",
            TokenKind::Plus => "Plus",
            TokenKind::PlusPlus => "PlusPlus",
            TokenKind::PlusEqual => "PlusEqual",
            TokenKind::Minus => "Minus",
            TokenKind::MinusMinus => "MinusMinus",
            TokenKind::MinusEqual => "MinusEqual",
            TokenKind::Asterisk => "Asterisk",
            TokenKind::AsteriskAsterisk => "AsteriskAsterisk",
            TokenKind::AsteriskEqual => "AsteriskEqual",
            TokenKind::Slash => "Slash",
            TokenKind::SlashSlash => "SlashSlash",
            TokenKind::SlashEqual => "SlashEqual",
            TokenKind::SemiColon => "SemiColon",
            TokenKind::Comma => "Comma",
            TokenKind::ArrowOp => "ArrowOp",
            TokenKind::Dot => "Dot",
            TokenKind::Colon => "Colon",
            TokenKind::ColonEqual => "ColonEqual",
            TokenKind::ColonColon => "ColonColon",
            TokenKind::Equal => "Equal",
            TokenKind::EqualEqual => "EqualEqual",
            TokenKind::LParen => "LParen",
            TokenKind::RParen => "RParen",
            TokenKind::LBrace => "LBrace",
            TokenKind::RBrace => "RBrace",
            TokenKind::LBracket => "LBracket",
            TokenKind::RBracket => "RBracket",
        }
    }
}

/// A classified span `[start, end)` of bytes of the source, with the line
/// (from 1) and the column (from 0) of its first character.
#[derive(Clone, Copy, Debug, PartialEq, Eq, Structural)]
pub struct Token {
    pub kind: TokenKind,
    pub start: u32,
    pub end: u32,
    pub line: i32,
    pub col: i32,
}

impl Token {
    /// This token is the scanned token `m` of the bytes `b`, with the line
    /// and the column of its first byte.
    pub open spec fn describes(&self, b: Seq<u8>, m: (TokenKind, int, int)) -> bool {
        &&& self.kind == m.0
        &&& self.start == m.1
        &&& self.end == m.2
        &&& self.line == line_at(b, m.1)
        &&& self.col == col_at(b, m.1)
    }
}

} // verus!
