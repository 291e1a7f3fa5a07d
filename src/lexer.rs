//! The scanner: a cursor over a source text that hands out one token per
//! call, and the scan of a whole text.
use vstd::prelude::*;
use crate::grammar::{
    closing_quote, is_digit_byte, is_ident_byte, is_in_run, is_space_byte, lemma_position_bounds,
    pair_operator, single_operator, col_at, line_at, run_end, scan, skip_space, tokens_from, Run,
};
use crate::laws::{lemma_scan_bounds, lemma_token_boundaries};
use crate::token::{Token, TokenKind};
use vstd::string::StringSliceAdditionalSpecFns;
use vstd::utf8::{encode_utf8_valid_utf8, is_char_boundary};

verus! {

/// The largest source, in bytes, that a scanner takes: lines, columns and
/// offsets of any source up to it fit in `i32` and `u32`.
pub const MAX_SOURCE_LEN: usize = 0x7fff_fffe;

/// A scanner over a source text, which hands out one token per call.
pub struct Lexer<'a> {
    pub source: &'a str,
    index: u32,
    column: i32,
    line: i32,
}

impl<'a> Lexer<'a> {
    /// The bytes of the source.
    pub closed spec fn bytes(&self) -> Seq<u8> {
        self.source.spec_bytes()
    }

    /// The byte offset of the cursor.
    pub closed spec fn pos(&self) -> int {
        self.index as int
    }

    /// The cursor is at the start of a character, or at the end of the source,
    /// with the line and the column of that place.
    pub closed spec fn wf(&self) -> bool {
        &&& self.positioned()
        &&& is_char_boundary(self.bytes(), self.index as int)
    }

    /// The cursor lies in the source, with the line and the column of the
    /// character that it is in.
    closed spec fn positioned(&self) -> bool {
        &&& self.bytes().len() <= MAX_SOURCE_LEN
        &&& 0 <= self.index <= self.bytes().len()
        &&& self.line == line_at(self.bytes(), self.index as int)
        &&& self.column == col_at(self.bytes(), self.index as int)
    }

    /// A scanner at the start of `src`.
    pub fn new(src: &'a str) -> (r: Self)
        requires
            src.spec_bytes().len() <= MAX_SOURCE_LEN,
        ensures
            r.wf(),
            r.bytes() == src.spec_bytes(),
            r.pos() == 0,
    {
        proof {
            encode_utf8_valid_utf8(src@);
        }
        Lexer { source: src, index: 0, column: 0, line: 1 }
    }

    /// Moves the cursor past the byte under it, and the line and the column
    /// with it.
    fn advance(&mut self, bytes: &[u8])
        requires
            old(self).positioned(),
            bytes@ == old(self).bytes(),
            old(self).pos() < bytes@.len(),
        ensures
            final(self).positioned(),
            final(self).bytes() == old(self).bytes(),
            final(self).pos() == old(self).pos() + 1,
    {
        let c = bytes[self.index as usize];
        proof {
            lemma_position_bounds(bytes@, self.index as int + 1);
        }
        if c == 0x0a {
            self.line = self.line + 1;
            self.column = 0;
        } else if !(0x80 <= c && c < 0xc0) {
            self.column = self.column + 1;
        }
        self.index = self.index + 1;
    }

    /// Moves the cursor past the bytes of the run `r` that start under it.
    fn advance_run(&mut self, bytes: &[u8], r: Run)
        requires
            old(self).positioned(),
            bytes@ == old(self).bytes(),
        ensures
            final(self).positioned(),
            final(self).bytes() == old(self).bytes(),
            final(self).pos() == run_end(bytes@, old(self).pos(), r),
    {
        let len = bytes.len();
        while (self.index as usize) < len && is_in_run(r, bytes[self.index as usize])
            invariant
                self.positioned(),
                self.bytes() == old(self).bytes(),
                bytes@ == self.bytes(),
                len == bytes@.len(),
                old(self).pos() <= self.pos(),
                run_end(bytes@, self.pos(), r) == run_end(bytes@, old(self).pos(), r),
            decreases len - self.pos(),
        {
            self.advance(bytes);
        }
    }

    /// Returns the next token and moves the cursor past it. Spaces, tabs,
    /// carriage returns and newlines before it are skipped; at the end of the
    /// source every call returns an empty `Eof` token. A character that no
    /// token starts with, and a string literal that the source ends in before
    /// its closing quote, come out as `Invalid` tokens, and the scan goes on
    /// after them.
    pub fn next_token(&mut self) -> (t: Token)
        requires
            old(self).wf(),
        ensures
            final(self).wf(),
            final(self).bytes() == old(self).bytes(),
            t.describes(old(self).bytes(), scan(old(self).bytes(), old(self).pos())),
            t.start <= t.end <= old(self).bytes().len(),
            is_char_boundary(old(self).bytes(), t.start as int),
            is_char_boundary(old(self).bytes(), t.end as int),
            final(self).pos() == scan(old(self).bytes(), old(self).pos()).2,
    {
        let bytes = self.source.as_bytes();
        let len = bytes.len();
        let ghost b = bytes@;
        let ghost i0 = self.pos();
        proof {
            encode_utf8_valid_utf8(self.source@);
            lemma_scan_bounds(b, i0);
            lemma_token_boundaries(b, i0);
        }
        while (self.index as usize) < len && is_space_byte(bytes[self.index as usize])
            invariant
                self.positioned(),
                self.bytes() == old(self).bytes(),
                bytes@ == self.bytes(),
                b == bytes@,
                len == b.len(),
                i0 <= self.pos(),
                skip_space(b, self.pos()) == skip_space(b, i0),
            decreases len - self.pos(),
        {
            self.advance(bytes);
        }
        let start = self.index;
        let line = self.line;
        let col = self.column;
        if (start as usize) == len {
            return Token { kind: TokenKind::Eof, start, end: start, line, col };
        }
        let c = bytes[start as usize];
        self.advance(bytes);
        let kind = if is_ident_byte(c) {
            self.advance_run(bytes, Run::Identifier);
            TokenKind::Identifier
        } else if is_digit_byte(c) {
            self.advance_run(bytes, Run::Number);
            TokenKind::NumberLiteral
        } else if c == 0x22 {
            while (self.index as usize) < len && bytes[self.index as usize] != 0x22
                invariant
                    self.positioned(),
                    self.bytes() == old(self).bytes(),
                    bytes@ == self.bytes(),
                    b == bytes@,
                    len == b.len(),
                    start < self.pos(),
                    closing_quote(b, self.pos()) == closing_quote(b, start + 1),
                decreases len - self.pos(),
            {
                self.advance(bytes);
            }
            if (self.index as usize) == len {
                TokenKind::Invalid
            } else {
                self.advance(bytes);
                TokenKind::StringLiteral
            }
        } else {
            let pair = if (self.index as usize) < len {
                pair_operator(c, bytes[self.index as usize])
            } else {
                None
            };
            match pair {
                Some(k) => {
                    self.advance(bytes);
                    k
                },
                None => match single_operator(c) {
                    Some(k) => k,
                    None => {
                        self.advance_run(bytes, Run::Continuation);
                        TokenKind::Invalid
                    },
                },
            }
        };
        Token { kind, start, end: self.index, line, col }
    }
}

/// Scans the whole of `src`: the tokens of successive calls of `next_token`
/// from its start, up to and including the first `Eof`.
pub fn tokenize(src: &str) -> (r: Vec<Token>)
    requires
        src.spec_bytes().len() <= MAX_SOURCE_LEN,
    ensures
        r@.len() == tokens_from(src.spec_bytes(), 0).len(),
        forall|k: int|
            0 <= k < r@.len() ==> #[trigger] r@[k].describes(
                src.spec_bytes(),
                tokens_from(src.spec_bytes(), 0)[k],
            ),
{
    let ghost b = src.spec_bytes();
    let mut lexer = Lexer::new(src);
    let mut out: Vec<Token> = Vec::new();
    let ghost mut done: Seq<(TokenKind, int, int)> = Seq::empty();
    loop
        invariant_except_break
            tokens_from(b, 0) == done + tokens_from(b, lexer.pos()),
        invariant
            lexer.wf(),
            lexer.bytes() == b,
            out@.len() == done.len(),
            forall|k: int| 0 <= k < out@.len() ==> #[trigger] out@[k].describes(b, done[k]),
        ensures
            out@.len() == tokens_from(b, 0).len(),
            forall|k: int|
                0 <= k < out@.len() ==> #[trigger] out@[k].describes(b, tokens_from(b, 0)[k]),
        decreases b.len() - lexer.pos(),
    {
        let ghost i = lexer.pos();
        proof {
            lemma_scan_bounds(b, i);
        }
        let t = lexer.next_token();
        out.push(t);
        proof {
            done = done.push(scan(b, i));
            assert(tokens_from(b, i) == seq![scan(b, i)] + tokens_from(b, scan(b, i).2)
                || tokens_from(b, i) == seq![scan(b, i)]);
        }
        if t.kind == TokenKind::Eof {
            assert(tokens_from(b, 0) =~= done);
            break;
        }
        assert(tokens_from(b, 0) =~= done + tokens_from(b, lexer.pos()));
    }
    out
}

} // verus!
