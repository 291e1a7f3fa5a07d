//! What holds of every scan: where tokens start and end, how they cover
//! the source, and how the end of the input repeats.
use vstd::prelude::*;
use crate::grammar::{
    closing_quote, continuation, in_run, run_end, scan, skip_space, space_byte, token_at,
    tokens_from, Run,
};
use crate::token::TokenKind;
use vstd::utf8::{is_char_boundary, valid_utf8};

verus! {

proof fn lemma_skip_space(b: Seq<u8>, i: int)
    requires
        0 <= i <= b.len(),
    ensures
        i <= skip_space(b, i) <= b.len(),
        skip_space(b, i) < b.len() ==> !space_byte(b[skip_space(b, i)]),
        forall|j: int| i <= j < skip_space(b, i) ==> space_byte(#[trigger] b[j]),
    decreases b.len() - i,
{
    if i < b.len() && space_byte(b[i]) {
        lemma_skip_space(b, i + 1);
    }
}

proof fn lemma_run_end(b: Seq<u8>, i: int, r: Run)
    requires
        0 <= i <= b.len(),
    ensures
        i <= run_end(b, i, r) <= b.len(),
        run_end(b, i, r) < b.len() ==> !in_run(r, b[run_end(b, i, r)]),
        forall|j: int| i <= j < run_end(b, i, r) ==> in_run(r, #[trigger] b[j]),
    decreases b.len() - i,
{
    if i < b.len() && in_run(r, b[i]) {
        lemma_run_end(b, i + 1, r);
    }
}

proof fn lemma_closing_quote(b: Seq<u8>, i: int)
    requires
        0 <= i,
    ensures
        closing_quote(b, i) matches Some(q) ==> i <= q < b.len() && b[q] == 0x22,
    decreases b.len() - i,
{
    if 0 <= i < b.len() && b[i] != 0x22 {
        lemma_closing_quote(b, i + 1);
    }
}

/// A scan from a position in the source skips only spaces and newlines, and
/// gives a token inside the source; every token but `Eof` is non-empty, and
/// `Eof` is empty, at the end of the source.
pub proof fn lemma_scan_bounds(b: Seq<u8>, i: int)
    requires
        0 <= i <= b.len(),
    ensures
        i <= scan(b, i).1 <= scan(b, i).2 <= b.len(),
        forall|j: int| i <= j < scan(b, i).1 ==> space_byte(#[trigger] b[j]),
        scan(b, i).0 == TokenKind::Eof ==> scan(b, i).1 == b.len() && scan(b, i).2 == b.len(),
        scan(b, i).0 != TokenKind::Eof ==> scan(b, i).1 < scan(b, i).2,
{
    lemma_skip_space(b, i);
    let s = skip_space(b, i);
    if s < b.len() {
        lemma_run_end(b, s + 1, Run::Identifier);
        lemma_run_end(b, s + 1, Run::Number);
        lemma_run_end(b, s + 1, Run::Continuation);
        lemma_closing_quote(b, s + 1);
    }
}

/// In valid UTF-8, the byte after an ASCII byte starts a character.
proof fn lemma_after_ascii(b: Seq<u8>, j: int)
    requires
        valid_utf8(b),
        0 < j < b.len(),
        b[j - 1] < 0x80,
    ensures
        !continuation(b[j]),
    decreases b.len(),
{
    let n = vstd::utf8::length_of_first_scalar(b);
    let rest = vstd::utf8::pop_first_scalar(b);
    assert(vstd::utf8::valid_first_scalar(b));
    assert(valid_utf8(rest));
    assert(1 <= n <= 4);
    assert(rest.len() == b.len() - n);
    if j - 1 < n {
        assert(j == 1 && n == 1);
        assert(rest.len() > 0);
        assert(vstd::utf8::valid_first_scalar(rest));
        assert(rest[0] == b[j]);
    } else {
        assert(rest[j - n] == b[j]);
        assert(rest[j - n - 1] == b[j - 1]);
        lemma_after_ascii(rest, j - n);
    }
}

/// A position of valid UTF-8 at the end of the bytes or before a byte that
/// is no continuation byte is a character boundary.
proof fn lemma_boundary(b: Seq<u8>, i: int)
    requires
        valid_utf8(b),
        0 <= i <= b.len(),
        i < b.len() ==> !continuation(b[i]),
    ensures
        is_char_boundary(b, i),
{
    if i < b.len() {
        vstd::utf8::is_char_boundary_iff_not_is_continuation_byte(b, i);
    } else {
        vstd::utf8::is_char_boundary_start_end_of_seq(b);
    }
}

/// In valid UTF-8, a scan from a character boundary gives a token that
/// starts and ends on character boundaries.
pub proof fn lemma_token_boundaries(b: Seq<u8>, i: int)
    requires
        valid_utf8(b),
        0 <= i <= b.len(),
        is_char_boundary(b, i),
    ensures
        is_char_boundary(b, scan(b, i).1),
        is_char_boundary(b, scan(b, i).2),
{
    lemma_scan_bounds(b, i);
    let s = skip_space(b, i);
    if s > i && s < b.len() {
        lemma_after_ascii(b, s);
    }
    if s != i {
        lemma_boundary(b, s);
    }
    if s < b.len() {
        let e = token_at(b, s).1;
        lemma_run_end(b, s + 1, Run::Identifier);
        lemma_run_end(b, s + 1, Run::Number);
        lemma_run_end(b, s + 1, Run::Continuation);
        lemma_closing_quote(b, s + 1);
        if e < b.len() && !(e == run_end(b, s + 1, Run::Continuation) && token_at(b, s).0
            == TokenKind::Invalid) {
            assert(b[e - 1] < 0x80);
            lemma_after_ascii(b, e);
        }
        lemma_boundary(b, e);
    }
}

/// Once a scan gives `Eof`, it is at the end of the source, and a scan from
/// its end gives the same `Eof` again.
pub proof fn lemma_eof_repeats(b: Seq<u8>, i: int)
    requires
        0 <= i <= b.len(),
        scan(b, i).0 == TokenKind::Eof,
    ensures
        scan(b, i).1 == b.len(),
        scan(b, i).2 == b.len(),
        scan(b, scan(b, i).2) == scan(b, i),
{
    lemma_scan_bounds(b, i);
}

/// The tokens of a scan from position `i` cover the source from `i` in
/// order: what lies before the first token and between two tokens is spaces
/// and newlines only, every token but the last is non-empty and not `Eof`,
/// and the last is an empty `Eof` at the end of the source. So the spans of
/// the tokens, put together in order, give the source with the runs of
/// spaces and newlines between tokens taken out.
pub proof fn lemma_span_coverage(b: Seq<u8>, i: int)
    requires
        0 <= i <= b.len(),
    ensures
        tokens_from(b, i).len() >= 1,
        tokens_from(b, i).last() == (TokenKind::Eof, b.len() as int, b.len() as int),
        forall|k: int|
            0 <= k < tokens_from(b, i).len() - 1 ==> (#[trigger] tokens_from(b, i)[k]).0
                != TokenKind::Eof && tokens_from(b, i)[k].1 < tokens_from(b, i)[k].2,
        forall|k: int|
            0 <= k < tokens_from(b, i).len() ==> (if k == 0 {
                i
            } else {
                tokens_from(b, i)[k - 1].2
            }) <= (#[trigger] tokens_from(b, i)[k]).1 <= tokens_from(b, i)[k].2,
        forall|k: int, j: int|
            0 <= k < tokens_from(b, i).len() && (if k == 0 {
                i
            } else {
                tokens_from(b, i)[k - 1].2
            }) <= j < (#[trigger] tokens_from(b, i)[k]).1 ==> space_byte(#[trigger] b[j]),
    decreases b.len() - i,
{
    lemma_scan_bounds(b, i);
    let t = scan(b, i);
    if t.0 != TokenKind::Eof {
        lemma_span_coverage(b, t.2);
        let ts = tokens_from(b, i);
        let rest = tokens_from(b, t.2);
        assert(ts == seq![t] + rest);
        assert forall|k: int| 1 <= k < ts.len() implies #[trigger] ts[k] == rest[k - 1] by {}
    }
}

} // verus!
