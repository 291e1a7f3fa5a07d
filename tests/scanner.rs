use compiler_r2::{tokenize, Lexer, Token, TokenKind};

fn kinds(src: &str) -> Vec<TokenKind> {
    tokenize(src).iter().map(|t| t.kind).collect()
}

fn text<'a>(src: &'a str, t: &Token) -> &'a str {
    &src[t.start as usize..t.end as usize]
}

#[test]
fn plus_equal_is_one_token() {
    let src = "+=";
    let toks = tokenize(src);
    assert_eq!(toks.len(), 2);
    assert_eq!(toks[0].kind, TokenKind::PlusEqual);
    assert_eq!((toks[0].start, toks[0].end), (0, 2));
    assert_eq!(toks[1].kind, TokenKind::Eof);
}

#[test]
fn line_and_column_after_newline() {
    let toks = tokenize("a\nb");
    assert_eq!(toks[0].kind, TokenKind::Identifier);
    assert_eq!((toks[0].line, toks[0].col), (1, 0));
    assert_eq!(toks[1].kind, TokenKind::Identifier);
    assert_eq!((toks[1].line, toks[1].col), (2, 0));
    assert_eq!((toks[1].start, toks[1].end), (2, 3));
    assert_eq!(toks[2].kind, TokenKind::Eof);
}

#[test]
fn arrow_is_one_token() {
    assert_eq!(kinds("->"), vec![TokenKind::ArrowOp, TokenKind::Eof]);
}

#[test]
fn string_literal_keeps_its_quotes() {
    let src = "\"hello\"";
    let toks = tokenize(src);
    assert_eq!(toks.len(), 2);
    assert_eq!(toks[0].kind, TokenKind::StringLiteral);
    assert_eq!(text(src, &toks[0]), "\"hello\"");
}

#[test]
fn unknown_character_does_not_stop_the_scan() {
    let src = "a#b";
    let toks = tokenize(src);
    assert_eq!(
        kinds(src),
        vec![TokenKind::Identifier, TokenKind::Invalid, TokenKind::Identifier, TokenKind::Eof]
    );
    assert_eq!(text(src, &toks[0]), "a");
    assert_eq!(text(src, &toks[1]), "#");
    assert_eq!((toks[1].line, toks[1].col), (1, 1));
    assert_eq!(text(src, &toks[2]), "b");
}

#[test]
fn assignment_statement() {
    let src = "x := 10 + y;";
    let toks = tokenize(src);
    let got: Vec<(TokenKind, &str)> = toks.iter().map(|t| (t.kind, text(src, t))).collect();
    assert_eq!(
        got,
        vec![
            (TokenKind::Identifier, "x"),
            (TokenKind::ColonEqual, ":="),
            (TokenKind::NumberLiteral, "10"),
            (TokenKind::Plus, "+"),
            (TokenKind::Identifier, "y"),
            (TokenKind::SemiColon, ";"),
            (TokenKind::Eof, ""),
        ]
    );
    let cols: Vec<i32> = toks.iter().map(|t| t.col).collect();
    assert_eq!(cols, vec![0, 2, 5, 8, 10, 11, 12]);
}

#[test]
fn spans_cover_the_source_but_spaces() {
    let src = "  foo(1_000, \"a b\")\n\t-> x ** 2 ;\r\n";
    let toks = tokenize(src);
    let mut rebuilt = String::new();
    let mut prev = 0usize;
    for t in &toks {
        let gap = &src[prev..t.start as usize];
        assert!(gap.chars().all(|c| c == ' ' || c == '\t' || c == '\r' || c == '\n'));
        rebuilt.push_str(gap);
        rebuilt.push_str(text(src, t));
        prev = t.end as usize;
    }
    assert_eq!(rebuilt, src);
    let last = toks.last().unwrap();
    assert_eq!(last.kind, TokenKind::Eof);
    assert_eq!((last.start as usize, last.end as usize), (src.len(), src.len()));
}

#[test]
fn eof_repeats_at_the_end() {
    let src = "a ";
    let mut lex = Lexer::new(src);
    assert_eq!(lex.next_token().kind, TokenKind::Identifier);
    for _ in 0..3 {
        let t = lex.next_token();
        assert_eq!(t.kind, TokenKind::Eof);
        assert_eq!((t.start, t.end), (2, 2));
    }
}

#[test]
fn empty_and_blank_sources() {
    let toks = tokenize("");
    assert_eq!(toks.len(), 1);
    assert_eq!(toks[0], Token { kind: TokenKind::Eof, start: 0, end: 0, line: 1, col: 0 });
    let toks = tokenize(" \n\n  ");
    assert_eq!(toks.len(), 1);
    assert_eq!(toks[0], Token { kind: TokenKind::Eof, start: 5, end: 5, line: 3, col: 2 });
}

#[test]
fn operator_table() {
    let cases = [
        ("++", TokenKind::PlusPlus),
        ("+=", TokenKind::PlusEqual),
        ("+", TokenKind::Plus),
        ("--", TokenKind::MinusMinus),
        ("-=", TokenKind::MinusEqual),
        ("->", TokenKind::ArrowOp),
        ("-", TokenKind::Minus),
        ("**", TokenKind::AsteriskAsterisk),
        ("*=", TokenKind::AsteriskEqual),
        ("*", TokenKind::Asterisk),
        ("//", TokenKind::SlashSlash),
        ("/=", TokenKind::SlashEqual),
        ("/", TokenKind::Slash),
        ("==", TokenKind::EqualEqual),
        ("=", TokenKind::Equal),
        ("::", TokenKind::ColonColon),
        (":=", TokenKind::ColonEqual),
        (":", TokenKind::Colon),
    ];
    for (src, kind) in cases {
        let toks = tokenize(src);
        assert_eq!(toks.len(), 2, "{}", src);
        assert_eq!(toks[0].kind, kind, "{}", src);
        assert_eq!(toks[0].end as usize, src.len());
    }
}

#[test]
fn short_form_leaves_the_next_character() {
    assert_eq!(kinds("+-"), vec![TokenKind::Plus, TokenKind::Minus, TokenKind::Eof]);
    assert_eq!(kinds("=+"), vec![TokenKind::Equal, TokenKind::Plus, TokenKind::Eof]);
    assert_eq!(kinds(":a"), vec![TokenKind::Colon, TokenKind::Identifier, TokenKind::Eof]);
    assert_eq!(
        kinds("+++"),
        vec![TokenKind::PlusPlus, TokenKind::Plus, TokenKind::Eof]
    );
}

#[test]
fn punctuation() {
    assert_eq!(
        kinds(";,.(){}[]"),
        vec![
            TokenKind::SemiColon,
            TokenKind::Comma,
            TokenKind::Dot,
            TokenKind::LParen,
            TokenKind::RParen,
            TokenKind::LBrace,
            TokenKind::RBrace,
            TokenKind::LBracket,
            TokenKind::RBracket,
            TokenKind::Eof,
        ]
    );
}

#[test]
fn identifiers_and_numbers() {
    let src = "ab_C1 2_3x";
    let toks = tokenize(src);
    let got: Vec<(TokenKind, &str)> = toks.iter().map(|t| (t.kind, text(src, t))).collect();
    assert_eq!(
        got,
        vec![
            (TokenKind::Identifier, "ab_C"),
            (TokenKind::NumberLiteral, "1"),
            (TokenKind::NumberLiteral, "2_3"),
            (TokenKind::Identifier, "x"),
            (TokenKind::Eof, ""),
        ]
    );
}

#[test]
fn unterminated_string_is_invalid() {
    let src = "x \"ab\ncd";
    let toks = tokenize(src);
    assert_eq!(toks.len(), 3);
    assert_eq!(toks[1].kind, TokenKind::Invalid);
    assert_eq!((toks[1].start, toks[1].end), (2, 8));
    assert_eq!(toks[2].kind, TokenKind::Eof);
    assert_eq!((toks[2].line, toks[2].col), (2, 2));
}

#[test]
fn string_over_lines_moves_the_line() {
    let src = "\"a\nb\" c";
    let toks = tokenize(src);
    assert_eq!(toks[0].kind, TokenKind::StringLiteral);
    assert_eq!(text(src, &toks[0]), "\"a\nb\"");
    assert_eq!((toks[1].line, toks[1].col), (2, 3));
}

#[test]
fn multibyte_characters() {
    let src = "é x \"ñ\" y";
    let toks = tokenize(src);
    let got: Vec<(TokenKind, &str, i32)> =
        toks.iter().map(|t| (t.kind, text(src, t), t.col)).collect();
    assert_eq!(
        got,
        vec![
            (TokenKind::Invalid, "é", 0),
            (TokenKind::Identifier, "x", 2),
            (TokenKind::StringLiteral, "\"ñ\"", 4),
            (TokenKind::Identifier, "y", 8),
            (TokenKind::Eof, "", 9),
        ]
    );
}

#[test]
fn kind_names() {
    assert_eq!(TokenKind::Eof.name(), "Eof");
    assert_eq!(TokenKind::ArrowOp.name(), "ArrowOp");
    assert_eq!(TokenKind::SemiColon.name(), "SemiColon");
    assert_eq!(TokenKind::RBracket.name(), "RBracket");
}

#[test]
fn operator_helpers() {
    assert_eq!(compiler_r2::grammar::pair_operator(b'-', b'>'), Some(TokenKind::ArrowOp));
    assert_eq!(compiler_r2::grammar::pair_operator(b'+', b'-'), None);
    assert_eq!(compiler_r2::grammar::single_operator(b'{'), Some(TokenKind::LBrace));
    assert_eq!(compiler_r2::grammar::single_operator(b'#'), None);
}
