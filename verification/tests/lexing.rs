use vyrn::lexer::Lexer;
use vyrn::token::{Token, TokenType};

fn lex(src: &str) -> Vec<Token> {
    let mut l = Lexer::new(src);
    match l.tokenize() {
        Ok(ts) => ts,
        Err(e) => panic!("unexpected lex error: {}", e.describe()),
    }
}

fn kinds(src: &str) -> Vec<TokenType> {
    lex(src).iter().map(|t| t.ty).collect()
}

#[test]
fn empty_source_gives_single_eof() {
    let ts = lex("");
    assert_eq!(ts.len(), 1);
    assert_eq!(ts[0].ty, TokenType::Eof);
    assert_eq!(ts[0].value, "");
    assert_eq!((ts[0].line, ts[0].col), (1, 1));
}

#[test]
fn keywords_types_and_identifiers() {
    assert_eq!(
        kinds("let mut x: i32 = foo_1;"),
        vec![
            TokenType::Let,
            TokenType::Mut,
            TokenType::Identifier,
            TokenType::Colon,
            TokenType::TyI32,
            TokenType::Assign,
            TokenType::Identifier,
            TokenType::Semicolon,
            TokenType::Eof,
        ]
    );
    assert_eq!(
        kinds("fn gen yield struct return in break continue true false if else for while"),
        vec![
            TokenType::Fn,
            TokenType::Gen,
            TokenType::Yield,
            TokenType::Struct,
            TokenType::Return,
            TokenType::In,
            TokenType::Break,
            TokenType::Continue,
            TokenType::True,
            TokenType::False,
            TokenType::If,
            TokenType::Else,
            TokenType::For,
            TokenType::While,
            TokenType::Eof,
        ]
    );
    assert_eq!(
        kinds("i64 f32 f64 str bool void u32"),
        vec![
            TokenType::TyI64,
            TokenType::TyF32,
            TokenType::TyF64,
            TokenType::TyStr,
            TokenType::TyBool,
            TokenType::TyVoid,
            TokenType::TyU32,
            TokenType::Eof,
        ]
    );
}

#[test]
fn operators_take_the_longest_match() {
    assert_eq!(
        kinds("-> == != <= << >= >> && || .. ..= . = ! < > & | ^ + - * / %"),
        vec![
            TokenType::Arrow,
            TokenType::EqEq,
            TokenType::BangEq,
            TokenType::LtEq,
            TokenType::LtLt,
            TokenType::GtEq,
            TokenType::GtGt,
            TokenType::AndAnd,
            TokenType::OrOr,
            TokenType::DotDot,
            TokenType::DotDotEq,
            TokenType::Dot,
            TokenType::Assign,
            TokenType::Bang,
            TokenType::Lt,
            TokenType::Gt,
            TokenType::Ampersand,
            TokenType::Pipe,
            TokenType::Caret,
            TokenType::Plus,
            TokenType::Minus,
            TokenType::Star,
            TokenType::Slash,
            TokenType::Percent,
            TokenType::Eof,
        ]
    );
    assert_eq!(
        kinds("( ) { } [ ] , ; : '"),
        vec![
            TokenType::LParen,
            TokenType::RParen,
            TokenType::LBrace,
            TokenType::RBrace,
            TokenType::LBracket,
            TokenType::RBracket,
            TokenType::Comma,
            TokenType::Semicolon,
            TokenType::Colon,
            TokenType::Tick,
            TokenType::Eof,
        ]
    );
}

#[test]
fn numbers_integers_floats_and_ranges() {
    let ts = lex("42 3.14 1..5 7.x");
    assert_eq!(ts[0].ty, TokenType::Integer);
    assert_eq!(ts[0].value, "42");
    assert_eq!(ts[1].ty, TokenType::Float);
    assert_eq!(ts[1].value, "3.14");
    assert_eq!(ts[2].ty, TokenType::Integer);
    assert_eq!(ts[2].value, "1");
    assert_eq!(ts[3].ty, TokenType::DotDot);
    assert_eq!(ts[4].value, "5");
    assert_eq!(ts[5].ty, TokenType::Integer);
    assert_eq!(ts[5].value, "7");
    assert_eq!(ts[6].ty, TokenType::Dot);
    assert_eq!(ts[7].ty, TokenType::Identifier);
}

#[test]
fn strings_with_escapes_and_fstrings() {
    let ts = lex(r#""a\nb\t\"q\"\\ \z" f"x = {x}""#);
    assert_eq!(ts[0].ty, TokenType::StringLit);
    assert_eq!(ts[0].value, "a\nb\t\"q\"\\ \\z");
    assert_eq!(ts[1].ty, TokenType::FString);
    assert_eq!(ts[1].value, "x = {x}");
    assert_eq!(ts[2].ty, TokenType::Eof);
}

#[test]
fn comments_are_skipped() {
    assert_eq!(
        kinds("a // line comment\n/* block\n comment */ b"),
        vec![TokenType::Identifier, TokenType::Identifier, TokenType::Eof]
    );
}

#[test]
fn positions_count_lines_and_columns_from_one() {
    let ts = lex("let x\n  = 1;");
    assert_eq!((ts[0].line, ts[0].col), (1, 1));
    assert_eq!((ts[1].line, ts[1].col), (1, 5));
    assert_eq!((ts[2].line, ts[2].col), (2, 3));
    assert_eq!((ts[3].line, ts[3].col), (2, 5));
    assert_eq!((ts[4].line, ts[4].col), (2, 6));
    assert_eq!(ts[5].ty, TokenType::Eof);
    assert_eq!((ts[5].line, ts[5].col), (2, 7));
}

fn lex_error(src: &str) -> (String, usize, usize) {
    let mut l = Lexer::new(src);
    match l.tokenize() {
        Ok(_) => panic!("expected a lex error"),
        Err(e) => (e.message.clone(), e.line, e.col),
    }
}

#[test]
fn unexpected_character_is_an_error() {
    assert_eq!(lex_error("let x = 1 @"), ("Unexpected character: '@'".to_string(), 1, 11));
}

#[test]
fn unterminated_literals_are_errors() {
    assert_eq!(lex_error("x \"abc"), ("Unterminated string".to_string(), 1, 3));
    assert_eq!(lex_error("f\"abc"), ("Unterminated f-string".to_string(), 1, 1));
    assert_eq!(lex_error("\n  /* never closed"), ("Unclosed block comment".to_string(), 2, 3));
    assert_eq!(lex_error("\"ab\\"), ("Unexpected end in escape".to_string(), 1, 1));
}

#[test]
fn lex_error_text() {
    let mut l = Lexer::new("#");
    let e = l.tokenize().err().unwrap();
    assert_eq!(e.describe(), "Lexer error at line 1, col 1: Unexpected character: '#'");
}

#[test]
fn token_type_names() {
    assert_eq!(TokenType::Identifier.name(), "Identifier");
    assert_eq!(TokenType::Semicolon.name(), "Semicolon");
}

#[test]
fn unicode_white_space_separates_tokens() {
    assert_eq!(
        kinds("a\u{3000}b\u{00A0}c\u{2029}d"),
        vec![TokenType::Identifier, TokenType::Identifier, TokenType::Identifier, TokenType::Identifier, TokenType::Eof]
    );
}

#[test]
fn tokens_stand_in_reading_order() {
    let ts = lex("let x = 1;\n  // note\n  y(\"s\")\n");
    for w in ts.windows(2) {
        assert!((w[0].line, w[0].col) < (w[1].line, w[1].col));
    }
    assert_eq!((ts[5].line, ts[5].col), (3, 3));
    assert_eq!((ts[ts.len() - 1].line, ts[ts.len() - 1].col), (4, 1));
}
