use vstd::prelude::*;

use crate::text::{char_is_alphabetic, char_is_whitespace, chars_of, is_alphabetic, is_ascii_digit, is_ident_char, is_whitespace, spec_is_digit, spec_is_ident_char, string_is};
use crate::token::{SpecToken, Token, TokenType, tokens_view};

verus! {

/// Turns Vyrn source text into tokens.
pub struct Lexer {
    source: Vec<char>,
    pos: usize,
    line: usize,
    col: usize,
}

/// A lexical error, with the 1-based line and column where the offending token starts.
#[derive(Debug)]
pub struct LexError {
    pub message: String,
    pub line: usize,
    pub col: usize,
}

pub struct SpecLexError {
    pub message: Seq<char>,
    pub line: int,
    pub col: int,
}

impl View for LexError {
    type V = SpecLexError;

    open spec fn view(&self) -> SpecLexError {
        SpecLexError { message: self.message@, line: self.line as int, col: self.col as int }
    }
}

// ─── The lexical rules ───────────────────────────────────────────────────────

/// Character `c` stands at index `i` of `s`.
pub open spec fn at(s: Seq<char>, i: int, c: char) -> bool {
    0 <= i < s.len() && s[i] == c
}

/// The 1-based line of index `p` of `s`.
pub open spec fn line_at(s: Seq<char>, p: int) -> int
    decreases p,
{
    if p <= 0 {
        1
    } else {
        line_at(s, p - 1) + if s[p - 1] == '\n' {
            1int
        } else {
            0int
        }
    }
}

/// The 1-based column of index `p` of `s`.
pub open spec fn col_at(s: Seq<char>, p: int) -> int
    decreases p,
{
    if p <= 0 {
        1
    } else if s[p - 1] == '\n' {
        1
    } else {
        col_at(s, p - 1) + 1
    }
}

/// The first index at or after `p` that holds no whitespace.
pub open spec fn skip_ws(s: Seq<char>, p: int) -> int
    decreases s.len() - p,
{
    if 0 <= p < s.len() && char_is_whitespace(s[p]) {
        skip_ws(s, p + 1)
    } else {
        p
    }
}

/// The first index at or after `p` that holds a newline, or the end.
pub open spec fn line_end(s: Seq<char>, p: int) -> int
    decreases s.len() - p,
{
    if 0 <= p < s.len() && s[p] != '\n' {
        line_end(s, p + 1)
    } else {
        p
    }
}

/// The index just after the first `*/` at or after `p`, if there is one.
pub open spec fn block_end(s: Seq<char>, p: int) -> Option<int>
    decreases s.len() - p,
{
    if p < 0 || p >= s.len() {
        None
    } else if s[p] == '*' && at(s, p + 1, '/') {
        Some(p + 2)
    } else {
        block_end(s, p + 1)
    }
}

/// What an escape sequence `\c` in a string literal stands for.
pub open spec fn escape_text(c: char) -> Seq<char> {
    if c == 'n' {
        seq!['\n']
    } else if c == 't' {
        seq!['\t']
    } else if c == 'r' {
        seq!['\r']
    } else if c == '\\' {
        seq!['\\']
    } else if c == '"' {
        seq!['"']
    } else {
        seq!['\\', c]
    }
}

/// Put `prefix` in front of the text of a successful scan.
pub open spec fn prepend_text(prefix: Seq<char>, r: Result<(Seq<char>, int), Seq<char>>) -> Result<
    (Seq<char>, int),
    Seq<char>,
> {
    match r {
        Ok((v, n)) => Ok((prefix + v, n)),
        Err(m) => Err(m),
    }
}

/// The contents of a string literal whose body starts at `p`, and the index after its
/// closing quote; or the error message.
pub open spec fn string_body(s: Seq<char>, p: int) -> Result<(Seq<char>, int), Seq<char>>
    decreases s.len() - p,
{
    if p < 0 || p >= s.len() {
        Err("Unterminated string"@)
    } else if s[p] == '"' {
        Ok((Seq::empty(), p + 1))
    } else if s[p] == '\\' {
        if p + 1 >= s.len() {
            Err("Unexpected end in escape"@)
        } else {
            prepend_text(escape_text(s[p + 1]), string_body(s, p + 2))
        }
    } else {
        prepend_text(seq![s[p]], string_body(s, p + 1))
    }
}

/// The contents of an f-string whose body starts at `p` (no escapes), and the index after
/// its closing quote; or the error message.
pub open spec fn fstring_body(s: Seq<char>, p: int) -> Result<(Seq<char>, int), Seq<char>>
    decreases s.len() - p,
{
    if p < 0 || p >= s.len() {
        Err("Unterminated f-string"@)
    } else if s[p] == '"' {
        Ok((Seq::empty(), p + 1))
    } else {
        prepend_text(seq![s[p]], fstring_body(s, p + 1))
    }
}

/// The end of a number literal whose digits continue at `p`, and whether it holds a
/// decimal point. A `.` belongs to the number only when a digit follows it.
pub open spec fn number_end(s: Seq<char>, p: int, is_float: bool) -> (int, bool)
    decreases s.len() - p,
{
    if 0 <= p < s.len() && spec_is_digit(s[p]) {
        number_end(s, p + 1, is_float)
    } else if !is_float && at(s, p, '.') && p + 1 < s.len() && spec_is_digit(s[p + 1]) {
        number_end(s, p + 1, true)
    } else {
        (p, is_float)
    }
}

/// The end of an identifier that continues at `p`.
pub open spec fn ident_end(s: Seq<char>, p: int) -> int
    decreases s.len() - p,
{
    if 0 <= p < s.len() && spec_is_ident_char(s[p]) {
        ident_end(s, p + 1)
    } else {
        p
    }
}

/// The kind of a word: a keyword, a type keyword, or an identifier.
pub open spec fn keyword_type(w: Seq<char>) -> TokenType {
    if w == "let"@ {
        TokenType::Let
    } else if w == "fn"@ {
        TokenType::Fn
    } else if w == "if"@ {
        TokenType::If
    } else if w == "else"@ {
        TokenType::Else
    } else if w == "for"@ {
        TokenType::For
    } else if w == "while"@ {
        TokenType::While
    } else if w == "struct"@ {
        TokenType::Struct
    } else if w == "return"@ {
        TokenType::Return
    } else if w == "in"@ {
        TokenType::In
    } else if w == "break"@ {
        TokenType::Break
    } else if w == "continue"@ {
        TokenType::Continue
    } else if w == "yield"@ {
        TokenType::Yield
    } else if w == "gen"@ {
        TokenType::Gen
    } else if w == "true"@ {
        TokenType::True
    } else if w == "false"@ {
        TokenType::False
    } else if w == "mut"@ {
        TokenType::Mut
    } else if w == "i32"@ {
        TokenType::TyI32
    } else if w == "i64"@ {
        TokenType::TyI64
    } else if w == "f32"@ {
        TokenType::TyF32
    } else if w == "f64"@ {
        TokenType::TyF64
    } else if w == "str"@ {
        TokenType::TyStr
    } else if w == "bool"@ {
        TokenType::TyBool
    } else if w == "void"@ {
        TokenType::TyVoid
    } else if w == "u32"@ {
        TokenType::TyU32
    } else {
        TokenType::Identifier
    }
}

/// The operator or delimiter that starts at index `q`: its kind, its text and its length.
pub open spec fn symbol_token(s: Seq<char>, q: int) -> Option<(TokenType, Seq<char>, int)> {
    let c = s[q];
    if c == '/' {
        Some((TokenType::Slash, "/"@, 1))
    } else if c == '+' {
        Some((TokenType::Plus, "+"@, 1))
    } else if c == '-' {
        if at(s, q + 1, '>') {
            Some((TokenType::Arrow, "->"@, 2))
        } else {
            Some((TokenType::Minus, "-"@, 1))
        }
    } else if c == '*' {
        Some((TokenType::Star, "*"@, 1))
    } else if c == '%' {
        Some((TokenType::Percent, "%"@, 1))
    } else if c == '=' {
        if at(s, q + 1, '=') {
            Some((TokenType::EqEq, "=="@, 2))
        } else {
            Some((TokenType::Assign, "="@, 1))
        }
    } else if c == '!' {
        if at(s, q + 1, '=') {
            Some((TokenType::BangEq, "!="@, 2))
        } else {
            Some((TokenType::Bang, "!"@, 1))
        }
    } else if c == '<' {
        if at(s, q + 1, '=') {
            Some((TokenType::LtEq, "<="@, 2))
        } else if at(s, q + 1, '<') {
            Some((TokenType::LtLt, "<<"@, 2))
        } else {
            Some((TokenType::Lt, "<"@, 1))
        }
    } else if c == '>' {
        if at(s, q + 1, '=') {
            Some((TokenType::GtEq, ">="@, 2))
        } else if at(s, q + 1, '>') {
            Some((TokenType::GtGt, ">>"@, 2))
        } else {
            Some((TokenType::Gt, ">"@, 1))
        }
    } else if c == '&' {
        if at(s, q + 1, '&') {
            Some((TokenType::AndAnd, "&&"@, 2))
        } else {
            Some((TokenType::Ampersand, "&"@, 1))
        }
    } else if c == '|' {
        if at(s, q + 1, '|') {
            Some((TokenType::OrOr, "||"@, 2))
        } else {
            Some((TokenType::Pipe, "|"@, 1))
        }
    } else if c == '^' {
        Some((TokenType::Caret, "^"@, 1))
    } else if c == '.' {
        if at(s, q + 1, '.') {
            if at(s, q + 2, '=') {
                Some((TokenType::DotDotEq, "..="@, 3))
            } else {
                Some((TokenType::DotDot, ".."@, 2))
            }
        } else {
            Some((TokenType::Dot, "."@, 1))
        }
    } else if c == '(' {
        Some((TokenType::LParen, "("@, 1))
    } else if c == ')' {
        Some((TokenType::RParen, ")"@, 1))
    } else if c == '{' {
        Some((TokenType::LBrace, "{"@, 1))
    } else if c == '}' {
        Some((TokenType::RBrace, "}"@, 1))
    } else if c == '[' {
        Some((TokenType::LBracket, "["@, 1))
    } else if c == ']' {
        Some((TokenType::RBracket, "]"@, 1))
    } else if c == ',' {
        Some((TokenType::Comma, ","@, 1))
    } else if c == ';' {
        Some((TokenType::Semicolon, ";"@, 1))
    } else if c == ':' {
        Some((TokenType::Colon, ":"@, 1))
    } else if c == '\'' {
        Some((TokenType::Tick, "'"@, 1))
    } else {
        None
    }
}

/// A token of kind `ty` and text `v` that starts at index `q` of `s`.
pub open spec fn tok_at(ty: TokenType, v: Seq<char>, s: Seq<char>, q: int) -> SpecToken {
    SpecToken { ty, value: v, line: line_at(s, q), col: col_at(s, q) }
}

/// An error with message `m` located at index `q` of `s`.
pub open spec fn err_at(m: Seq<char>, s: Seq<char>, q: int) -> SpecLexError {
    SpecLexError { message: m, line: line_at(s, q), col: col_at(s, q) }
}

/// What the lexer does at a token start: skip a comment up to an index, emit a token
/// and go on at an index, or fail.
pub enum LexStep {
    Skip(int),
    Emit(SpecToken, int),
    Fail(SpecLexError),
}

/// The message for a character that starts no token.
pub open spec fn unexpected_message(c: char) -> Seq<char> {
    "Unexpected character: '"@ + seq![c] + "'"@
}

/// The lexer's step at index `q`, which holds no whitespace.
pub open spec fn lex_step(s: Seq<char>, q: int) -> LexStep {
    let c = s[q];
    if c == '/' && at(s, q + 1, '/') {
        LexStep::Skip(line_end(s, q + 2))
    } else if c == '/' && at(s, q + 1, '*') {
        match block_end(s, q + 2) {
            Some(n) => LexStep::Skip(n),
            None => LexStep::Fail(err_at("Unclosed block comment"@, s, q)),
        }
    } else if c == 'f' && at(s, q + 1, '"') {
        match fstring_body(s, q + 2) {
            Ok((v, n)) => LexStep::Emit(tok_at(TokenType::FString, v, s, q), n),
            Err(m) => LexStep::Fail(err_at(m, s, q)),
        }
    } else if c == '"' {
        match string_body(s, q + 1) {
            Ok((v, n)) => LexStep::Emit(tok_at(TokenType::StringLit, v, s, q), n),
            Err(m) => LexStep::Fail(err_at(m, s, q)),
        }
    } else if spec_is_digit(c) {
        let (n, fl) = number_end(s, q + 1, false);
        LexStep::Emit(
            tok_at(
                if fl {
                    TokenType::Float
                } else {
                    TokenType::Integer
                },
                s.subrange(q, n),
                s,
                q,
            ),
            n,
        )
    } else if char_is_alphabetic(c) || c == '_' {
        let n = ident_end(s, q + 1);
        LexStep::Emit(tok_at(keyword_type(s.subrange(q, n)), s.subrange(q, n), s, q), n)
    } else {
        match symbol_token(s, q) {
            Some((ty, text, len)) => LexStep::Emit(tok_at(ty, text, s, q), q + len),
            None => LexStep::Fail(err_at(unexpected_message(c), s, q)),
        }
    }
}

/// Put `prefix` in front of the tokens of a successful run.
pub open spec fn prepend(prefix: Seq<SpecToken>, r: Result<Seq<SpecToken>, SpecLexError>) -> Result<
    Seq<SpecToken>,
    SpecLexError,
> {
    match r {
        Ok(ts) => Ok(prefix + ts),
        Err(e) => Err(e),
    }
}

/// The tokens of `s` from index `p` on, ending with `Eof`; or the first error.
pub open spec fn lex_from(s: Seq<char>, p: int) -> Result<Seq<SpecToken>, SpecLexError>
    decreases s.len() - p,
{
    let q = skip_ws(s, p);
    if q < 0 || q >= s.len() {
        Ok(seq![tok_at(TokenType::Eof, Seq::empty(), s, q)])
    } else {
        match lex_step(s, q) {
            LexStep::Skip(n) => if p < n <= s.len() {
                lex_from(s, n)
            } else {
                Err(err_at(Seq::empty(), s, q))
            },
            LexStep::Emit(t, n) => if p < n <= s.len() {
                prepend(seq![t], lex_from(s, n))
            } else {
                Err(err_at(Seq::empty(), s, q))
            },
            LexStep::Fail(e) => Err(e),
        }
    }
}

/// The tokens of the whole text `s`.
pub open spec fn lex(s: Seq<char>) -> Result<Seq<SpecToken>, SpecLexError> {
    lex_from(s, 0)
}

/// The mathematical content of a tokenizer result.
pub open spec fn lex_result_view(r: Result<Vec<Token>, LexError>) -> Result<
    Seq<SpecToken>,
    SpecLexError,
> {
    match r {
        Ok(v) => Ok(tokens_view(v@)),
        Err(e) => Err(e@),
    }
}

// ─── Lemmas ──────────────────────────────────────────────────────────────────

proof fn lemma_line_col_bound(s: Seq<char>, p: int)
    requires
        0 <= p,
    ensures
        1 <= line_at(s, p) <= p + 1,
        1 <= col_at(s, p) <= p + 1,
    decreases p,
{
    if p > 0 {
        lemma_line_col_bound(s, p - 1);
    }
}

proof fn lemma_skip_ws(s: Seq<char>, p: int)
    requires
        0 <= p <= s.len(),
    ensures
        p <= skip_ws(s, p) <= s.len(),
        skip_ws(s, p) < s.len() ==> !char_is_whitespace(s[skip_ws(s, p)]),
    decreases s.len() - p,
{
    if p < s.len() && char_is_whitespace(s[p]) {
        lemma_skip_ws(s, p + 1);
    }
}

/// The tokens end with `Eof`, and no other token is `Eof`.
pub open spec fn ends_with_single_eof(ts: Seq<SpecToken>) -> bool {
    &&& ts.len() > 0
    &&& ts.last().ty == TokenType::Eof
    &&& forall|i: int| 0 <= i < ts.len() - 1 ==> (#[trigger] ts[i]).ty != TokenType::Eof
}

proof fn lemma_step_emits_no_eof(s: Seq<char>, q: int)
    requires
        0 <= q < s.len(),
    ensures
        lex_step(s, q) matches LexStep::Emit(t, _) ==> t.ty != TokenType::Eof,
{
}

/// Whatever the text, a successful run of the lexer gives tokens that end with a single
/// `Eof`: the last token is `Eof` and no earlier one is.
pub proof fn lemma_lex_ends_with_eof(s: Seq<char>, p: int)
    ensures
        lex_from(s, p) matches Ok(ts) ==> ends_with_single_eof(ts),
    decreases s.len() - p,
{
    let q = skip_ws(s, p);
    if !(q < 0 || q >= s.len()) {
        lemma_step_emits_no_eof(s, q);
        match lex_step(s, q) {
            LexStep::Skip(n) => {
                if p < n <= s.len() {
                    lemma_lex_ends_with_eof(s, n);
                }
            },
            LexStep::Emit(t, n) => {
                if p < n <= s.len() {
                    lemma_lex_ends_with_eof(s, n);
                    if let Ok(rest) = lex_from(s, n) {
                        let all = seq![t] + rest;
                        assert(all.last() == rest.last());
                        assert forall|i: int| 0 <= i < all.len() - 1 implies (
                        #[trigger] all[i]).ty != TokenType::Eof by {
                            if i > 0 {
                                assert(all[i] == rest[i - 1]);
                            }
                        }
                    }
                }
            },
            LexStep::Fail(_) => {},
        }
    }
}

/// Every token starts at a line and column numbered from 1.
pub open spec fn tokens_positioned(ts: Seq<SpecToken>) -> bool {
    forall|i: int| 0 <= i < ts.len() ==> (#[trigger] ts[i]).line >= 1 && ts[i].col >= 1
}

proof fn lemma_skip_ws_from(s: Seq<char>, p: int)
    requires
        0 <= p,
    ensures
        p <= skip_ws(s, p),
    decreases s.len() - p,
{
    if 0 <= p < s.len() && char_is_whitespace(s[p]) {
        lemma_skip_ws_from(s, p + 1);
    }
}

/// The lines and columns of the tokens that the lexer gives are numbered from 1.
pub proof fn lemma_lex_positions(s: Seq<char>, p: int)
    requires
        0 <= p,
    ensures
        lex_from(s, p) matches Ok(ts) ==> tokens_positioned(ts),
    decreases s.len() - p,
{
    let q = skip_ws(s, p);
    lemma_skip_ws_from(s, p);
    lemma_line_col_bound(s, q);
    if !(q < 0 || q >= s.len()) {
        match lex_step(s, q) {
            LexStep::Skip(n) => {
                if p < n <= s.len() {
                    lemma_lex_positions(s, n);
                }
            },
            LexStep::Emit(t, n) => {
                if p < n <= s.len() {
                    lemma_lex_positions(s, n);
                    if let Ok(rest) = lex_from(s, n) {
                        let all = seq![t] + rest;
                        assert forall|i: int| 0 <= i < all.len() implies (#[trigger] all[i]).line
                            >= 1 && all[i].col >= 1 by {
                            if i > 0 {
                                assert(all[i] == rest[i - 1]);
                            }
                        }
                    }
                }
            },
            LexStep::Fail(_) => {},
        }
    }
}

// ─── Where the tokens stand ──────────────────────────────────────────────────

/// Index `a` of `s` comes before index `b` in reading order: on an earlier line, or on the
/// same line at an earlier column.
pub open spec fn pos_before(s: Seq<char>, a: int, b: int) -> bool {
    line_at(s, a) < line_at(s, b) || (line_at(s, a) == line_at(s, b) && col_at(s, a) < col_at(s, b))
}

/// Token `a` stands before token `b`: on an earlier line, or on the same line at an earlier
/// column.
pub open spec fn token_before(a: SpecToken, b: SpecToken) -> bool {
    a.line < b.line || (a.line == b.line && a.col < b.col)
}

/// The indices of `s` at which the tokens read from index `p` on start (the last, that of
/// `Eof`, is where the text ends).
pub open spec fn token_starts(s: Seq<char>, p: int) -> Seq<int>
    decreases s.len() - p,
{
    let q = skip_ws(s, p);
    if q < 0 || q >= s.len() {
        seq![q]
    } else {
        match lex_step(s, q) {
            LexStep::Skip(n) => if p < n <= s.len() {
                token_starts(s, n)
            } else {
                Seq::empty()
            },
            LexStep::Emit(_, n) => if p < n <= s.len() {
                seq![q] + token_starts(s, n)
            } else {
                Seq::empty()
            },
            LexStep::Fail(_) => Seq::empty(),
        }
    }
}

proof fn lemma_pos_mono(s: Seq<char>, a: int, b: int)
    requires
        0 <= a < b <= s.len(),
    ensures
        pos_before(s, a, b),
    decreases b - a,
{
    if a + 1 < b {
        lemma_pos_mono(s, a, b - 1);
    }
    assert(line_at(s, b) == line_at(s, b - 1) + if s[b - 1] == '\n' { 1int } else { 0int });
}

proof fn lemma_string_body_ends(s: Seq<char>, p: int)
    ensures
        string_body(s, p) matches Ok((_, n)) ==> n > p,
    decreases s.len() - p,
{
    if !(p < 0 || p >= s.len()) && s[p] != '"' {
        if s[p] == '\\' {
            if p + 1 < s.len() {
                lemma_string_body_ends(s, p + 2);
            }
        } else {
            lemma_string_body_ends(s, p + 1);
        }
    }
}

proof fn lemma_fstring_body_ends(s: Seq<char>, p: int)
    ensures
        fstring_body(s, p) matches Ok((_, n)) ==> n > p,
    decreases s.len() - p,
{
    if !(p < 0 || p >= s.len()) && s[p] != '"' {
        lemma_fstring_body_ends(s, p + 1);
    }
}

proof fn lemma_number_end_grows(s: Seq<char>, p: int, is_float: bool)
    ensures
        number_end(s, p, is_float).0 >= p,
    decreases s.len() - p,
{
    if 0 <= p < s.len() && spec_is_digit(s[p]) {
        lemma_number_end_grows(s, p + 1, is_float);
    } else if !is_float && at(s, p, '.') && p + 1 < s.len() && spec_is_digit(s[p + 1]) {
        lemma_number_end_grows(s, p + 1, true);
    }
}

proof fn lemma_ident_end_grows(s: Seq<char>, p: int)
    ensures
        ident_end(s, p) >= p,
    decreases s.len() - p,
{
    if 0 <= p < s.len() && spec_is_ident_char(s[p]) {
        lemma_ident_end_grows(s, p + 1);
    }
}

/// A token takes at least one character.
proof fn lemma_step_progress(s: Seq<char>, q: int)
    requires
        0 <= q < s.len(),
    ensures
        lex_step(s, q) matches LexStep::Emit(_, n) ==> n > q,
{
    lemma_string_body_ends(s, q + 1);
    lemma_fstring_body_ends(s, q + 2);
    lemma_number_end_grows(s, q + 1, false);
    lemma_ident_end_grows(s, q + 1);
    if let Some((ty, text, len)) = symbol_token(s, q) {
        assert(len >= 1);
    }
}

/// Each token the lexer gives stands at the line and column of the index where it starts
/// (`Eof` where the text ends), and those indices strictly increase.
proof fn lemma_token_starts(s: Seq<char>, p: int)
    requires
        0 <= p <= s.len(),
    ensures
        lex_from(s, p) matches Ok(ts) ==> ({
            let st = token_starts(s, p);
            &&& st.len() == ts.len()
            &&& forall|i: int|
                0 <= i < ts.len() ==> p <= #[trigger] st[i] <= s.len() && ts[i].line == line_at(
                    s,
                    st[i],
                ) && ts[i].col == col_at(s, st[i])
            &&& forall|i: int, j: int| 0 <= i < j < ts.len() ==> #[trigger] st[i] < #[trigger] st[j]
        }),
    decreases s.len() - p,
{
    let q = skip_ws(s, p);
    lemma_skip_ws(s, p);
    if !(q < 0 || q >= s.len()) {
        match lex_step(s, q) {
            LexStep::Skip(n) => {
                if p < n <= s.len() {
                    lemma_token_starts(s, n);
                }
            },
            LexStep::Emit(t, n) => {
                if p < n <= s.len() {
                    lemma_token_starts(s, n);
                    lemma_step_progress(s, q);
                    assert(t.line == line_at(s, q) && t.col == col_at(s, q));
                    if let Ok(rest) = lex_from(s, n) {
                        let st = token_starts(s, p);
                        let rs = token_starts(s, n);
                        let ts = seq![t] + rest;
                        assert(st == seq![q] + rs);
                        assert forall|i: int|
                            0 <= i < ts.len() implies p <= #[trigger] st[i] <= s.len() && ts[i].line
                            == line_at(s, st[i]) && ts[i].col == col_at(s, st[i]) by {
                            if i > 0 {
                                assert(ts[i] == rest[i - 1] && st[i] == rs[i - 1]);
                            }
                        }
                        assert forall|i: int, j: int| 0 <= i < j < ts.len() implies #[trigger] st[i]
                            < #[trigger] st[j] by {
                            assert(st[j] == rs[j - 1]);
                            if i > 0 {
                                assert(st[i] == rs[i - 1]);
                            }
                        }
                    }
                }
            },
            LexStep::Fail(_) => {},
        }
    }
}

/// The tokens of a text stand in reading order: each token's line and column are those of
/// the character it starts at (for `Eof`, of the end of the text), and each token stands
/// before every later one.
pub proof fn lemma_lex_token_order(s: Seq<char>)
    ensures
        lex(s) matches Ok(ts) ==> ({
            let st = token_starts(s, 0);
            &&& st.len() == ts.len()
            &&& forall|i: int|
                0 <= i < ts.len() ==> 0 <= #[trigger] st[i] <= s.len() && ts[i].line == line_at(
                    s,
                    st[i],
                ) && ts[i].col == col_at(s, st[i])
            &&& forall|i: int, j: int|
                0 <= i < j < ts.len() ==> token_before(#[trigger] ts[i], #[trigger] ts[j])
        }),
{
    lemma_token_starts(s, 0);
    if let Ok(ts) = lex(s) {
        let st = token_starts(s, 0);
        assert forall|i: int, j: int| 0 <= i < j < ts.len() implies token_before(
            #[trigger] ts[i],
            #[trigger] ts[j],
        ) by {
            assert(st[i] < st[j]);
            assert(0 <= st[i] && st[j] <= s.len());
            lemma_pos_mono(s, st[i], st[j]);
        }
    }
}

// ─── The lexer ───────────────────────────────────────────────────────────────

impl Lexer {
    /// The characters being lexed.
    pub closed spec fn source_view(&self) -> Seq<char> {
        self.source@
    }

    /// The index of the next character to read.
    pub closed spec fn position(&self) -> int {
        self.pos as int
    }

    /// The position is within the text, and the line and column are those of the position.
    pub closed spec fn wf(&self) -> bool {
        &&& self.pos <= self.source@.len()
        &&& self.source@.len() < usize::MAX
        &&& self.line == line_at(self.source@, self.pos as int)
        &&& self.col == col_at(self.source@, self.pos as int)
    }

    pub fn new(source: &str) -> (l: Self)
        requires
            source@.len() < usize::MAX,
        ensures
            l.wf(),
            l.source_view() == source@,
            l.position() == 0,
    {
        Lexer { source: chars_of(source), pos: 0, line: 1, col: 1 }
    }

    fn peek(&self) -> (r: Option<char>)
        requires
            self.wf(),
        ensures
            self.pos < self.source@.len() ==> r == Some(self.source@[self.pos as int]),
            self.pos >= self.source@.len() ==> r is None,
    {
        if self.pos < self.source.len() {
            Some(self.source[self.pos])
        } else {
            None
        }
    }

    fn peek_next(&self) -> (r: Option<char>)
        requires
            self.wf(),
        ensures
            self.pos + 1 < self.source@.len() ==> r == Some(self.source@[self.pos + 1]),
            self.pos + 1 >= self.source@.len() ==> r is None,
    {
        if self.pos + 1 < self.source.len() {
            Some(self.source[self.pos + 1])
        } else {
            None
        }
    }

    /// The next character is `c`.
    fn next_is(&self, c: char) -> (r: bool)
        requires
            self.wf(),
        ensures
            r == at(self.source@, self.pos as int, c),
    {
        match self.peek() {
            Some(d) => d == c,
            None => false,
        }
    }

    fn advance(&mut self) -> (r: Option<char>)
        requires
            old(self).wf(),
        ensures
            final(self).wf(),
            final(self).source@ == old(self).source@,
            old(self).pos < old(self).source@.len() ==> r == Some(
                old(self).source@[old(self).pos as int],
            ) && final(self).pos == old(self).pos + 1,
            old(self).pos >= old(self).source@.len() ==> r is None && final(self).pos == old(self).pos,
    {
        if self.pos >= self.source.len() {
            return None;
        }
        let ch = self.source[self.pos];
        proof {
            lemma_line_col_bound(self.source@, self.pos as int);
        }
        self.pos = self.pos + 1;
        if ch == '\n' {
            self.line = self.line + 1;
            self.col = 1;
        } else {
            self.col = self.col + 1;
        }
        Some(ch)
    }

    fn skip_whitespace(&mut self)
        requires
            old(self).wf(),
        ensures
            final(self).wf(),
            final(self).source@ == old(self).source@,
            final(self).pos == skip_ws(final(self).source@, old(self).pos as int),
    {
        loop
            invariant
                self.wf(),
                self.source@ == old(self).source@,
                skip_ws(self.source@, self.pos as int) == skip_ws(
                    self.source@,
                    old(self).pos as int,
                ),
            decreases self.source@.len() - self.pos,
        {
            let more = match self.peek() {
                Some(c) => is_whitespace(c),
                None => false,
            };
            if !more {
                return ;
            }
            self.advance();
        }
    }

    fn skip_line_comment(&mut self)
        requires
            old(self).wf(),
        ensures
            final(self).wf(),
            final(self).source@ == old(self).source@,
            final(self).pos == line_end(final(self).source@, old(self).pos as int),
            old(self).pos <= final(self).pos,
    {
        loop
            invariant
                old(self).pos <= self.pos,
                self.wf(),
                self.source@ == old(self).source@,
                line_end(self.source@, self.pos as int) == line_end(
                    self.source@,
                    old(self).pos as int,
                ),
            decreases self.source@.len() - self.pos,
        {
            match self.peek() {
                Some(c) => {
                    if c == '\n' {
                        return ;
                    }
                },
                None => {
                    return ;
                },
            }
            self.advance();
        }
    }

    fn skip_block_comment(&mut self, start_line: usize, start_col: usize) -> (r: Result<
        (),
        LexError,
    >)
        requires
            old(self).wf(),
        ensures
            final(self).wf(),
            final(self).source@ == old(self).source@,
            match block_end(final(self).source@, old(self).pos as int) {
                Some(n) => r is Ok && final(self).pos == n,
                None => r matches Err(e) && e@ == SpecLexError {
                    message: "Unclosed block comment"@,
                    line: start_line as int,
                    col: start_col as int,
                },
            },
            old(self).pos <= final(self).pos,
    {
        loop
            invariant
                old(self).pos <= self.pos,
                self.wf(),
                self.source@ == old(self).source@,
                block_end(self.source@, self.pos as int) == block_end(
                    self.source@,
                    old(self).pos as int,
                ),
            decreases self.source@.len() - self.pos,
        {
            match self.advance() {
                None => {
                    return Err(
                        LexError {
                            message: String::from_str("Unclosed block comment"),
                            line: start_line,
                            col: start_col,
                        },
                    );
                },
                Some(c) => {
                    if c == '*' && self.next_is('/') {
                        self.advance();
                        return Ok(());
                    }
                },
            }
        }
    }

    fn read_string(&mut self, line: usize, col: usize) -> (r: Result<Token, LexError>)
        requires
            old(self).wf(),
        ensures
            final(self).wf(),
            final(self).source@ == old(self).source@,
            match string_body(final(self).source@, old(self).pos as int) {
                Ok((v, n)) => r matches Ok(t) && t@ == SpecToken {
                    ty: TokenType::StringLit,
                    value: v,
                    line: line as int,
                    col: col as int,
                } && final(self).pos == n,
                Err(m) => r matches Err(e) && e@ == SpecLexError {
                    message: m,
                    line: line as int,
                    col: col as int,
                },
            },
            old(self).pos <= final(self).pos,
    {
        let mut s = String::new();
        loop
            invariant
                old(self).pos <= self.pos,
                self.wf(),
                self.source@ == old(self).source@,
                string_body(self.source@, old(self).pos as int) == prepend_text(
                    s@,
                    string_body(self.source@, self.pos as int),
                ),
            decreases self.source@.len() - self.pos,
        {
            let ghost s0 = s@;
            match self.advance() {
                None => {
                    return Err(
                        LexError {
                            message: String::from_str("Unterminated string"),
                            line,
                            col,
                        },
                    );
                },
                Some(c) => {
                    if c == '"' {
                        assert(s@ + Seq::<char>::empty() =~= s@);
                        return Ok(Token::new(TokenType::StringLit, s, line, col));
                    } else if c == '\\' {
                        match self.advance() {
                            None => {
                                return Err(
                                    LexError {
                                        message: String::from_str("Unexpected end in escape"),
                                        line,
                                        col,
                                    },
                                );
                            },
                            Some(e) => {
                                if e == 'n' {
                                    s.push('\n');
                                } else if e == 't' {
                                    s.push('\t');
                                } else if e == 'r' {
                                    s.push('\r');
                                } else if e == '\\' {
                                    s.push('\\');
                                } else if e == '"' {
                                    s.push('"');
                                } else {
                                    s.push('\\');
                                    s.push(e);
                                }
                                assert(s@ =~= s0 + escape_text(e));
                                proof {
                                    let r = string_body(self.source@, self.pos as int);
                                    match r {
                                        Ok((v, n)) => {
                                            assert(s0 + (escape_text(e) + v) =~= s@ + v);
                                        },
                                        Err(_) => {},
                                    }
                                }
                            },
                        }
                    } else {
                        s.push(c);
                        proof {
                            let r = string_body(self.source@, self.pos as int);
                            match r {
                                Ok((v, n)) => {
                                    assert(s0 + (seq![c] + v) =~= s@ + v);
                                },
                                Err(_) => {},
                            }
                        }
                    }
                },
            }
        }
    }

    fn read_fstring(&mut self, line: usize, col: usize) -> (r: Result<Token, LexError>)
        requires
            old(self).wf(),
            at(old(self).source@, old(self).pos as int, '"'),
        ensures
            final(self).wf(),
            final(self).source@ == old(self).source@,
            match fstring_body(final(self).source@, old(self).pos + 1) {
                Ok((v, n)) => r matches Ok(t) && t@ == SpecToken {
                    ty: TokenType::FString,
                    value: v,
                    line: line as int,
                    col: col as int,
                } && final(self).pos == n,
                Err(m) => r matches Err(e) && e@ == SpecLexError {
                    message: m,
                    line: line as int,
                    col: col as int,
                },
            },
            old(self).pos <= final(self).pos,
    {
        match self.advance() {
            Some(q) => {
                if q != '"' {
                    return Err(
                        LexError {
                            message: String::from_str("Expected '\"' after 'f'"),
                            line,
                            col,
                        },
                    );
                }
            },
            None => {
                return Err(
                    LexError { message: String::from_str("Expected '\"' after 'f'"), line, col },
                );
            },
        }
        let mut s = String::new();
        loop
            invariant
                old(self).pos <= self.pos,
                self.wf(),
                self.source@ == old(self).source@,
                fstring_body(self.source@, old(self).pos + 1) == prepend_text(
                    s@,
                    fstring_body(self.source@, self.pos as int),
                ),
            decreases self.source@.len() - self.pos,
        {
            let ghost s0 = s@;
            match self.advance() {
                None => {
                    return Err(
                        LexError { message: String::from_str("Unterminated f-string"), line, col },
                    );
                },
                Some(c) => {
                    if c == '"' {
                        assert(s@ + Seq::<char>::empty() =~= s@);
                        return Ok(Token::new(TokenType::FString, s, line, col));
                    }
                    s.push(c);
                    proof {
                        let r = fstring_body(self.source@, self.pos as int);
                        match r {
                            Ok((v, n)) => {
                                assert(s0 + (seq![c] + v) =~= s@ + v);
                            },
                            Err(_) => {},
                        }
                    }
                },
            }
        }
    }

    fn read_number(&mut self, first: char, line: usize, col: usize) -> (t: Token)
        requires
            old(self).wf(),
            1 <= old(self).pos,
            old(self).source@[old(self).pos - 1] == first,
        ensures
            final(self).wf(),
            final(self).source@ == old(self).source@,
            ({
                let (n, fl) = number_end(final(self).source@, old(self).pos as int, false);
                &&& t@ == SpecToken {
                    ty: if fl {
                        TokenType::Float
                    } else {
                        TokenType::Integer
                    },
                    value: final(self).source@.subrange(old(self).pos - 1, n),
                    line: line as int,
                    col: col as int,
                }
                &&& final(self).pos == n
            }),
            old(self).pos <= final(self).pos,
    {
        let ghost start = old(self).pos - 1;
        let mut s = String::new();
        s.push(first);
        let mut is_float = false;
        assert(s@ =~= self.source@.subrange(start, self.pos as int));
        loop
            invariant
                self.wf(),
                self.source@ == old(self).source@,
                0 <= start,
                start + 1 <= self.pos,
                start == old(self).pos - 1,
                s@ == self.source@.subrange(start, self.pos as int),
                number_end(self.source@, self.pos as int, is_float) == number_end(
                    self.source@,
                    old(self).pos as int,
                    false,
                ),
            ensures
                number_end(self.source@, self.pos as int, is_float) == (self.pos as int, is_float),
            decreases self.source@.len() - self.pos,
        {
            let next_digit = match self.peek_next() {
                Some(x) => is_ascii_digit(x),
                None => false,
            };
            match self.peek() {
                Some(c) => {
                    if is_ascii_digit(c) {
                        let ghost p1 = self.pos as int;
                        s.push(c);
                        self.advance();
                        assert(self.source@.subrange(start, p1 + 1) =~= self.source@.subrange(start, p1).push(c));
                    } else if c == '.' && !is_float && next_digit {
                        is_float = true;
                        s.push('.');
                        self.advance();
                    } else {
                        break ;
                    }
                },
                None => {
                    break ;
                },
            }
            assert(s@ =~= self.source@.subrange(start, self.pos as int));
        }
        let ty = if is_float {
            TokenType::Float
        } else {
            TokenType::Integer
        };
        Token::new(ty, s, line, col)
    }

    fn read_ident_or_keyword(&mut self, first: char, line: usize, col: usize) -> (t: Token)
        requires
            old(self).wf(),
            1 <= old(self).pos,
            old(self).source@[old(self).pos - 1] == first,
        ensures
            final(self).wf(),
            final(self).source@ == old(self).source@,
            ({
                let n = ident_end(final(self).source@, old(self).pos as int);
                let w = final(self).source@.subrange(old(self).pos - 1, n);
                &&& t@ == SpecToken {
                    ty: keyword_type(w),
                    value: w,
                    line: line as int,
                    col: col as int,
                }
                &&& final(self).pos == n
            }),
            old(self).pos <= final(self).pos,
    {
        let ghost start = old(self).pos - 1;
        let mut s = String::new();
        s.push(first);
        assert(s@ =~= self.source@.subrange(start, self.pos as int));
        loop
            invariant
                self.wf(),
                self.source@ == old(self).source@,
                0 <= start,
                start + 1 <= self.pos,
                start == old(self).pos - 1,
                s@ == self.source@.subrange(start, self.pos as int),
                ident_end(self.source@, self.pos as int) == ident_end(
                    self.source@,
                    old(self).pos as int,
                ),
            ensures
                ident_end(self.source@, self.pos as int) == self.pos as int,
            decreases self.source@.len() - self.pos,
        {
            match self.peek() {
                Some(c) => {
                    if is_ident_char(c) {
                        s.push(c);
                        self.advance();
                    } else {
                        break ;
                    }
                },
                None => {
                    break ;
                },
            }
            assert(s@ =~= self.source@.subrange(start, self.pos as int));
        }
        let ty = keyword_kind(&s);
        Token::new(ty, s, line, col)
    }

    /// Reads an operator or delimiter whose first character `ch` was just consumed.
    fn scan_symbol(&mut self, ch: char, line: usize, col: usize) -> (r: Option<Token>)
        requires
            old(self).wf(),
            1 <= old(self).pos,
            old(self).source@[old(self).pos - 1] == ch,
        ensures
            final(self).wf(),
            final(self).source@ == old(self).source@,
            match symbol_token(final(self).source@, old(self).pos - 1) {
                Some((ty, text, len)) => r matches Some(t) && t@ == SpecToken {
                    ty,
                    value: text,
                    line: line as int,
                    col: col as int,
                } && final(self).pos == old(self).pos - 1 + len,
                None => r is None && final(self).pos == old(self).pos,
            },
            old(self).pos <= final(self).pos,
    {
        let (ty, text): (TokenType, &str) = if ch == '/' {
            (TokenType::Slash, "/")
        } else if ch == '+' {
            (TokenType::Plus, "+")
        } else if ch == '-' {
            if self.next_is('>') {
                self.advance();
                (TokenType::Arrow, "->")
            } else {
                (TokenType::Minus, "-")
            }
        } else if ch == '*' {
            (TokenType::Star, "*")
        } else if ch == '%' {
            (TokenType::Percent, "%")
        } else if ch == '=' {
            if self.next_is('=') {
                self.advance();
                (TokenType::EqEq, "==")
            } else {
                (TokenType::Assign, "=")
            }
        } else if ch == '!' {
            if self.next_is('=') {
                self.advance();
                (TokenType::BangEq, "!=")
            } else {
                (TokenType::Bang, "!")
            }
        } else if ch == '<' {
            if self.next_is('=') {
                self.advance();
                (TokenType::LtEq, "<=")
            } else if self.next_is('<') {
                self.advance();
                (TokenType::LtLt, "<<")
            } else {
                (TokenType::Lt, "<")
            }
        } else if ch == '>' {
            if self.next_is('=') {
                self.advance();
                (TokenType::GtEq, ">=")
            } else if self.next_is('>') {
                self.advance();
                (TokenType::GtGt, ">>")
            } else {
                (TokenType::Gt, ">")
            }
        } else if ch == '&' {
            if self.next_is('&') {
                self.advance();
                (TokenType::AndAnd, "&&")
            } else {
                (TokenType::Ampersand, "&")
            }
        } else if ch == '|' {
            if self.next_is('|') {
                self.advance();
                (TokenType::OrOr, "||")
            } else {
                (TokenType::Pipe, "|")
            }
        } else if ch == '^' {
            (TokenType::Caret, "^")
        } else if ch == '.' {
            if self.next_is('.') {
                self.advance();
                if self.next_is('=') {
                    self.advance();
                    (TokenType::DotDotEq, "..=")
                } else {
                    (TokenType::DotDot, "..")
                }
            } else {
                (TokenType::Dot, ".")
            }
        } else if ch == '(' {
            (TokenType::LParen, "(")
        } else if ch == ')' {
            (TokenType::RParen, ")")
        } else if ch == '{' {
            (TokenType::LBrace, "{")
        } else if ch == '}' {
            (TokenType::RBrace, "}")
        } else if ch == '[' {
            (TokenType::LBracket, "[")
        } else if ch == ']' {
            (TokenType::RBracket, "]")
        } else if ch == ',' {
            (TokenType::Comma, ",")
        } else if ch == ';' {
            (TokenType::Semicolon, ";")
        } else if ch == ':' {
            (TokenType::Colon, ":")
        } else if ch == '\'' {
            (TokenType::Tick, "'")
        } else {
            return None;
        };
        Some(Token::new(ty, String::from_str(text), line, col))
    }

    /// Reads the rest of the text into tokens, which end with `Eof`.
    pub fn tokenize(&mut self) -> (r: Result<Vec<Token>, LexError>)
        requires
            old(self).wf(),
        ensures
            final(self).wf(),
            final(self).source_view() == old(self).source_view(),
            lex_result_view(r) == lex_from(old(self).source_view(), old(self).position()),
    {
        let ghost s = self.source@;
        let ghost p0 = self.pos as int;
        let mut tokens: Vec<Token> = Vec::new();
        assert(tokens_view(tokens@) =~= Seq::<SpecToken>::empty());
        assert(Seq::<SpecToken>::empty() + Seq::<SpecToken>::empty() =~= Seq::<SpecToken>::empty());
        loop
            invariant
                self.wf(),
                self.source@ == s,
                s == old(self).source@,
                p0 == old(self).pos,
                lex_from(s, p0) == prepend(tokens_view(tokens@), lex_from(s, self.pos as int)),
            decreases s.len() - self.pos,
        {
            let ghost p = self.pos as int;
            self.skip_whitespace();
            proof {
                lemma_skip_ws(s, p);
            }
            let line = self.line;
            let col = self.col;
            let ghost q = self.pos as int;
            let ch = match self.advance() {
                None => {
                    let eof = Token::new(TokenType::Eof, String::new(), line, col);
                    let ghost tv = tokens_view(tokens@);
                    tokens.push(eof);
                    assert(tokens_view(tokens@) =~= tv + seq![eof@]);
                    return Ok(tokens);
                },
                Some(c) => c,
            };
            if ch == '/' && self.next_is('/') {
                self.advance();
                self.skip_line_comment();
                continue ;
            }
            if ch == '/' && self.next_is('*') {
                self.advance();
                match self.skip_block_comment(line, col) {
                    Ok(()) => {},
                    Err(e) => {
                        return Err(e);
                    },
                }
                continue ;
            }
            let tok = if ch == 'f' && self.next_is('"') {
                match self.read_fstring(line, col) {
                    Ok(t) => t,
                    Err(e) => {
                        return Err(e);
                    },
                }
            } else if ch == '"' {
                match self.read_string(line, col) {
                    Ok(t) => t,
                    Err(e) => {
                        return Err(e);
                    },
                }
            } else if is_ascii_digit(ch) {
                self.read_number(ch, line, col)
            } else if is_alphabetic(ch) || ch == '_' {
                self.read_ident_or_keyword(ch, line, col)
            } else {
                match self.scan_symbol(ch, line, col) {
                    Some(t) => t,
                    None => {
                        return Err(unexpected_character(ch, line, col));
                    },
                }
            };
            assert(q < self.pos);
            assert(lex_step(s, q) == LexStep::Emit(tok@, self.pos as int));
            let ghost tv = tokens_view(tokens@);
            tokens.push(tok);
            assert(tokens_view(tokens@) =~= tv + seq![tok@]);
            proof {
                match lex_from(s, self.pos as int) {
                    Ok(rest) => {
                        assert(tv + (seq![tok@] + rest) =~= (tv + seq![tok@]) + rest);
                    },
                    Err(_) => {},
                }
            }
        }
    }
}

/// The kind of the word `w`.
fn keyword_kind(w: &String) -> (ty: TokenType)
    ensures
        ty == keyword_type(w@),
{
    let w = w.as_str();
    if string_is(w, "let") {
        TokenType::Let
    } else if string_is(w, "fn") {
        TokenType::Fn
    } else if string_is(w, "if") {
        TokenType::If
    } else if string_is(w, "else") {
        TokenType::Else
    } else if string_is(w, "for") {
        TokenType::For
    } else if string_is(w, "while") {
        TokenType::While
    } else if string_is(w, "struct") {
        TokenType::Struct
    } else if string_is(w, "return") {
        TokenType::Return
    } else if string_is(w, "in") {
        TokenType::In
    } else if string_is(w, "break") {
        TokenType::Break
    } else if string_is(w, "continue") {
        TokenType::Continue
    } else if string_is(w, "yield") {
        TokenType::Yield
    } else if string_is(w, "gen") {
        TokenType::Gen
    } else if string_is(w, "true") {
        TokenType::True
    } else if string_is(w, "false") {
        TokenType::False
    } else if string_is(w, "mut") {
        TokenType::Mut
    } else if string_is(w, "i32") {
        TokenType::TyI32
    } else if string_is(w, "i64") {
        TokenType::TyI64
    } else if string_is(w, "f32") {
        TokenType::TyF32
    } else if string_is(w, "f64") {
        TokenType::TyF64
    } else if string_is(w, "str") {
        TokenType::TyStr
    } else if string_is(w, "bool") {
        TokenType::TyBool
    } else if string_is(w, "void") {
        TokenType::TyVoid
    } else if string_is(w, "u32") {
        TokenType::TyU32
    } else {
        TokenType::Identifier
    }
}

/// The error for a character `c` that starts no token.
fn unexpected_character(c: char, line: usize, col: usize) -> (e: LexError)
    ensures
        e@ == (SpecLexError { message: unexpected_message(c), line: line as int, col: col as int }),
{
    let mut m = String::from_str("Unexpected character: '");
    m.push(c);
    assert(m@ =~= "Unexpected character: '"@ + seq![c]);
    m.append("'");
    LexError { message: m, line, col }
}

/// How the error reads: `Lexer error at line L, col C: message`.
pub open spec fn lex_error_text(line: nat, col: nat, message: Seq<char>) -> Seq<char> {
    "Lexer error at line "@ + crate::text::decimal(line) + ", col "@ + crate::text::decimal(col)
        + ": "@ + message
}

impl LexError {
    /// The error as a line of text for the user.
    pub fn describe(&self) -> (s: String)
        ensures
            s@ == lex_error_text(self.line as nat, self.col as nat, self.message@),
    {
        let mut s = String::from_str("Lexer error at line ");
        crate::text::push_decimal(&mut s, self.line);
        s.append(", col ");
        crate::text::push_decimal(&mut s, self.col);
        s.append(": ");
        s.append(self.message.as_str());
        s
    }
}

} // verus!
