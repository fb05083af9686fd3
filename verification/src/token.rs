use vstd::prelude::*;

verus! {

/// The kinds of lexical tokens of Vyrn.
#[derive(Debug, Clone, Copy, PartialEq, Eq, Structural)]
pub enum TokenType {
    // Literals
    Integer,
    Float,
    StringLit,
    FString,
    Identifier,
    // Keywords
    Let,
    Fn,
    If,
    Else,
    For,
    While,
    Struct,
    Return,
    In,
    Break,
    Continue,
    Yield,
    Gen,
    True,
    False,
    Mut,
    // Type keywords
    TyI32,
    TyI64,
    TyF32,
    TyF64,
    TyStr,
    TyBool,
    TyVoid,
    TyU32,
    // Arithmetic
    Plus,
    Minus,
    Star,
    Slash,
    Percent,
    // Comparison
    EqEq,
    BangEq,
    Lt,
    LtEq,
    Gt,
    GtEq,
    // Logical
    AndAnd,
    OrOr,
    Bang,
    // Assignment
    Assign,
    // Bitwise
    Ampersand,
    Pipe,
    Caret,
    LtLt,
    GtGt,
    // Delimiters
    LParen,
    RParen,
    LBrace,
    RBrace,
    LBracket,
    RBracket,
    Comma,
    Semicolon,
    Colon,
    Arrow,
    DotDot,
    DotDotEq,
    Dot,
    /// `'`, which introduces a loop label
    Tick,
    Eof,
}

/// A token: its kind, its text, and the 1-based line and column where it starts.
#[derive(Debug)]
pub struct Token {
    pub ty: TokenType,
    pub value: String,
    pub line: usize,
    pub col: usize,
}

/// The mathematical content of a token.
pub struct SpecToken {
    pub ty: TokenType,
    pub value: Seq<char>,
    pub line: int,
    pub col: int,
}

impl View for Token {
    type V = SpecToken;

    open spec fn view(&self) -> SpecToken {
        SpecToken { ty: self.ty, value: self.value@, line: self.line as int, col: self.col as int }
    }
}

/// The views of a sequence of tokens.
pub open spec fn tokens_view(ts: Seq<Token>) -> Seq<SpecToken> {
    ts.map_values(|t: Token| t@)
}

impl Token {
    pub fn new(ty: TokenType, value: String, line: usize, col: usize) -> (t: Self)
        ensures
            t.ty == ty,
            t.value@ == value@,
            t.line == line,
            t.col == col,
    {
        Token { ty, value, line, col }
    }

    /// A copy of this token.
    pub fn duplicate(&self) -> (t: Self)
        ensures
            t@ == self@,
    {
        Token { ty: self.ty, value: self.value.clone(), line: self.line, col: self.col }
    }
}

impl Clone for Token {
    fn clone(&self) -> (t: Self)
        ensures
            t@ == self@,
    {
        self.duplicate()
    }
}

/// The name of a token kind, as `{:?}` prints it.
pub open spec fn token_type_name(t: TokenType) -> Seq<char> {
    match t {
        TokenType::Integer => "Integer"@,
        TokenType::Float => "Float"@,
        TokenType::StringLit => "StringLit"@,
        TokenType::FString => "FString"@,
        TokenType::Identifier => "Identifier"@,
        TokenType::Let => "Let"@,
        TokenType::Fn => "Fn"@,
        TokenType::If => "If"@,
        TokenType::Else => "Else"@,
        TokenType::For => "For"@,
        TokenType::While => "While"@,
        TokenType::Struct => "Struct"@,
        TokenType::Return => "Return"@,
        TokenType::In => "In"@,
        TokenType::Break => "Break"@,
        TokenType::Continue => "Continue"@,
        TokenType::Yield => "Yield"@,
        TokenType::Gen => "Gen"@,
        TokenType::True => "True"@,
        TokenType::False => "False"@,
        TokenType::Mut => "Mut"@,
        TokenType::TyI32 => "TyI32"@,
        TokenType::TyI64 => "TyI64"@,
        TokenType::TyF32 => "TyF32"@,
        TokenType::TyF64 => "TyF64"@,
        TokenType::TyStr => "TyStr"@,
        TokenType::TyBool => "TyBool"@,
        TokenType::TyVoid => "TyVoid"@,
        TokenType::TyU32 => "TyU32"@,
        TokenType::Plus => "Plus"@,
        TokenType::Minus => "Minus"@,
        TokenType::Star => "Star"@,
        TokenType::Slash => "Slash"@,
        TokenType::Percent => "Percent"@,
        TokenType::EqEq => "EqEq"@,
        TokenType::BangEq => "BangEq"@,
        TokenType::Lt => "Lt"@,
        TokenType::LtEq => "LtEq"@,
        TokenType::Gt => "Gt"@,
        TokenType::GtEq => "GtEq"@,
        TokenType::AndAnd => "AndAnd"@,
        TokenType::OrOr => "OrOr"@,
        TokenType::Bang => "Bang"@,
        TokenType::Assign => "Assign"@,
        TokenType::Ampersand => "Ampersand"@,
        TokenType::Pipe => "Pipe"@,
        TokenType::Caret => "Caret"@,
        TokenType::LtLt => "LtLt"@,
        TokenType::GtGt => "GtGt"@,
        TokenType::LParen => "LParen"@,
        TokenType::RParen => "RParen"@,
        TokenType::LBrace => "LBrace"@,
        TokenType::RBrace => "RBrace"@,
        TokenType::LBracket => "LBracket"@,
        TokenType::RBracket => "RBracket"@,
        TokenType::Comma => "Comma"@,
        TokenType::Semicolon => "Semicolon"@,
        TokenType::Colon => "Colon"@,
        TokenType::Arrow => "Arrow"@,
        TokenType::DotDot => "DotDot"@,
        TokenType::DotDotEq => "DotDotEq"@,
        TokenType::Dot => "Dot"@,
        TokenType::Tick => "Tick"@,
        TokenType::Eof => "Eof"@,
    }
}

impl TokenType {
    /// The name of this token kind, as `{:?}` prints it.
    pub fn name(self) -> (s: &'static str)
        ensures
            s@ == token_type_name(self),
    {
        match self {
        TokenType::Integer => "Integer",
        TokenType::Float => "Float",
        TokenType::StringLit => "StringLit",
        TokenType::FString => "FString",
        TokenType::Identifier => "Identifier",
        TokenType::Let => "Let",
        TokenType::Fn => "Fn",
        TokenType::If => "If",
        TokenType::Else => "Else",
        TokenType::For => "For",
        TokenType::While => "While",
        TokenType::Struct => "Struct",
        TokenType::Return => "Return",
        TokenType::In => "In",
        TokenType::Break => "Break",
        TokenType::Continue => "Continue",
        TokenType::Yield => "Yield",
        TokenType::Gen => "Gen",
        TokenType::True => "True",
        TokenType::False => "False",
        TokenType::Mut => "Mut",
        TokenType::TyI32 => "TyI32",
        TokenType::TyI64 => "TyI64",
        TokenType::TyF32 => "TyF32",
        TokenType::TyF64 => "TyF64",
        TokenType::TyStr => "TyStr",
        TokenType::TyBool => "TyBool",
        TokenType::TyVoid => "TyVoid",
        TokenType::TyU32 => "TyU32",
        TokenType::Plus => "Plus",
        TokenType::Minus => "Minus",
        TokenType::Star => "Star",
        TokenType::Slash => "Slash",
        TokenType::Percent => "Percent",
        TokenType::EqEq => "EqEq",
        TokenType::BangEq => "BangEq",
        TokenType::Lt => "Lt",
        TokenType::LtEq => "LtEq",
        TokenType::Gt => "Gt",
        TokenType::GtEq => "GtEq",
        TokenType::AndAnd => "AndAnd",
        TokenType::OrOr => "OrOr",
        TokenType::Bang => "Bang",
        TokenType::Assign => "Assign",
        TokenType::Ampersand => "Ampersand",
        TokenType::Pipe => "Pipe",
        TokenType::Caret => "Caret",
        TokenType::LtLt => "LtLt",
        TokenType::GtGt => "GtGt",
        TokenType::LParen => "LParen",
        TokenType::RParen => "RParen",
        TokenType::LBrace => "LBrace",
        TokenType::RBrace => "RBrace",
        TokenType::LBracket => "LBracket",
        TokenType::RBracket => "RBracket",
        TokenType::Comma => "Comma",
        TokenType::Semicolon => "Semicolon",
        TokenType::Colon => "Colon",
        TokenType::Arrow => "Arrow",
        TokenType::DotDot => "DotDot",
        TokenType::DotDotEq => "DotDotEq",
        TokenType::Dot => "Dot",
        TokenType::Tick => "Tick",
        TokenType::Eof => "Eof",
        }
    }
}

} // verus!
