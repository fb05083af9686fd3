use vstd::prelude::*;

use crate::ast::{
    BinaryOp, Decl, Expr, FnDecl, ForIter, Param, Program, SpecDecl, SpecExpr, SpecFnDecl,
    SpecForIter, SpecParam, SpecProgram, SpecStmt, SpecStructDecl, SpecType, SpecVarDecl, Stmt,
    StructDecl, Type, UnaryOp, VarDecl, decls_view, exprs_view, field_decls_view,
    field_inits_view, opt_name_view, params_view, stmts_view,
};
use crate::text::{parse_i64, parse_i64_text};
use crate::token::{SpecToken, Token, TokenType, token_type_name, tokens_view};

verus! {

/// A syntax error, at the 1-based line and column of the offending token.
#[derive(Debug)]
pub struct ParseError {
    pub message: String,
    pub line: usize,
    pub col: usize,
}

pub struct SpecParseError {
    pub message: Seq<char>,
    pub line: int,
    pub col: int,
}

impl View for ParseError {
    type V = SpecParseError;

    open spec fn view(&self) -> SpecParseError {
        SpecParseError { message: self.message@, line: self.line as int, col: self.col as int }
    }
}

// ─── The grammar, as a recursive-descent reading of a token sequence ─────────
//
// Each rule reads the tokens `ts` from index `p` and gives the tree it read with the
// index after it, or the error at the first token it could not use.
/// A token sequence the parser can read: it ends with `Eof`.
pub open spec fn tokens_ok(ts: Seq<SpecToken>) -> bool {
    ts.len() > 0 && ts.last().ty == TokenType::Eof
}

pub open spec fn in_range(ts: Seq<SpecToken>, p: int) -> bool {
    tokens_ok(ts) && 0 <= p < ts.len()
}

/// The index after reading one token: the parser never moves past the last token.
pub open spec fn adv(ts: Seq<SpecToken>, p: int) -> int {
    if p + 1 < ts.len() {
        p + 1
    } else {
        p
    }
}

pub open spec fn perr(m: Seq<char>, t: SpecToken) -> SpecParseError {
    SpecParseError { message: m, line: t.line, col: t.col }
}

/// The error the parser reports where a token of kind `ty` is required but `t` stands.
pub open spec fn expected_message(ty: TokenType, t: SpecToken) -> Seq<char> {
    "Expected "@ + token_type_name(ty) + ", found "@ + token_type_name(t.ty) + " ('"@ + t.value
        + "')"@
}

/// Read a token of kind `ty`.
pub open spec fn consume(ts: Seq<SpecToken>, p: int, ty: TokenType) -> Result<int, SpecParseError> {
    if ts[p].ty == ty {
        Ok(adv(ts, p))
    } else {
        Err(perr(expected_message(ty, ts[p]), ts[p]))
    }
}

/// A rule read at least one token and stopped within the sequence.
pub open spec fn moved(ts: Seq<SpecToken>, p: int, p2: int) -> bool {
    p < p2 < ts.len()
}

/// The placeholder for a rule that read nothing, which never happens.
pub open spec fn stuck(ts: Seq<SpecToken>, p: int) -> SpecParseError {
    perr(Seq::empty(), ts[p])
}

/// The type that a type keyword names.
pub open spec fn type_of_keyword(ty: TokenType) -> Option<SpecType> {
    match ty {
        TokenType::TyI32 => Some(SpecType::I32),
        TokenType::TyI64 => Some(SpecType::I64),
        TokenType::TyF32 => Some(SpecType::F32),
        TokenType::TyF64 => Some(SpecType::F64),
        TokenType::TyStr => Some(SpecType::Str),
        TokenType::TyBool => Some(SpecType::Bool),
        TokenType::TyVoid => Some(SpecType::Void),
        TokenType::TyU32 => Some(SpecType::U32),
        _ => None,
    }
}

/// `type := keyword | '[' type ']' | Identifier`
pub open spec fn parse_type(ts: Seq<SpecToken>, p: int) -> Result<(SpecType, int), SpecParseError>
    decreases ts.len() - p,
    when in_range(ts, p)
{
    let t = ts[p];
    match type_of_keyword(t.ty) {
        Some(ty) => Ok((ty, adv(ts, p))),
        None => if t.ty == TokenType::LBracket {
            match parse_type(ts, adv(ts, p)) {
                Ok((e, p2)) => match consume(ts, p2, TokenType::RBracket) {
                    Ok(p3) => Ok((SpecType::Array(Box::new(e)), p3)),
                    Err(er) => Err(er),
                },
                Err(er) => Err(er),
            }
        } else if t.ty == TokenType::Identifier {
            Ok((SpecType::Custom(t.value), adv(ts, p)))
        } else {
            Err(perr("Expected type, found '"@ + t.value + "'"@, t))
        },
    }
}

/// The operator of binary precedence level `k` (0 binds loosest) that a token denotes.
pub open spec fn level_op(k: int, ty: TokenType) -> Option<BinaryOp> {
    if k == 0 {
        if ty == TokenType::OrOr {
            Some(BinaryOp::Or)
        } else {
            None
        }
    } else if k == 1 {
        if ty == TokenType::AndAnd {
            Some(BinaryOp::And)
        } else {
            None
        }
    } else if k == 2 {
        if ty == TokenType::Pipe {
            Some(BinaryOp::BitOr)
        } else {
            None
        }
    } else if k == 3 {
        if ty == TokenType::Caret {
            Some(BinaryOp::BitXor)
        } else {
            None
        }
    } else if k == 4 {
        if ty == TokenType::Ampersand {
            Some(BinaryOp::BitAnd)
        } else {
            None
        }
    } else if k == 5 {
        if ty == TokenType::EqEq {
            Some(BinaryOp::Eq)
        } else if ty == TokenType::BangEq {
            Some(BinaryOp::NotEq)
        } else {
            None
        }
    } else if k == 6 {
        if ty == TokenType::Lt {
            Some(BinaryOp::Lt)
        } else if ty == TokenType::LtEq {
            Some(BinaryOp::Le)
        } else if ty == TokenType::Gt {
            Some(BinaryOp::Gt)
        } else if ty == TokenType::GtEq {
            Some(BinaryOp::Ge)
        } else {
            None
        }
    } else if k == 7 {
        if ty == TokenType::LtLt {
            Some(BinaryOp::Shl)
        } else if ty == TokenType::GtGt {
            Some(BinaryOp::Shr)
        } else {
            None
        }
    } else if k == 8 {
        if ty == TokenType::Plus {
            Some(BinaryOp::Add)
        } else if ty == TokenType::Minus {
            Some(BinaryOp::Sub)
        } else {
            None
        }
    } else if k == 9 {
        if ty == TokenType::Star {
            Some(BinaryOp::Mul)
        } else if ty == TokenType::Slash {
            Some(BinaryOp::Div)
        } else if ty == TokenType::Percent {
            Some(BinaryOp::Mod)
        } else {
            None
        }
    } else {
        None
    }
}

/// The value of an integer literal; text that is no `i64` reads as 0.
pub open spec fn int_literal(v: Seq<char>) -> i64 {
    match parse_i64_text(v) {
        Some(n) => n,
        None => 0,
    }
}

/// `expr := level 0`
pub open spec fn parse_expr(ts: Seq<SpecToken>, p: int) -> Result<(SpecExpr, int), SpecParseError>
    decreases ts.len() - p, 40int,
    when in_range(ts, p)
{
    parse_level(ts, p, 0, false)
}

/// The condition of `if` or `while`: an expression in which a name followed by `{` is not
/// a struct literal, since that `{` opens the block (a struct literal there goes in
/// parentheses).
pub open spec fn parse_cond(ts: Seq<SpecToken>, p: int) -> Result<(SpecExpr, int), SpecParseError>
    decreases ts.len() - p, 40int,
    when in_range(ts, p)
{
    parse_level(ts, p, 0, true)
}

/// `level k := operand (op_k operand)*`, left-associative; the operand of the last
/// level is a unary expression. Where `no_struct`, a name followed by `{` is not taken as
/// a struct literal (outside parentheses, brackets and call arguments).
pub open spec fn parse_level(ts: Seq<SpecToken>, p: int, k: int, no_struct: bool) -> Result<
    (SpecExpr, int),
    SpecParseError,
>
    decreases ts.len() - p, 30 - k,
    when in_range(ts, p) && 0 <= k <= 9
{
    let sub = if k < 9 {
        parse_level(ts, p, k + 1, no_struct)
    } else {
        parse_unary(ts, p, no_struct)
    };
    match sub {
        Ok((l, p2)) => if moved(ts, p, p2) {
            level_tail(ts, p2, k, l, no_struct)
        } else {
            Err(stuck(ts, p))
        },
        Err(e) => Err(e),
    }
}

/// The rest of level `k` after its left operand `left`.
pub open spec fn level_tail(ts: Seq<SpecToken>, p: int, k: int, left: SpecExpr, no_struct: bool) -> Result<
    (SpecExpr, int),
    SpecParseError,
>
    decreases ts.len() - p, 0int,
    when in_range(ts, p) && 0 <= k <= 9
{
    match level_op(k, ts[p].ty) {
        Some(op) => {
            let p1 = adv(ts, p);
            let sub = if k < 9 {
                parse_level(ts, p1, k + 1, no_struct)
            } else {
                parse_unary(ts, p1, no_struct)
            };
            match sub {
                Ok((r, p2)) => if moved(ts, p1, p2) {
                    level_tail(
                        ts,
                        p2,
                        k,
                        SpecExpr::Binary { left: Box::new(left), op, right: Box::new(r) },
                        no_struct,
                    )
                } else {
                    Err(stuck(ts, p))
                },
                Err(e) => Err(e),
            }
        },
        None => Ok((left, p)),
    }
}

/// `unary := '-' unary | '!' unary | postfix`
pub open spec fn parse_unary(ts: Seq<SpecToken>, p: int, no_struct: bool) -> Result<(SpecExpr, int), SpecParseError>
    decreases ts.len() - p, 20int,
    when in_range(ts, p)
{
    let t = ts[p];
    if t.ty == TokenType::Minus {
        match parse_unary(ts, adv(ts, p), no_struct) {
            Ok((e, p2)) => Ok((SpecExpr::Unary { op: UnaryOp::Neg, expr: Box::new(e) }, p2)),
            Err(er) => Err(er),
        }
    } else if t.ty == TokenType::Bang {
        match parse_unary(ts, adv(ts, p), no_struct) {
            Ok((e, p2)) => Ok((SpecExpr::Unary { op: UnaryOp::Not, expr: Box::new(e) }, p2)),
            Err(er) => Err(er),
        }
    } else {
        parse_postfix(ts, p, no_struct)
    }
}

/// `postfix := primary ('.' Identifier | '[' expr ']')*`
pub open spec fn parse_postfix(ts: Seq<SpecToken>, p: int, no_struct: bool) -> Result<
    (SpecExpr, int),
    SpecParseError,
>
    decreases ts.len() - p, 19int,
    when in_range(ts, p)
{
    match parse_primary(ts, p, no_struct) {
        Ok((e, p2)) => if moved(ts, p, p2) {
            postfix_tail(ts, p2, e)
        } else {
            Err(stuck(ts, p))
        },
        Err(er) => Err(er),
    }
}

pub open spec fn postfix_tail(ts: Seq<SpecToken>, p: int, e: SpecExpr) -> Result<
    (SpecExpr, int),
    SpecParseError,
>
    decreases ts.len() - p, 0int,
    when in_range(ts, p)
{
    if ts[p].ty == TokenType::Dot {
        let p1 = adv(ts, p);
        match consume(ts, p1, TokenType::Identifier) {
            Ok(p2) => postfix_tail(ts, p2, SpecExpr::Field { object: Box::new(e), field: ts[p1].value }),
            Err(er) => Err(er),
        }
    } else if ts[p].ty == TokenType::LBracket {
        let p1 = adv(ts, p);
        match parse_expr(ts, p1) {
            Ok((idx, p2)) => match consume(ts, p2, TokenType::RBracket) {
                Ok(p3) => if moved(ts, p, p3) {
                    postfix_tail(ts, p3, SpecExpr::Index { array: Box::new(e), index: Box::new(idx) })
                } else {
                    Err(stuck(ts, p))
                },
                Err(er) => Err(er),
            },
            Err(er) => Err(er),
        }
    } else {
        Ok((e, p))
    }
}

/// `primary := literal | Identifier ['(' args ')' | '{' fields '}'] | '(' expr ')' | '[' elems ']'`,
/// where the `'{' fields '}'` form is not taken if `no_struct`.
pub open spec fn parse_primary(ts: Seq<SpecToken>, p: int, no_struct: bool) -> Result<
    (SpecExpr, int),
    SpecParseError,
>
    decreases ts.len() - p, 18int,
    when in_range(ts, p)
{
    let t = ts[p];
    let p1 = adv(ts, p);
    if t.ty == TokenType::Integer {
        Ok((SpecExpr::Int(int_literal(t.value)), p1))
    } else if t.ty == TokenType::Float {
        Ok((SpecExpr::Float(t.value), p1))
    } else if t.ty == TokenType::StringLit {
        Ok((SpecExpr::Str(t.value), p1))
    } else if t.ty == TokenType::FString {
        Ok((SpecExpr::FStr(t.value), p1))
    } else if t.ty == TokenType::True {
        Ok((SpecExpr::Bool(true), p1))
    } else if t.ty == TokenType::False {
        Ok((SpecExpr::Bool(false), p1))
    } else if t.ty == TokenType::Identifier {
        if ts[p1].ty == TokenType::LParen {
            match call_args(ts, adv(ts, p1), Seq::empty()) {
                Ok((args, p2)) => Ok((SpecExpr::Call { name: t.value, args }, p2)),
                Err(er) => Err(er),
            }
        } else if ts[p1].ty == TokenType::LBrace && !no_struct {
            match struct_fields(ts, adv(ts, p1), Seq::empty()) {
                Ok((fields, p2)) => Ok((SpecExpr::StructLit { name: t.value, fields }, p2)),
                Err(er) => Err(er),
            }
        } else {
            Ok((SpecExpr::Ident(t.value), p1))
        }
    } else if t.ty == TokenType::LParen {
        match parse_expr(ts, p1) {
            Ok((e, p2)) => match consume(ts, p2, TokenType::RParen) {
                Ok(p3) => Ok((e, p3)),
                Err(er) => Err(er),
            },
            Err(er) => Err(er),
        }
    } else if t.ty == TokenType::LBracket {
        match array_elems(ts, p1, Seq::empty()) {
            Ok((es, p2)) => Ok((SpecExpr::Array(es), p2)),
            Err(er) => Err(er),
        }
    } else {
        Err(perr("Unexpected token '"@ + t.value + "' in expression"@, t))
    }
}

/// Call arguments after `(`, appended to `acc`, through the closing `)`.
pub open spec fn call_args(ts: Seq<SpecToken>, p: int, acc: Seq<SpecExpr>) -> Result<
    (Seq<SpecExpr>, int),
    SpecParseError,
>
    decreases ts.len() - p, 45int,
    when in_range(ts, p)
{
    if ts[p].ty != TokenType::RParen && ts[p].ty != TokenType::Eof {
        match parse_expr(ts, p) {
            Ok((e, p2)) => if moved(ts, p, p2) {
                if ts[p2].ty != TokenType::RParen {
                    match consume(ts, p2, TokenType::Comma) {
                        Ok(p3) => call_args(ts, p3, acc.push(e)),
                        Err(er) => Err(er),
                    }
                } else {
                    call_args(ts, p2, acc.push(e))
                }
            } else {
                Err(stuck(ts, p))
            },
            Err(er) => Err(er),
        }
    } else {
        match consume(ts, p, TokenType::RParen) {
            Ok(p2) => Ok((acc, p2)),
            Err(er) => Err(er),
        }
    }
}

/// Array elements after `[`, appended to `acc`, through the closing `]`.
pub open spec fn array_elems(ts: Seq<SpecToken>, p: int, acc: Seq<SpecExpr>) -> Result<
    (Seq<SpecExpr>, int),
    SpecParseError,
>
    decreases ts.len() - p, 45int,
    when in_range(ts, p)
{
    if ts[p].ty != TokenType::RBracket && ts[p].ty != TokenType::Eof {
        match parse_expr(ts, p) {
            Ok((e, p2)) => if moved(ts, p, p2) {
                if ts[p2].ty != TokenType::RBracket {
                    match consume(ts, p2, TokenType::Comma) {
                        Ok(p3) => array_elems(ts, p3, acc.push(e)),
                        Err(er) => Err(er),
                    }
                } else {
                    array_elems(ts, p2, acc.push(e))
                }
            } else {
                Err(stuck(ts, p))
            },
            Err(er) => Err(er),
        }
    } else {
        match consume(ts, p, TokenType::RBracket) {
            Ok(p2) => Ok((acc, p2)),
            Err(er) => Err(er),
        }
    }
}

/// Struct-literal fields `name: expr` after `{`, appended to `acc`, through the closing `}`.
pub open spec fn struct_fields(
    ts: Seq<SpecToken>,
    p: int,
    acc: Seq<(Seq<char>, SpecExpr)>,
) -> Result<(Seq<(Seq<char>, SpecExpr)>, int), SpecParseError>
    decreases ts.len() - p, 45int,
    when in_range(ts, p)
{
    if ts[p].ty != TokenType::RBrace && ts[p].ty != TokenType::Eof {
        match consume(ts, p, TokenType::Identifier) {
            Ok(p1) => match consume(ts, p1, TokenType::Colon) {
                Ok(p2) => match parse_expr(ts, p2) {
                    Ok((v, p3)) => if moved(ts, p, p3) {
                        let acc2 = acc.push((ts[p].value, v));
                        if ts[p3].ty != TokenType::RBrace {
                            match consume(ts, p3, TokenType::Comma) {
                                Ok(p4) => struct_fields(ts, p4, acc2),
                                Err(er) => Err(er),
                            }
                        } else {
                            struct_fields(ts, p3, acc2)
                        }
                    } else {
                        Err(stuck(ts, p))
                    },
                    Err(er) => Err(er),
                },
                Err(er) => Err(er),
            },
            Err(er) => Err(er),
        }
    } else {
        match consume(ts, p, TokenType::RBrace) {
            Ok(p2) => Ok((acc, p2)),
            Err(er) => Err(er),
        }
    }
}

/// An optional loop label `'name:` before a statement.
pub open spec fn label_prefix(ts: Seq<SpecToken>, p: int) -> Result<
    (Option<Seq<char>>, int),
    SpecParseError,
> {
    if ts[p].ty == TokenType::Tick {
        let p1 = adv(ts, p);
        match consume(ts, p1, TokenType::Identifier) {
            Ok(p2) => match consume(ts, p2, TokenType::Colon) {
                Ok(p3) => Ok((Some(ts[p1].value), p3)),
                Err(er) => Err(er),
            },
            Err(er) => Err(er),
        }
    } else {
        Ok((None, p))
    }
}

/// `block := '{' stmt* '}'`
pub open spec fn parse_block(ts: Seq<SpecToken>, p: int) -> Result<
    (Seq<SpecStmt>, int),
    SpecParseError,
>
    decreases ts.len() - p, 3int,
    when in_range(ts, p)
{
    match consume(ts, p, TokenType::LBrace) {
        Ok(p1) => if moved(ts, p, p1) {
            block_items(ts, p1, Seq::empty())
        } else {
            Err(stuck(ts, p))
        },
        Err(er) => Err(er),
    }
}

/// The statements of a block, appended to `acc`, through the closing `}`.
pub open spec fn block_items(ts: Seq<SpecToken>, p: int, acc: Seq<SpecStmt>) -> Result<
    (Seq<SpecStmt>, int),
    SpecParseError,
>
    decreases ts.len() - p, 2int,
    when in_range(ts, p)
{
    if ts[p].ty != TokenType::RBrace && ts[p].ty != TokenType::Eof {
        match parse_stmt(ts, p) {
            Ok((st, p2)) => if moved(ts, p, p2) {
                block_items(ts, p2, acc.push(st))
            } else {
                Err(stuck(ts, p))
            },
            Err(er) => Err(er),
        }
    } else {
        match consume(ts, p, TokenType::RBrace) {
            Ok(p2) => Ok((acc, p2)),
            Err(er) => Err(er),
        }
    }
}

/// A statement, after an optional loop label.
pub open spec fn parse_stmt(ts: Seq<SpecToken>, p: int) -> Result<(SpecStmt, int), SpecParseError>
    decreases ts.len() - p, 1int,
    when in_range(ts, p)
{
    match label_prefix(ts, p) {
        Err(er) => Err(er),
        Ok((label, q)) => if !(p <= q < ts.len()) {
            Err(stuck(ts, p))
        } else {
            let t = ts[q];
            if t.ty == TokenType::Let {
                parse_var_decl(ts, q)
            } else if t.ty == TokenType::If {
                parse_if(ts, q)
            } else if t.ty == TokenType::For {
                parse_for(ts, q, label)
            } else if t.ty == TokenType::While {
                parse_while(ts, q, label)
            } else if t.ty == TokenType::Return {
                parse_return(ts, q)
            } else if t.ty == TokenType::Break {
                match jump_target(ts, adv(ts, q)) {
                    Ok((target, p2)) => Ok((SpecStmt::Break(target), p2)),
                    Err(er) => Err(er),
                }
            } else if t.ty == TokenType::Continue {
                match jump_target(ts, adv(ts, q)) {
                    Ok((target, p2)) => Ok((SpecStmt::Continue(target), p2)),
                    Err(er) => Err(er),
                }
            } else if t.ty == TokenType::Yield {
                match parse_expr(ts, adv(ts, q)) {
                    Ok((e, p2)) => match consume(ts, p2, TokenType::Semicolon) {
                        Ok(p3) => Ok((SpecStmt::Yield(e), p3)),
                        Err(er) => Err(er),
                    },
                    Err(er) => Err(er),
                }
            } else if label is Some {
                Err(perr("Loop label can only be used with 'while' or 'for'"@, t))
            } else {
                parse_expr_or_assign(ts, q)
            }
        },
    }
}

/// The optional `'label` after `break` or `continue`, and the closing `;`.
pub open spec fn jump_target(ts: Seq<SpecToken>, p: int) -> Result<
    (Option<Seq<char>>, int),
    SpecParseError,
> {
    if ts[p].ty == TokenType::Tick {
        let p1 = adv(ts, p);
        match consume(ts, p1, TokenType::Identifier) {
            Ok(p2) => match consume(ts, p2, TokenType::Semicolon) {
                Ok(p3) => Ok((Some(ts[p1].value), p3)),
                Err(er) => Err(er),
            },
            Err(er) => Err(er),
        }
    } else {
        match consume(ts, p, TokenType::Semicolon) {
            Ok(p1) => Ok((None, p1)),
            Err(er) => Err(er),
        }
    }
}

/// `let [mut] name [: type] = expr ;`
pub open spec fn parse_var_decl(ts: Seq<SpecToken>, p: int) -> Result<
    (SpecStmt, int),
    SpecParseError,
> {
    match consume(ts, p, TokenType::Let) {
        Ok(p1) => {
            let mutable = ts[p1].ty == TokenType::Mut;
            let p2 = if mutable {
                adv(ts, p1)
            } else {
                p1
            };
            match consume(ts, p2, TokenType::Identifier) {
                Ok(p3) => {
                    let ty: Result<(Option<SpecType>, int), SpecParseError> = if ts[p3].ty
                        == TokenType::Colon {
                        match parse_type(ts, adv(ts, p3)) {
                            Ok((t, p4)) => Ok((Some(t), p4)),
                            Err(er) => Err(er),
                        }
                    } else {
                        Ok((None, p3))
                    };
                    match ty {
                        Ok((ty, p4)) => match consume(ts, p4, TokenType::Assign) {
                            Ok(p5) => match parse_expr(ts, p5) {
                                Ok((value, p6)) => match consume(ts, p6, TokenType::Semicolon) {
                                    Ok(p7) => Ok(
                                        (
                                            SpecStmt::VarDecl(
                                                SpecVarDecl { name: ts[p2].value, ty, value, mutable },
                                            ),
                                            p7,
                                        ),
                                    ),
                                    Err(er) => Err(er),
                                },
                                Err(er) => Err(er),
                            },
                            Err(er) => Err(er),
                        },
                        Err(er) => Err(er),
                    }
                },
                Err(er) => Err(er),
            }
        },
        Err(er) => Err(er),
    }
}

/// `if expr block [else (if ... | block)]`
pub open spec fn parse_if(ts: Seq<SpecToken>, p: int) -> Result<(SpecStmt, int), SpecParseError>
    decreases ts.len() - p, 0int,
    when in_range(ts, p)
{
    match consume(ts, p, TokenType::If) {
        Ok(p1) => match parse_cond(ts, p1) {
            Ok((cond, p2)) => if moved(ts, p, p2) {
                match parse_block(ts, p2) {
                    Ok((then_block, p3)) => if moved(ts, p, p3) {
                        if ts[p3].ty == TokenType::Else {
                            let p4 = adv(ts, p3);
                            if ts[p4].ty == TokenType::If {
                                match parse_if(ts, p4) {
                                    Ok((st, p5)) => Ok(
                                        (
                                            SpecStmt::If {
                                                cond,
                                                then_block,
                                                else_block: Some(seq![st]),
                                            },
                                            p5,
                                        ),
                                    ),
                                    Err(er) => Err(er),
                                }
                            } else {
                                match parse_block(ts, p4) {
                                    Ok((eb, p5)) => Ok(
                                        (SpecStmt::If { cond, then_block, else_block: Some(eb) }, p5),
                                    ),
                                    Err(er) => Err(er),
                                }
                            }
                        } else {
                            Ok((SpecStmt::If { cond, then_block, else_block: None }, p3))
                        }
                    } else {
                        Err(stuck(ts, p))
                    },
                    Err(er) => Err(er),
                }
            } else {
                Err(stuck(ts, p))
            },
            Err(er) => Err(er),
        },
        Err(er) => Err(er),
    }
}

/// What follows `in` in a `for` loop: `additive [(.. | ..=) additive]`, in which a name
/// followed by `{` is not a struct literal.
pub open spec fn parse_for_iter(ts: Seq<SpecToken>, p: int) -> Result<
    (SpecForIter, int),
    SpecParseError,
> {
    match parse_level(ts, p, 8, true) {
        Ok((start, p1)) => if ts[p1].ty == TokenType::DotDot {
            match parse_level(ts, adv(ts, p1), 8, true) {
                Ok((end, p2)) => Ok((SpecForIter::Range { start, end, inclusive: false }, p2)),
                Err(er) => Err(er),
            }
        } else if ts[p1].ty == TokenType::DotDotEq {
            match parse_level(ts, adv(ts, p1), 8, true) {
                Ok((end, p2)) => Ok((SpecForIter::Range { start, end, inclusive: true }, p2)),
                Err(er) => Err(er),
            }
        } else {
            Ok((SpecForIter::Expr(start), p1))
        },
        Err(er) => Err(er),
    }
}

/// `for Identifier in iter block`
pub open spec fn parse_for(ts: Seq<SpecToken>, p: int, label: Option<Seq<char>>) -> Result<
    (SpecStmt, int),
    SpecParseError,
>
    decreases ts.len() - p, 0int,
    when in_range(ts, p)
{
    match consume(ts, p, TokenType::For) {
        Ok(p1) => match consume(ts, p1, TokenType::Identifier) {
            Ok(p2) => match consume(ts, p2, TokenType::In) {
                Ok(p3) => match parse_for_iter(ts, p3) {
                    Ok((iter, p4)) => if moved(ts, p, p4) {
                        match parse_block(ts, p4) {
                            Ok((body, p5)) => Ok(
                                (SpecStmt::For { label, var: ts[p1].value, iter, body }, p5),
                            ),
                            Err(er) => Err(er),
                        }
                    } else {
                        Err(stuck(ts, p))
                    },
                    Err(er) => Err(er),
                },
                Err(er) => Err(er),
            },
            Err(er) => Err(er),
        },
        Err(er) => Err(er),
    }
}

/// `while expr block`
pub open spec fn parse_while(ts: Seq<SpecToken>, p: int, label: Option<Seq<char>>) -> Result<
    (SpecStmt, int),
    SpecParseError,
>
    decreases ts.len() - p, 0int,
    when in_range(ts, p)
{
    match consume(ts, p, TokenType::While) {
        Ok(p1) => match parse_cond(ts, p1) {
            Ok((cond, p2)) => if moved(ts, p, p2) {
                match parse_block(ts, p2) {
                    Ok((body, p3)) => Ok((SpecStmt::While { label, cond, body }, p3)),
                    Err(er) => Err(er),
                }
            } else {
                Err(stuck(ts, p))
            },
            Err(er) => Err(er),
        },
        Err(er) => Err(er),
    }
}

/// `return [expr] ;`
pub open spec fn parse_return(ts: Seq<SpecToken>, p: int) -> Result<(SpecStmt, int), SpecParseError> {
    match consume(ts, p, TokenType::Return) {
        Ok(p1) => if ts[p1].ty == TokenType::Semicolon {
            Ok((SpecStmt::Return(None), adv(ts, p1)))
        } else {
            match parse_expr(ts, p1) {
                Ok((e, p2)) => match consume(ts, p2, TokenType::Semicolon) {
                    Ok(p3) => Ok((SpecStmt::Return(Some(e)), p3)),
                    Err(er) => Err(er),
                },
                Err(er) => Err(er),
            }
        },
        Err(er) => Err(er),
    }
}

/// `expr [= expr] ;`
pub open spec fn parse_expr_or_assign(ts: Seq<SpecToken>, p: int) -> Result<
    (SpecStmt, int),
    SpecParseError,
> {
    match parse_expr(ts, p) {
        Ok((lhs, p1)) => if ts[p1].ty == TokenType::Assign {
            match parse_expr(ts, adv(ts, p1)) {
                Ok((rhs, p2)) => match consume(ts, p2, TokenType::Semicolon) {
                    Ok(p3) => Ok((SpecStmt::Assign { target: lhs, value: rhs }, p3)),
                    Err(er) => Err(er),
                },
                Err(er) => Err(er),
            }
        } else {
            match consume(ts, p1, TokenType::Semicolon) {
                Ok(p2) => Ok((SpecStmt::Expr(lhs), p2)),
                Err(er) => Err(er),
            }
        },
        Err(er) => Err(er),
    }
}

/// Parameters `name: type` after `(`, appended to `acc`, through the closing `)`.
pub open spec fn fn_params(ts: Seq<SpecToken>, p: int, acc: Seq<SpecParam>) -> Result<
    (Seq<SpecParam>, int),
    SpecParseError,
>
    decreases ts.len() - p,
    when in_range(ts, p)
{
    if ts[p].ty != TokenType::RParen && ts[p].ty != TokenType::Eof {
        match consume(ts, p, TokenType::Identifier) {
            Ok(p1) => match consume(ts, p1, TokenType::Colon) {
                Ok(p2) => match parse_type(ts, p2) {
                    Ok((ty, p3)) => if moved(ts, p, p3) {
                        let acc2 = acc.push(SpecParam { name: ts[p].value, ty });
                        if ts[p3].ty != TokenType::RParen {
                            match consume(ts, p3, TokenType::Comma) {
                                Ok(p4) => fn_params(ts, p4, acc2),
                                Err(er) => Err(er),
                            }
                        } else {
                            fn_params(ts, p3, acc2)
                        }
                    } else {
                        Err(stuck(ts, p))
                    },
                    Err(er) => Err(er),
                },
                Err(er) => Err(er),
            },
            Err(er) => Err(er),
        }
    } else {
        match consume(ts, p, TokenType::RParen) {
            Ok(p2) => Ok((acc, p2)),
            Err(er) => Err(er),
        }
    }
}

/// `fn Identifier ( params ) [-> type] block`
pub open spec fn parse_fn_decl(ts: Seq<SpecToken>, p: int, is_gen: bool) -> Result<
    (SpecFnDecl, int),
    SpecParseError,
> {
    match consume(ts, p, TokenType::Fn) {
        Ok(p1) => match consume(ts, p1, TokenType::Identifier) {
            Ok(p2) => match consume(ts, p2, TokenType::LParen) {
                Ok(p3) => match fn_params(ts, p3, Seq::empty()) {
                    Ok((params, p4)) => {
                        let ret: Result<(SpecType, int), SpecParseError> = if ts[p4].ty
                            == TokenType::Arrow {
                            parse_type(ts, adv(ts, p4))
                        } else {
                            Ok((SpecType::Void, p4))
                        };
                        match ret {
                            Ok((ret_ty, p5)) => match parse_block(ts, p5) {
                                Ok((body, p6)) => Ok(
                                    (
                                        SpecFnDecl {
                                            name: ts[p1].value,
                                            params,
                                            ret_ty,
                                            body,
                                            is_gen,
                                        },
                                        p6,
                                    ),
                                ),
                                Err(er) => Err(er),
                            },
                            Err(er) => Err(er),
                        }
                    },
                    Err(er) => Err(er),
                },
                Err(er) => Err(er),
            },
            Err(er) => Err(er),
        },
        Err(er) => Err(er),
    }
}

/// Struct fields `name: type` after `{`, appended to `acc`, through the closing `}`.
pub open spec fn struct_decl_fields(
    ts: Seq<SpecToken>,
    p: int,
    acc: Seq<(Seq<char>, SpecType)>,
) -> Result<(Seq<(Seq<char>, SpecType)>, int), SpecParseError>
    decreases ts.len() - p,
    when in_range(ts, p)
{
    if ts[p].ty != TokenType::RBrace && ts[p].ty != TokenType::Eof {
        match consume(ts, p, TokenType::Identifier) {
            Ok(p1) => match consume(ts, p1, TokenType::Colon) {
                Ok(p2) => match parse_type(ts, p2) {
                    Ok((ty, p3)) => if moved(ts, p, p3) {
                        let acc2 = acc.push((ts[p].value, ty));
                        if ts[p3].ty != TokenType::RBrace {
                            match consume(ts, p3, TokenType::Comma) {
                                Ok(p4) => struct_decl_fields(ts, p4, acc2),
                                Err(er) => Err(er),
                            }
                        } else {
                            struct_decl_fields(ts, p3, acc2)
                        }
                    } else {
                        Err(stuck(ts, p))
                    },
                    Err(er) => Err(er),
                },
                Err(er) => Err(er),
            },
            Err(er) => Err(er),
        }
    } else {
        match consume(ts, p, TokenType::RBrace) {
            Ok(p2) => Ok((acc, p2)),
            Err(er) => Err(er),
        }
    }
}

/// `struct Identifier { fields }`
pub open spec fn parse_struct_decl(ts: Seq<SpecToken>, p: int) -> Result<
    (SpecStructDecl, int),
    SpecParseError,
> {
    match consume(ts, p, TokenType::Struct) {
        Ok(p1) => match consume(ts, p1, TokenType::Identifier) {
            Ok(p2) => match consume(ts, p2, TokenType::LBrace) {
                Ok(p3) => match struct_decl_fields(ts, p3, Seq::empty()) {
                    Ok((fields, p4)) => Ok((SpecStructDecl { name: ts[p1].value, fields }, p4)),
                    Err(er) => Err(er),
                },
                Err(er) => Err(er),
            },
            Err(er) => Err(er),
        },
        Err(er) => Err(er),
    }
}

/// `decl := [gen] fn_decl | struct_decl`
pub open spec fn parse_decl(ts: Seq<SpecToken>, p: int) -> Result<(SpecDecl, int), SpecParseError> {
    let is_gen = ts[p].ty == TokenType::Gen;
    let q = if is_gen {
        adv(ts, p)
    } else {
        p
    };
    let t = ts[q];
    if t.ty == TokenType::Fn {
        match parse_fn_decl(ts, q, is_gen) {
            Ok((f, p2)) => Ok((SpecDecl::Fn(f), p2)),
            Err(er) => Err(er),
        }
    } else if t.ty == TokenType::Struct {
        if is_gen {
            Err(perr("Cannot use 'gen' with struct declaration"@, t))
        } else {
            match parse_struct_decl(ts, q) {
                Ok((sd, p2)) => Ok((SpecDecl::Struct(sd), p2)),
                Err(er) => Err(er),
            }
        }
    } else {
        Err(perr("Expected 'fn' or 'struct', found '"@ + t.value + "'"@, t))
    }
}

/// The declarations from `p` to `Eof`, appended to `acc`.
pub open spec fn parse_decls(ts: Seq<SpecToken>, p: int, acc: Seq<SpecDecl>) -> Result<
    Seq<SpecDecl>,
    SpecParseError,
>
    decreases ts.len() - p,
    when in_range(ts, p)
{
    if ts[p].ty == TokenType::Eof {
        Ok(acc)
    } else {
        match parse_decl(ts, p) {
            Ok((d, p2)) => if moved(ts, p, p2) {
                parse_decls(ts, p2, acc.push(d))
            } else {
                Err(stuck(ts, p))
            },
            Err(er) => Err(er),
        }
    }
}

/// The program that the tokens from `p` on spell.
pub open spec fn parse_program(ts: Seq<SpecToken>, p: int) -> Result<SpecProgram, SpecParseError> {
    match parse_decls(ts, p, Seq::empty()) {
        Ok(decls) => Ok(SpecProgram { decls }),
        Err(er) => Err(er),
    }
}

// ─── The parser ──────────────────────────────────────────────────────────────

/// The result of a rule that read a `T`, with the index where reading stopped.
pub open spec fn res_view<T: View>(r: Result<T, ParseError>, p: usize) -> Result<
    (T::V, int),
    SpecParseError,
> {
    match r {
        Ok(v) => Ok((v@, p as int)),
        Err(e) => Err(e@),
    }
}

pub open spec fn exprs_res(r: Result<Vec<Expr>, ParseError>, p: usize) -> Result<
    (Seq<SpecExpr>, int),
    SpecParseError,
> {
    match r {
        Ok(v) => Ok((exprs_view(v@), p as int)),
        Err(e) => Err(e@),
    }
}

pub open spec fn stmts_res(r: Result<Vec<Stmt>, ParseError>, p: usize) -> Result<
    (Seq<SpecStmt>, int),
    SpecParseError,
> {
    match r {
        Ok(v) => Ok((stmts_view(v@), p as int)),
        Err(e) => Err(e@),
    }
}

pub open spec fn program_res(r: Result<Program, ParseError>) -> Result<SpecProgram, SpecParseError> {
    match r {
        Ok(prog) => Ok(prog@),
        Err(e) => Err(e@),
    }
}

/// Reads a token sequence into a program.
pub struct Parser {
    tokens: Vec<Token>,
    pos: usize,
}

/// The operator of level `k` that a token kind denotes.
fn level_op_of(k: u8, ty: TokenType) -> (r: Option<BinaryOp>)
    ensures
        r == level_op(k as int, ty),
{
    match k {
        0 => match ty {
            TokenType::OrOr => Some(BinaryOp::Or),
            _ => None,
        },
        1 => match ty {
            TokenType::AndAnd => Some(BinaryOp::And),
            _ => None,
        },
        2 => match ty {
            TokenType::Pipe => Some(BinaryOp::BitOr),
            _ => None,
        },
        3 => match ty {
            TokenType::Caret => Some(BinaryOp::BitXor),
            _ => None,
        },
        4 => match ty {
            TokenType::Ampersand => Some(BinaryOp::BitAnd),
            _ => None,
        },
        5 => match ty {
            TokenType::EqEq => Some(BinaryOp::Eq),
            TokenType::BangEq => Some(BinaryOp::NotEq),
            _ => None,
        },
        6 => match ty {
            TokenType::Lt => Some(BinaryOp::Lt),
            TokenType::LtEq => Some(BinaryOp::Le),
            TokenType::Gt => Some(BinaryOp::Gt),
            TokenType::GtEq => Some(BinaryOp::Ge),
            _ => None,
        },
        7 => match ty {
            TokenType::LtLt => Some(BinaryOp::Shl),
            TokenType::GtGt => Some(BinaryOp::Shr),
            _ => None,
        },
        8 => match ty {
            TokenType::Plus => Some(BinaryOp::Add),
            TokenType::Minus => Some(BinaryOp::Sub),
            _ => None,
        },
        9 => match ty {
            TokenType::Star => Some(BinaryOp::Mul),
            TokenType::Slash => Some(BinaryOp::Div),
            TokenType::Percent => Some(BinaryOp::Mod),
            _ => None,
        },
        _ => None,
    }
}

impl Parser {
    /// The tokens being read.
    pub closed spec fn token_view(&self) -> Seq<SpecToken> {
        tokens_view(self.tokens@)
    }

    /// The index of the next token to read.
    pub closed spec fn position(&self) -> int {
        self.pos as int
    }

    /// The tokens end with `Eof` and the position is one of them.
    pub closed spec fn wf(&self) -> bool {
        &&& tokens_ok(self.token_view())
        &&& self.pos < self.tokens@.len()
    }

    pub fn new(tokens: Vec<Token>) -> (p: Self)
        ensures
            p.token_view() == tokens_view(tokens@),
            p.position() == 0,
            p.wf() == tokens_ok(tokens_view(tokens@)),
    {
        Parser { tokens, pos: 0 }
    }

    fn peek_ty(&self) -> (t: TokenType)
        requires
            self.wf(),
        ensures
            t == self.token_view()[self.pos as int].ty,
    {
        self.tokens[self.pos].ty
    }

    fn check(&self, ty: TokenType) -> (r: bool)
        requires
            self.wf(),
        ensures
            r == (self.token_view()[self.pos as int].ty == ty),
    {
        self.tokens[self.pos].ty == ty
    }

    fn at_end(&self) -> (r: bool)
        requires
            self.wf(),
        ensures
            r == (self.token_view()[self.pos as int].ty == TokenType::Eof),
    {
        self.check(TokenType::Eof)
    }

    fn advance(&mut self) -> (t: Token)
        requires
            old(self).wf(),
        ensures
            final(self).wf(),
            final(self).tokens@ == old(self).tokens@,
            t@ == old(self).token_view()[old(self).pos as int],
            final(self).pos == adv(old(self).token_view(), old(self).pos as int),
    {
        let t = self.tokens[self.pos].duplicate();
        if self.pos < self.tokens.len() - 1 {
            self.pos = self.pos + 1;
        }
        t
    }

    /// An error at the current token with message `prefix`, its text, then `suffix`.
    fn error_around(&self, prefix: &str, suffix: &str) -> (e: ParseError)
        requires
            self.wf(),
        ensures
            e@ == perr(
                prefix@ + self.token_view()[self.pos as int].value + suffix@,
                self.token_view()[self.pos as int],
            ),
    {
        let tok = &self.tokens[self.pos];
        let mut m = String::from_str(prefix);
        m.append(tok.value.as_str());
        m.append(suffix);
        ParseError { message: m, line: tok.line, col: tok.col }
    }

    /// An error at the current token with message `msg`.
    fn error_here(&self, msg: &str) -> (e: ParseError)
        requires
            self.wf(),
        ensures
            e@ == perr(msg@, self.token_view()[self.pos as int]),
    {
        let tok = &self.tokens[self.pos];
        ParseError { message: String::from_str(msg), line: tok.line, col: tok.col }
    }

    fn consume(&mut self, ty: TokenType) -> (r: Result<Token, ParseError>)
        requires
            old(self).wf(),
        ensures
            final(self).wf(),
            final(self).tokens@ == old(self).tokens@,
            match consume(old(self).token_view(), old(self).pos as int, ty) {
                Ok(p) => r matches Ok(t) && t@ == old(self).token_view()[old(self).pos as int]
                    && final(self).pos == p,
                Err(e) => r matches Err(x) && x@ == e && final(self).pos == old(self).pos,
            },
    {
        if self.check(ty) {
            Ok(self.advance())
        } else {
            let tok = &self.tokens[self.pos];
            let mut m = String::from_str("Expected ");
            m.append(ty.name());
            m.append(", found ");
            m.append(tok.ty.name());
            m.append(" ('");
            m.append(tok.value.as_str());
            m.append("')");
            Err(ParseError { message: m, line: tok.line, col: tok.col })
        }
    }

    fn parse_type(&mut self) -> (r: Result<Type, ParseError>)
        requires
            old(self).wf(),
        ensures
            final(self).wf(),
            final(self).tokens@ == old(self).tokens@,
            res_view(r, final(self).pos) == parse_type(old(self).token_view(), old(self).pos as int),
            r is Ok ==> moved(old(self).token_view(), old(self).pos as int, final(self).pos as int),
        decreases old(self).tokens@.len() - old(self).pos,
    {
        match self.peek_ty() {
            TokenType::TyI32 => {
                self.advance();
                Ok(Type::I32)
            },
            TokenType::TyI64 => {
                self.advance();
                Ok(Type::I64)
            },
            TokenType::TyF32 => {
                self.advance();
                Ok(Type::F32)
            },
            TokenType::TyF64 => {
                self.advance();
                Ok(Type::F64)
            },
            TokenType::TyStr => {
                self.advance();
                Ok(Type::Str)
            },
            TokenType::TyBool => {
                self.advance();
                Ok(Type::Bool)
            },
            TokenType::TyVoid => {
                self.advance();
                Ok(Type::Void)
            },
            TokenType::TyU32 => {
                self.advance();
                Ok(Type::U32)
            },
            TokenType::LBracket => {
                self.advance();
                let elem = match self.parse_type() {
                    Ok(t) => t,
                    Err(e) => {
                        return Err(e);
                    },
                };
                match self.consume(TokenType::RBracket) {
                    Ok(_) => {},
                    Err(e) => {
                        return Err(e);
                    },
                }
                Ok(Type::Array(Box::new(elem)))
            },
            TokenType::Identifier => {
                let name = self.advance().value;
                Ok(Type::Custom(name))
            },
            _ => Err(self.error_around("Expected type, found '", "'")),
        }
    }

    fn parse_expr(&mut self) -> (r: Result<Expr, ParseError>)
        requires
            old(self).wf(),
        ensures
            final(self).wf(),
            final(self).tokens@ == old(self).tokens@,
            res_view(r, final(self).pos) == parse_expr(old(self).token_view(), old(self).pos as int),
            r is Ok ==> moved(old(self).token_view(), old(self).pos as int, final(self).pos as int),
        decreases old(self).tokens@.len() - old(self).pos, 40int,
    {
        self.parse_level(0, false)
    }

    /// An `if` or `while` condition (see `parse_cond`).
    fn parse_cond(&mut self) -> (r: Result<Expr, ParseError>)
        requires
            old(self).wf(),
        ensures
            final(self).wf(),
            final(self).tokens@ == old(self).tokens@,
            res_view(r, final(self).pos) == parse_cond(old(self).token_view(), old(self).pos as int),
            r is Ok ==> moved(old(self).token_view(), old(self).pos as int, final(self).pos as int),
    {
        self.parse_level(0, true)
    }

    /// One binary precedence level, `k` = 0 (`||`) to 9 (`*`, `/`, `%`).
    fn parse_level(&mut self, k: u8, no_struct: bool) -> (r: Result<Expr, ParseError>)
        requires
            old(self).wf(),
            k <= 9,
        ensures
            final(self).wf(),
            final(self).tokens@ == old(self).tokens@,
            res_view(r, final(self).pos) == parse_level(
                old(self).token_view(),
                old(self).pos as int,
                k as int,
                no_struct,
            ),
            r is Ok ==> moved(old(self).token_view(), old(self).pos as int, final(self).pos as int),
        decreases old(self).tokens@.len() - old(self).pos, 30int - k as int,
    {
        let ghost ts = self.token_view();
        let ghost p0 = self.pos as int;
        let first = if k < 9 {
            self.parse_level(k + 1, no_struct)
        } else {
            self.parse_unary(no_struct)
        };
        let mut left = match first {
            Ok(e) => e,
            Err(e) => {
                return Err(e);
            },
        };
        loop
            invariant
                self.wf(),
                self.token_view() == ts,
                self.tokens@ == old(self).tokens@,
                ts == old(self).token_view(),
                p0 == old(self).pos,
                k <= 9,
                moved(ts, p0, self.pos as int),
                parse_level(ts, p0, k as int, no_struct) == level_tail(
                    ts,
                    self.pos as int,
                    k as int,
                    left@,
                    no_struct,
                ),
            decreases ts.len() - self.pos,
        {
            let op = match level_op_of(k, self.peek_ty()) {
                Some(op) => op,
                None => {
                    return Ok(left);
                },
            };
            self.advance();
            let next = if k < 9 {
                self.parse_level(k + 1, no_struct)
            } else {
                self.parse_unary(no_struct)
            };
            let right = match next {
                Ok(e) => e,
                Err(e) => {
                    return Err(e);
                },
            };
            left = Expr::Binary { left: Box::new(left), op, right: Box::new(right) };
        }
    }

    fn parse_unary(&mut self, no_struct: bool) -> (r: Result<Expr, ParseError>)
        requires
            old(self).wf(),
        ensures
            final(self).wf(),
            final(self).tokens@ == old(self).tokens@,
            res_view(r, final(self).pos) == parse_unary(
                old(self).token_view(),
                old(self).pos as int,
                no_struct,
            ),
            r is Ok ==> moved(old(self).token_view(), old(self).pos as int, final(self).pos as int),
        decreases old(self).tokens@.len() - old(self).pos, 20int,
    {
        match self.peek_ty() {
            TokenType::Minus => {
                self.advance();
                match self.parse_unary(no_struct) {
                    Ok(e) => Ok(Expr::Unary { op: UnaryOp::Neg, expr: Box::new(e) }),
                    Err(e) => Err(e),
                }
            },
            TokenType::Bang => {
                self.advance();
                match self.parse_unary(no_struct) {
                    Ok(e) => Ok(Expr::Unary { op: UnaryOp::Not, expr: Box::new(e) }),
                    Err(e) => Err(e),
                }
            },
            _ => self.parse_postfix(no_struct),
        }
    }

    fn parse_postfix(&mut self, no_struct: bool) -> (r: Result<Expr, ParseError>)
        requires
            old(self).wf(),
        ensures
            final(self).wf(),
            final(self).tokens@ == old(self).tokens@,
            res_view(r, final(self).pos) == parse_postfix(
                old(self).token_view(),
                old(self).pos as int,
                no_struct,
            ),
            r is Ok ==> moved(old(self).token_view(), old(self).pos as int, final(self).pos as int),
        decreases old(self).tokens@.len() - old(self).pos, 19int,
    {
        let ghost ts = self.token_view();
        let ghost p0 = self.pos as int;
        let mut expr = match self.parse_primary(no_struct) {
            Ok(e) => e,
            Err(e) => {
                return Err(e);
            },
        };
        loop
            invariant
                self.wf(),
                self.token_view() == ts,
                self.tokens@ == old(self).tokens@,
                ts == old(self).token_view(),
                p0 == old(self).pos,
                moved(ts, p0, self.pos as int),
                parse_postfix(ts, p0, no_struct) == postfix_tail(ts, self.pos as int, expr@),
            decreases ts.len() - self.pos,
        {
            if self.check(TokenType::Dot) {
                self.advance();
                let field = match self.consume(TokenType::Identifier) {
                    Ok(t) => t.value,
                    Err(e) => {
                        return Err(e);
                    },
                };
                expr = Expr::Field { object: Box::new(expr), field };
            } else if self.check(TokenType::LBracket) {
                self.advance();
                let idx = match self.parse_expr() {
                    Ok(e) => e,
                    Err(e) => {
                        return Err(e);
                    },
                };
                match self.consume(TokenType::RBracket) {
                    Ok(_) => {},
                    Err(e) => {
                        return Err(e);
                    },
                }
                expr = Expr::Index { array: Box::new(expr), index: Box::new(idx) };
            } else {
                return Ok(expr);
            }
        }
    }

    fn parse_primary(&mut self, no_struct: bool) -> (r: Result<Expr, ParseError>)
        requires
            old(self).wf(),
        ensures
            final(self).wf(),
            final(self).tokens@ == old(self).tokens@,
            res_view(r, final(self).pos) == parse_primary(
                old(self).token_view(),
                old(self).pos as int,
                no_struct,
            ),
            r is Ok ==> moved(old(self).token_view(), old(self).pos as int, final(self).pos as int),
        decreases old(self).tokens@.len() - old(self).pos, 18int,
    {
        match self.peek_ty() {
            TokenType::Integer => {
                let t = self.advance();
                let v = match parse_i64(t.value.as_str()) {
                    Some(n) => n,
                    None => 0,
                };
                Ok(Expr::Int(v))
            },
            TokenType::Float => {
                let t = self.advance();
                Ok(Expr::Float(t.value))
            },
            TokenType::StringLit => {
                let t = self.advance();
                Ok(Expr::Str(t.value))
            },
            TokenType::FString => {
                let t = self.advance();
                Ok(Expr::FStr(t.value))
            },
            TokenType::True => {
                self.advance();
                Ok(Expr::Bool(true))
            },
            TokenType::False => {
                self.advance();
                Ok(Expr::Bool(false))
            },
            TokenType::Identifier => {
                let name = self.advance().value;
                if self.check(TokenType::LParen) {
                    self.advance();
                    match self.call_args() {
                        Ok(args) => Ok(Expr::Call { name, args }),
                        Err(e) => Err(e),
                    }
                } else if !no_struct && self.check(TokenType::LBrace) {
                    self.advance();
                    match self.struct_fields() {
                        Ok(fields) => Ok(Expr::StructLit { name, fields }),
                        Err(e) => Err(e),
                    }
                } else {
                    Ok(Expr::Ident(name))
                }
            },
            TokenType::LParen => {
                self.advance();
                let e = match self.parse_expr() {
                    Ok(e) => e,
                    Err(e) => {
                        return Err(e);
                    },
                };
                match self.consume(TokenType::RParen) {
                    Ok(_) => Ok(e),
                    Err(e) => Err(e),
                }
            },
            TokenType::LBracket => {
                self.advance();
                match self.array_elems() {
                    Ok(es) => Ok(Expr::Array(es)),
                    Err(e) => Err(e),
                }
            },
            _ => Err(self.error_around("Unexpected token '", "' in expression")),
        }
    }

    /// Call arguments after `(`, through the closing `)`.
    fn call_args(&mut self) -> (r: Result<Vec<Expr>, ParseError>)
        requires
            old(self).wf(),
        ensures
            final(self).wf(),
            final(self).tokens@ == old(self).tokens@,
            exprs_res(r, final(self).pos) == call_args(
                old(self).token_view(),
                old(self).pos as int,
                Seq::empty(),
            ),
            r is Ok ==> old(self).pos <= final(self).pos,
        decreases old(self).tokens@.len() - old(self).pos, 45int,
    {
        let ghost ts = self.token_view();
        let ghost p0 = self.pos as int;
        let mut args: Vec<Expr> = Vec::new();
        assert(exprs_view(args@) =~= Seq::<SpecExpr>::empty());
        loop
            invariant
                self.wf(),
                self.token_view() == ts,
                self.tokens@ == old(self).tokens@,
                ts == old(self).token_view(),
                p0 == old(self).pos,
                p0 <= self.pos,
                call_args(ts, p0, Seq::empty()) == call_args(ts, self.pos as int, exprs_view(args@)),
            decreases ts.len() - self.pos,
        {
            if !self.check(TokenType::RParen) && !self.at_end() {
                let e = match self.parse_expr() {
                    Ok(e) => e,
                    Err(e) => {
                        return Err(e);
                    },
                };
                let ghost before = args@;
                args.push(e);
                assert(args@.drop_last() =~= before);
                if !self.check(TokenType::RParen) {
                    match self.consume(TokenType::Comma) {
                        Ok(_) => {},
                        Err(e) => {
                            return Err(e);
                        },
                    }
                }
            } else {
                match self.consume(TokenType::RParen) {
                    Ok(_) => {
                        return Ok(args);
                    },
                    Err(e) => {
                        return Err(e);
                    },
                }
            }
        }
    }

    /// Array elements after `[`, through the closing `]`.
    fn array_elems(&mut self) -> (r: Result<Vec<Expr>, ParseError>)
        requires
            old(self).wf(),
        ensures
            final(self).wf(),
            final(self).tokens@ == old(self).tokens@,
            exprs_res(r, final(self).pos) == array_elems(
                old(self).token_view(),
                old(self).pos as int,
                Seq::empty(),
            ),
            r is Ok ==> old(self).pos <= final(self).pos,
        decreases old(self).tokens@.len() - old(self).pos, 45int,
    {
        let ghost ts = self.token_view();
        let ghost p0 = self.pos as int;
        let mut elems: Vec<Expr> = Vec::new();
        assert(exprs_view(elems@) =~= Seq::<SpecExpr>::empty());
        loop
            invariant
                self.wf(),
                self.token_view() == ts,
                self.tokens@ == old(self).tokens@,
                ts == old(self).token_view(),
                p0 == old(self).pos,
                p0 <= self.pos,
                array_elems(ts, p0, Seq::empty()) == array_elems(
                    ts,
                    self.pos as int,
                    exprs_view(elems@),
                ),
            decreases ts.len() - self.pos,
        {
            if !self.check(TokenType::RBracket) && !self.at_end() {
                let e = match self.parse_expr() {
                    Ok(e) => e,
                    Err(e) => {
                        return Err(e);
                    },
                };
                let ghost before = elems@;
                elems.push(e);
                assert(elems@.drop_last() =~= before);
                if !self.check(TokenType::RBracket) {
                    match self.consume(TokenType::Comma) {
                        Ok(_) => {},
                        Err(e) => {
                            return Err(e);
                        },
                    }
                }
            } else {
                match self.consume(TokenType::RBracket) {
                    Ok(_) => {
                        return Ok(elems);
                    },
                    Err(e) => {
                        return Err(e);
                    },
                }
            }
        }
    }

    /// Struct-literal fields after `{`, through the closing `}`.
    fn struct_fields(&mut self) -> (r: Result<Vec<(String, Expr)>, ParseError>)
        requires
            old(self).wf(),
        ensures
            final(self).wf(),
            final(self).tokens@ == old(self).tokens@,
            match r {
                Ok(v) => Ok((field_inits_view(v@), final(self).pos as int)),
                Err(e) => Err(e@),
            } == struct_fields(old(self).token_view(), old(self).pos as int, Seq::empty()),
            r is Ok ==> old(self).pos <= final(self).pos,
        decreases old(self).tokens@.len() - old(self).pos, 45int,
    {
        let ghost ts = self.token_view();
        let ghost p0 = self.pos as int;
        let mut fields: Vec<(String, Expr)> = Vec::new();
        assert(field_inits_view(fields@) =~= Seq::<(Seq<char>, SpecExpr)>::empty());
        loop
            invariant
                self.wf(),
                self.token_view() == ts,
                self.tokens@ == old(self).tokens@,
                ts == old(self).token_view(),
                p0 == old(self).pos,
                p0 <= self.pos,
                struct_fields(ts, p0, Seq::empty()) == struct_fields(
                    ts,
                    self.pos as int,
                    field_inits_view(fields@),
                ),
            decreases ts.len() - self.pos,
        {
            if !self.check(TokenType::RBrace) && !self.at_end() {
                let fname = match self.consume(TokenType::Identifier) {
                    Ok(t) => t.value,
                    Err(e) => {
                        return Err(e);
                    },
                };
                match self.consume(TokenType::Colon) {
                    Ok(_) => {},
                    Err(e) => {
                        return Err(e);
                    },
                }
                let fval = match self.parse_expr() {
                    Ok(e) => e,
                    Err(e) => {
                        return Err(e);
                    },
                };
                let ghost before = fields@;
                fields.push((fname, fval));
                assert(fields@.drop_last() =~= before);
                if !self.check(TokenType::RBrace) {
                    match self.consume(TokenType::Comma) {
                        Ok(_) => {},
                        Err(e) => {
                            return Err(e);
                        },
                    }
                }
            } else {
                match self.consume(TokenType::RBrace) {
                    Ok(_) => {
                        return Ok(fields);
                    },
                    Err(e) => {
                        return Err(e);
                    },
                }
            }
        }
    }
}

impl Parser {
    /// `'{' stmt* '}'`
    fn parse_block(&mut self) -> (r: Result<Vec<Stmt>, ParseError>)
        requires
            old(self).wf(),
        ensures
            final(self).wf(),
            final(self).tokens@ == old(self).tokens@,
            stmts_res(r, final(self).pos) == parse_block(old(self).token_view(), old(self).pos as int),
            r is Ok ==> moved(old(self).token_view(), old(self).pos as int, final(self).pos as int),
        decreases old(self).tokens@.len() - old(self).pos, 3int,
    {
        let ghost ts = self.token_view();
        let ghost p0 = self.pos as int;
        match self.consume(TokenType::LBrace) {
            Ok(_) => {},
            Err(e) => {
                return Err(e);
            },
        }
        let mut stmts: Vec<Stmt> = Vec::new();
        assert(stmts_view(stmts@) =~= Seq::<SpecStmt>::empty());
        loop
            invariant
                self.wf(),
                self.token_view() == ts,
                self.tokens@ == old(self).tokens@,
                ts == old(self).token_view(),
                p0 == old(self).pos,
                p0 < self.pos,
                parse_block(ts, p0) == block_items(ts, self.pos as int, stmts_view(stmts@)),
            decreases ts.len() - self.pos,
        {
            if !self.check(TokenType::RBrace) && !self.at_end() {
                let st = match self.parse_stmt() {
                    Ok(st) => st,
                    Err(e) => {
                        return Err(e);
                    },
                };
                let ghost before = stmts@;
                stmts.push(st);
                assert(stmts@.drop_last() =~= before);
            } else {
                match self.consume(TokenType::RBrace) {
                    Ok(_) => {
                        return Ok(stmts);
                    },
                    Err(e) => {
                        return Err(e);
                    },
                }
            }
        }
    }

    /// A statement, after an optional loop label.
    fn parse_stmt(&mut self) -> (r: Result<Stmt, ParseError>)
        requires
            old(self).wf(),
        ensures
            final(self).wf(),
            final(self).tokens@ == old(self).tokens@,
            res_view(r, final(self).pos) == parse_stmt(old(self).token_view(), old(self).pos as int),
            r is Ok ==> moved(old(self).token_view(), old(self).pos as int, final(self).pos as int),
        decreases old(self).tokens@.len() - old(self).pos, 1int,
    {
        let label: Option<String> = if self.check(TokenType::Tick) {
            self.advance();
            let name = match self.consume(TokenType::Identifier) {
                Ok(t) => t.value,
                Err(e) => {
                    return Err(e);
                },
            };
            match self.consume(TokenType::Colon) {
                Ok(_) => {},
                Err(e) => {
                    return Err(e);
                },
            }
            Some(name)
        } else {
            None
        };
        match self.peek_ty() {
            TokenType::Let => self.parse_var_decl(),
            TokenType::If => self.parse_if(),
            TokenType::For => self.parse_for(label),
            TokenType::While => self.parse_while(label),
            TokenType::Return => self.parse_return(),
            TokenType::Break => {
                self.advance();
                match self.jump_target() {
                    Ok(target) => Ok(Stmt::Break(target)),
                    Err(e) => Err(e),
                }
            },
            TokenType::Continue => {
                self.advance();
                match self.jump_target() {
                    Ok(target) => Ok(Stmt::Continue(target)),
                    Err(e) => Err(e),
                }
            },
            TokenType::Yield => {
                self.advance();
                let val = match self.parse_expr() {
                    Ok(e) => e,
                    Err(e) => {
                        return Err(e);
                    },
                };
                match self.consume(TokenType::Semicolon) {
                    Ok(_) => Ok(Stmt::Yield(val)),
                    Err(e) => Err(e),
                }
            },
            _ => {
                if label.is_some() {
                    return Err(self.error_here("Loop label can only be used with 'while' or 'for'"));
                }
                self.parse_expr_or_assign()
            },
        }
    }

    /// The optional `'label` after `break` or `continue`, and the closing `;`.
    fn jump_target(&mut self) -> (r: Result<Option<String>, ParseError>)
        requires
            old(self).wf(),
        ensures
            final(self).wf(),
            final(self).tokens@ == old(self).tokens@,
            match r {
                Ok(l) => Ok((opt_name_view(l), final(self).pos as int)),
                Err(e) => Err(e@),
            } == jump_target(old(self).token_view(), old(self).pos as int),
            r is Ok ==> old(self).pos < final(self).pos,
    {
        let target = if self.check(TokenType::Tick) {
            self.advance();
            match self.consume(TokenType::Identifier) {
                Ok(t) => Some(t.value),
                Err(e) => {
                    return Err(e);
                },
            }
        } else {
            None
        };
        match self.consume(TokenType::Semicolon) {
            Ok(_) => Ok(target),
            Err(e) => Err(e),
        }
    }

    /// `let [mut] name [: type] = expr ;`
    fn parse_var_decl(&mut self) -> (r: Result<Stmt, ParseError>)
        requires
            old(self).wf(),
        ensures
            final(self).wf(),
            final(self).tokens@ == old(self).tokens@,
            res_view(r, final(self).pos) == parse_var_decl(
                old(self).token_view(),
                old(self).pos as int,
            ),
            r is Ok ==> moved(old(self).token_view(), old(self).pos as int, final(self).pos as int),
    {
        match self.consume(TokenType::Let) {
            Ok(_) => {},
            Err(e) => {
                return Err(e);
            },
        }
        let mutable = if self.check(TokenType::Mut) {
            self.advance();
            true
        } else {
            false
        };
        let name = match self.consume(TokenType::Identifier) {
            Ok(t) => t.value,
            Err(e) => {
                return Err(e);
            },
        };
        let ty = if self.check(TokenType::Colon) {
            self.advance();
            match self.parse_type() {
                Ok(t) => Some(t),
                Err(e) => {
                    return Err(e);
                },
            }
        } else {
            None
        };
        match self.consume(TokenType::Assign) {
            Ok(_) => {},
            Err(e) => {
                return Err(e);
            },
        }
        let value = match self.parse_expr() {
            Ok(e) => e,
            Err(e) => {
                return Err(e);
            },
        };
        match self.consume(TokenType::Semicolon) {
            Ok(_) => {},
            Err(e) => {
                return Err(e);
            },
        }
        Ok(Stmt::VarDecl(VarDecl { name, ty, value, mutable }))
    }

    /// `if expr block [else (if ... | block)]`
    fn parse_if(&mut self) -> (r: Result<Stmt, ParseError>)
        requires
            old(self).wf(),
        ensures
            final(self).wf(),
            final(self).tokens@ == old(self).tokens@,
            res_view(r, final(self).pos) == parse_if(old(self).token_view(), old(self).pos as int),
            r is Ok ==> moved(old(self).token_view(), old(self).pos as int, final(self).pos as int),
        decreases old(self).tokens@.len() - old(self).pos, 0int,
    {
        match self.consume(TokenType::If) {
            Ok(_) => {},
            Err(e) => {
                return Err(e);
            },
        }
        let cond = match self.parse_cond() {
            Ok(e) => e,
            Err(e) => {
                return Err(e);
            },
        };
        let then_block = match self.parse_block() {
            Ok(b) => b,
            Err(e) => {
                return Err(e);
            },
        };
        let else_block = if self.check(TokenType::Else) {
            self.advance();
            if self.check(TokenType::If) {
                match self.parse_if() {
                    Ok(st) => {
                        let mut v: Vec<Stmt> = Vec::new();
                        v.push(st);
                        assert(v@.drop_last() =~= Seq::<Stmt>::empty());
                        assert(stmts_view(Seq::<Stmt>::empty()) =~= Seq::<SpecStmt>::empty());
                        assert(v@.last() == st);
                        assert(stmts_view(v@) =~= seq![st@]);
                        Some(v)
                    },
                    Err(e) => {
                        return Err(e);
                    },
                }
            } else {
                match self.parse_block() {
                    Ok(b) => Some(b),
                    Err(e) => {
                        return Err(e);
                    },
                }
            }
        } else {
            None
        };
        Ok(Stmt::If { cond, then_block, else_block })
    }

    /// `for Identifier in additive [(.. | ..=) additive] block`
    fn parse_for(&mut self, label: Option<String>) -> (r: Result<Stmt, ParseError>)
        requires
            old(self).wf(),
        ensures
            final(self).wf(),
            final(self).tokens@ == old(self).tokens@,
            res_view(r, final(self).pos) == parse_for(
                old(self).token_view(),
                old(self).pos as int,
                opt_name_view(label),
            ),
            r is Ok ==> moved(old(self).token_view(), old(self).pos as int, final(self).pos as int),
        decreases old(self).tokens@.len() - old(self).pos, 0int,
    {
        match self.consume(TokenType::For) {
            Ok(_) => {},
            Err(e) => {
                return Err(e);
            },
        }
        let var = match self.consume(TokenType::Identifier) {
            Ok(t) => t.value,
            Err(e) => {
                return Err(e);
            },
        };
        match self.consume(TokenType::In) {
            Ok(_) => {},
            Err(e) => {
                return Err(e);
            },
        }
        let start = match self.parse_level(8, true) {
            Ok(e) => e,
            Err(e) => {
                return Err(e);
            },
        };
        let iter = if self.check(TokenType::DotDot) {
            self.advance();
            match self.parse_level(8, true) {
                Ok(end) => ForIter::Range { start, end, inclusive: false },
                Err(e) => {
                    return Err(e);
                },
            }
        } else if self.check(TokenType::DotDotEq) {
            self.advance();
            match self.parse_level(8, true) {
                Ok(end) => ForIter::Range { start, end, inclusive: true },
                Err(e) => {
                    return Err(e);
                },
            }
        } else {
            ForIter::Expr(start)
        };
        let body = match self.parse_block() {
            Ok(b) => b,
            Err(e) => {
                return Err(e);
            },
        };
        Ok(Stmt::For { label, var, iter, body })
    }

    /// `while expr block`
    fn parse_while(&mut self, label: Option<String>) -> (r: Result<Stmt, ParseError>)
        requires
            old(self).wf(),
        ensures
            final(self).wf(),
            final(self).tokens@ == old(self).tokens@,
            res_view(r, final(self).pos) == parse_while(
                old(self).token_view(),
                old(self).pos as int,
                opt_name_view(label),
            ),
            r is Ok ==> moved(old(self).token_view(), old(self).pos as int, final(self).pos as int),
        decreases old(self).tokens@.len() - old(self).pos, 0int,
    {
        match self.consume(TokenType::While) {
            Ok(_) => {},
            Err(e) => {
                return Err(e);
            },
        }
        let cond = match self.parse_cond() {
            Ok(e) => e,
            Err(e) => {
                return Err(e);
            },
        };
        let body = match self.parse_block() {
            Ok(b) => b,
            Err(e) => {
                return Err(e);
            },
        };
        Ok(Stmt::While { label, cond, body })
    }

    /// `return [expr] ;`
    fn parse_return(&mut self) -> (r: Result<Stmt, ParseError>)
        requires
            old(self).wf(),
        ensures
            final(self).wf(),
            final(self).tokens@ == old(self).tokens@,
            res_view(r, final(self).pos) == parse_return(
                old(self).token_view(),
                old(self).pos as int,
            ),
            r is Ok ==> moved(old(self).token_view(), old(self).pos as int, final(self).pos as int),
    {
        match self.consume(TokenType::Return) {
            Ok(_) => {},
            Err(e) => {
                return Err(e);
            },
        }
        if self.check(TokenType::Semicolon) {
            self.advance();
            return Ok(Stmt::Return(None));
        }
        let expr = match self.parse_expr() {
            Ok(e) => e,
            Err(e) => {
                return Err(e);
            },
        };
        match self.consume(TokenType::Semicolon) {
            Ok(_) => Ok(Stmt::Return(Some(expr))),
            Err(e) => Err(e),
        }
    }

    /// `expr [= expr] ;`
    fn parse_expr_or_assign(&mut self) -> (r: Result<Stmt, ParseError>)
        requires
            old(self).wf(),
        ensures
            final(self).wf(),
            final(self).tokens@ == old(self).tokens@,
            res_view(r, final(self).pos) == parse_expr_or_assign(
                old(self).token_view(),
                old(self).pos as int,
            ),
            r is Ok ==> moved(old(self).token_view(), old(self).pos as int, final(self).pos as int),
    {
        let lhs = match self.parse_expr() {
            Ok(e) => e,
            Err(e) => {
                return Err(e);
            },
        };
        if self.check(TokenType::Assign) {
            self.advance();
            let rhs = match self.parse_expr() {
                Ok(e) => e,
                Err(e) => {
                    return Err(e);
                },
            };
            match self.consume(TokenType::Semicolon) {
                Ok(_) => Ok(Stmt::Assign { target: lhs, value: rhs }),
                Err(e) => Err(e),
            }
        } else {
            match self.consume(TokenType::Semicolon) {
                Ok(_) => Ok(Stmt::Expr(lhs)),
                Err(e) => Err(e),
            }
        }
    }
}

impl Parser {
    /// Reads declarations up to `Eof`.
    pub fn parse(&mut self) -> (r: Result<Program, ParseError>)
        requires
            old(self).wf(),
        ensures
            final(self).wf(),
            final(self).token_view() == old(self).token_view(),
            program_res(r) == parse_program(old(self).token_view(), old(self).position()),
    {
        let ghost ts = self.token_view();
        let ghost p0 = self.pos as int;
        let mut decls: Vec<Decl> = Vec::new();
        assert(decls_view(decls@) =~= Seq::<SpecDecl>::empty());
        while !self.at_end()
            invariant
                self.wf(),
                self.token_view() == ts,
                ts == old(self).token_view(),
                p0 == old(self).pos,
                parse_decls(ts, p0, Seq::empty()) == parse_decls(
                    ts,
                    self.pos as int,
                    decls_view(decls@),
                ),
            decreases ts.len() - self.pos,
        {
            let d = match self.parse_decl() {
                Ok(d) => d,
                Err(e) => {
                    return Err(e);
                },
            };
            let ghost before = decls@;
            decls.push(d);
            assert(decls_view(decls@) =~= decls_view(before).push(d@));
        }
        Ok(Program { decls })
    }

    /// `[gen] fn ... | struct ...`
    fn parse_decl(&mut self) -> (r: Result<Decl, ParseError>)
        requires
            old(self).wf(),
        ensures
            final(self).wf(),
            final(self).tokens@ == old(self).tokens@,
            res_view(r, final(self).pos) == parse_decl(old(self).token_view(), old(self).pos as int),
            r is Ok ==> moved(old(self).token_view(), old(self).pos as int, final(self).pos as int),
    {
        let is_gen = if self.check(TokenType::Gen) {
            self.advance();
            true
        } else {
            false
        };
        match self.peek_ty() {
            TokenType::Fn => match self.parse_fn_decl(is_gen) {
                Ok(f) => Ok(Decl::Fn(f)),
                Err(e) => Err(e),
            },
            TokenType::Struct => {
                if is_gen {
                    return Err(self.error_here("Cannot use 'gen' with struct declaration"));
                }
                match self.parse_struct_decl() {
                    Ok(sd) => Ok(Decl::Struct(sd)),
                    Err(e) => Err(e),
                }
            },
            _ => Err(self.error_around("Expected 'fn' or 'struct', found '", "'")),
        }
    }

    /// `fn Identifier ( params ) [-> type] block`
    fn parse_fn_decl(&mut self, is_gen: bool) -> (r: Result<FnDecl, ParseError>)
        requires
            old(self).wf(),
        ensures
            final(self).wf(),
            final(self).tokens@ == old(self).tokens@,
            res_view(r, final(self).pos) == parse_fn_decl(
                old(self).token_view(),
                old(self).pos as int,
                is_gen,
            ),
            r is Ok ==> moved(old(self).token_view(), old(self).pos as int, final(self).pos as int),
    {
        let ghost ts = self.token_view();
        match self.consume(TokenType::Fn) {
            Ok(_) => {},
            Err(e) => {
                return Err(e);
            },
        }
        let name = match self.consume(TokenType::Identifier) {
            Ok(t) => t.value,
            Err(e) => {
                return Err(e);
            },
        };
        match self.consume(TokenType::LParen) {
            Ok(_) => {},
            Err(e) => {
                return Err(e);
            },
        }
        let params = match self.fn_params() {
            Ok(ps) => ps,
            Err(e) => {
                return Err(e);
            },
        };
        let ret_ty = if self.check(TokenType::Arrow) {
            self.advance();
            match self.parse_type() {
                Ok(t) => t,
                Err(e) => {
                    return Err(e);
                },
            }
        } else {
            Type::Void
        };
        let body = match self.parse_block() {
            Ok(b) => b,
            Err(e) => {
                return Err(e);
            },
        };
        Ok(FnDecl { name, params, ret_ty, body, is_gen })
    }

    /// `struct Identifier { fields }`
    fn parse_struct_decl(&mut self) -> (r: Result<StructDecl, ParseError>)
        requires
            old(self).wf(),
        ensures
            final(self).wf(),
            final(self).tokens@ == old(self).tokens@,
            res_view(r, final(self).pos) == parse_struct_decl(
                old(self).token_view(),
                old(self).pos as int,
            ),
            r is Ok ==> moved(old(self).token_view(), old(self).pos as int, final(self).pos as int),
    {
        let ghost ts = self.token_view();
        match self.consume(TokenType::Struct) {
            Ok(_) => {},
            Err(e) => {
                return Err(e);
            },
        }
        let name = match self.consume(TokenType::Identifier) {
            Ok(t) => t.value,
            Err(e) => {
                return Err(e);
            },
        };
        match self.consume(TokenType::LBrace) {
            Ok(_) => {},
            Err(e) => {
                return Err(e);
            },
        }
        match self.struct_decl_fields() {
            Ok(fields) => Ok(StructDecl { name, fields }),
            Err(e) => Err(e),
        }
    }
}

impl Parser {
    /// Parameters `name: type` after `(`, through the closing `)`.
    fn fn_params(&mut self) -> (r: Result<Vec<Param>, ParseError>)
        requires
            old(self).wf(),
        ensures
            final(self).wf(),
            final(self).tokens@ == old(self).tokens@,
            match r {
                Ok(v) => Ok((params_view(v@), final(self).pos as int)),
                Err(e) => Err(e@),
            } == fn_params(old(self).token_view(), old(self).pos as int, Seq::empty()),
            r is Ok ==> old(self).pos <= final(self).pos,
    {
        let ghost ts = self.token_view();
        let ghost p0 = self.pos as int;
        let mut params: Vec<Param> = Vec::new();
        assert(params_view(params@) =~= Seq::<SpecParam>::empty());
        loop
            invariant
                self.wf(),
                self.token_view() == ts,
                self.tokens@ == old(self).tokens@,
                ts == old(self).token_view(),
                p0 == old(self).pos,
                p0 <= self.pos,
                fn_params(ts, p0, Seq::empty()) == fn_params(
                    ts,
                    self.pos as int,
                    params_view(params@),
                ),
            decreases ts.len() - self.pos,
        {
            if !self.check(TokenType::RParen) && !self.at_end() {
                let pname = match self.consume(TokenType::Identifier) {
                    Ok(t) => t.value,
                    Err(e) => {
                        return Err(e);
                    },
                };
                match self.consume(TokenType::Colon) {
                    Ok(_) => {},
                    Err(e) => {
                        return Err(e);
                    },
                }
                let pty = match self.parse_type() {
                    Ok(t) => t,
                    Err(e) => {
                        return Err(e);
                    },
                };
                let ghost before = params@;
                let param = Param { name: pname, ty: pty };
                params.push(param);
                assert(params_view(params@) =~= params_view(before).push(param@));
                if !self.check(TokenType::RParen) {
                    match self.consume(TokenType::Comma) {
                        Ok(_) => {},
                        Err(e) => {
                            return Err(e);
                        },
                    }
                }
            } else {
                match self.consume(TokenType::RParen) {
                    Ok(_) => {
                        return Ok(params);
                    },
                    Err(e) => {
                        return Err(e);
                    },
                }
            }
        }
    }

    /// Struct fields `name: type` after `{`, through the closing `}`.
    fn struct_decl_fields(&mut self) -> (r: Result<Vec<(String, Type)>, ParseError>)
        requires
            old(self).wf(),
        ensures
            final(self).wf(),
            final(self).tokens@ == old(self).tokens@,
            match r {
                Ok(v) => Ok((field_decls_view(v@), final(self).pos as int)),
                Err(e) => Err(e@),
            } == struct_decl_fields(old(self).token_view(), old(self).pos as int, Seq::empty()),
            r is Ok ==> old(self).pos <= final(self).pos,
    {
        let ghost ts = self.token_view();
        let ghost p0 = self.pos as int;
        let mut fields: Vec<(String, Type)> = Vec::new();
        assert(field_decls_view(fields@) =~= Seq::<(Seq<char>, SpecType)>::empty());
        loop
            invariant
                self.wf(),
                self.token_view() == ts,
                self.tokens@ == old(self).tokens@,
                ts == old(self).token_view(),
                p0 == old(self).pos,
                p0 <= self.pos,
                struct_decl_fields(ts, p0, Seq::empty()) == struct_decl_fields(
                    ts,
                    self.pos as int,
                    field_decls_view(fields@),
                ),
            decreases ts.len() - self.pos,
        {
            if !self.check(TokenType::RBrace) && !self.at_end() {
                let fname = match self.consume(TokenType::Identifier) {
                    Ok(t) => t.value,
                    Err(e) => {
                        return Err(e);
                    },
                };
                match self.consume(TokenType::Colon) {
                    Ok(_) => {},
                    Err(e) => {
                        return Err(e);
                    },
                }
                let fty = match self.parse_type() {
                    Ok(t) => t,
                    Err(e) => {
                        return Err(e);
                    },
                };
                let ghost before = fields@;
                let ghost fv = (fname@, fty@);
                fields.push((fname, fty));
                assert(field_decls_view(fields@) =~= field_decls_view(before).push(fv));
                if !self.check(TokenType::RBrace) {
                    match self.consume(TokenType::Comma) {
                        Ok(_) => {},
                        Err(e) => {
                            return Err(e);
                        },
                    }
                }
            } else {
                match self.consume(TokenType::RBrace) {
                    Ok(_) => {
                        return Ok(fields);
                    },
                    Err(e) => {
                        return Err(e);
                    },
                }
            }
        }
    }
}

/// How the error reads: `Parse error at line L, col C: message`.
pub open spec fn parse_error_text(line: nat, col: nat, message: Seq<char>) -> Seq<char> {
    "Parse error at line "@ + crate::text::decimal(line) + ", col "@ + crate::text::decimal(col)
        + ": "@ + message
}

impl ParseError {
    /// The error as a line of text for the user.
    pub fn describe(&self) -> (s: String)
        ensures
            s@ == parse_error_text(self.line as nat, self.col as nat, self.message@),
    {
        let mut s = String::from_str("Parse error at line ");
        crate::text::push_decimal(&mut s, self.line);
        s.append(", col ");
        crate::text::push_decimal(&mut s, self.col);
        s.append(": ");
        s.append(self.message.as_str());
        s
    }
}

} // verus!
