//! Laws of the parser: where its errors stand, and that a type's printed form reads back.

use vstd::prelude::*;

use crate::ast::{SpecExpr, SpecParam, SpecStmt, SpecType, SpecDecl};
use crate::parser::{
    SpecParseError, adv, array_elems, block_items, call_args, consume, fn_params, in_range,
    jump_target, label_prefix, level_tail, moved, parse_block, parse_cond, parse_decl,
    parse_decls, parse_expr, parse_expr_or_assign, parse_fn_decl, parse_for, parse_for_iter,
    parse_if, parse_level, parse_postfix, parse_primary, parse_program, parse_return,
    parse_stmt, parse_struct_decl, parse_type, parse_unary, parse_var_decl, parse_while,
    postfix_tail, struct_decl_fields, struct_fields,
};
use crate::token::{SpecToken, TokenType};

verus! {

/// Error `e` stands at the line and column of one of the tokens `ts`.
pub open spec fn error_at_token(ts: Seq<SpecToken>, e: SpecParseError) -> bool {
    exists|i: int| 0 <= i < ts.len() && e.line == (#[trigger] ts[i]).line && e.col == ts[i].col
}

/// A rule's result: where it stopped is one of the tokens, and an error stands at one.
pub open spec fn sound<T>(ts: Seq<SpecToken>, r: Result<(T, int), SpecParseError>) -> bool {
    match r {
        Ok((_, q)) => 0 <= q < ts.len(),
        Err(e) => error_at_token(ts, e),
    }
}

proof fn lemma_consume(ts: Seq<SpecToken>, p: int, ty: TokenType)
    requires
        in_range(ts, p),
    ensures
        match consume(ts, p, ty) {
            Ok(q) => in_range(ts, q) && p <= q,
            Err(e) => error_at_token(ts, e),
        },
{
    assert(ts[p] == ts[p]);
}

proof fn lemma_at(ts: Seq<SpecToken>, p: int, e: SpecParseError)
    requires
        0 <= p < ts.len(),
        e.line == ts[p].line,
        e.col == ts[p].col,
    ensures
        error_at_token(ts, e),
{
    assert(ts[p] == ts[p]);
}

proof fn lemma_type(ts: Seq<SpecToken>, p: int)
    requires
        in_range(ts, p),
    ensures
        sound(ts, parse_type(ts, p)),
    decreases ts.len() - p,
{
    assert(ts[p] == ts[p]);
    if crate::parser::type_of_keyword(ts[p].ty) is None && ts[p].ty == TokenType::LBracket {
        lemma_type(ts, adv(ts, p));
        if let Ok((_, p2)) = parse_type(ts, adv(ts, p)) {
            lemma_consume(ts, p2, TokenType::RBracket);
        }
    }
}

proof fn lemma_expr(ts: Seq<SpecToken>, p: int)
    requires
        in_range(ts, p),
    ensures
        sound(ts, parse_expr(ts, p)),
    decreases ts.len() - p, 40int,
{
    lemma_level(ts, p, 0, false);
}

proof fn lemma_cond(ts: Seq<SpecToken>, p: int)
    requires
        in_range(ts, p),
    ensures
        sound(ts, parse_cond(ts, p)),
    decreases ts.len() - p, 40int,
{
    lemma_level(ts, p, 0, true);
}

proof fn lemma_level(ts: Seq<SpecToken>, p: int, k: int, ns: bool)
    requires
        in_range(ts, p),
        0 <= k <= 9,
    ensures
        sound(ts, parse_level(ts, p, k, ns)),
    decreases ts.len() - p, 30 - k,
{
    assert(ts[p] == ts[p]);
    if k < 9 {
        lemma_level(ts, p, k + 1, ns);
    } else {
        lemma_unary(ts, p, ns);
    }
    let sub = if k < 9 {
        parse_level(ts, p, k + 1, ns)
    } else {
        parse_unary(ts, p, ns)
    };
    if let Ok((l, p2)) = sub {
        if moved(ts, p, p2) {
            lemma_level_tail(ts, p2, k, l, ns);
        }
    }
}

proof fn lemma_level_tail(ts: Seq<SpecToken>, p: int, k: int, left: SpecExpr, ns: bool)
    requires
        in_range(ts, p),
        0 <= k <= 9,
    ensures
        sound(ts, level_tail(ts, p, k, left, ns)),
    decreases ts.len() - p, 0int,
{
    assert(ts[p] == ts[p]);
    if let Some(op) = crate::parser::level_op(k, ts[p].ty) {
        let p1 = adv(ts, p);
        if k < 9 {
            lemma_level(ts, p1, k + 1, ns);
        } else {
            lemma_unary(ts, p1, ns);
        }
        let sub = if k < 9 {
            parse_level(ts, p1, k + 1, ns)
        } else {
            parse_unary(ts, p1, ns)
        };
        if let Ok((r, p2)) = sub {
            if moved(ts, p1, p2) {
                lemma_level_tail(
                    ts,
                    p2,
                    k,
                    SpecExpr::Binary { left: Box::new(left), op, right: Box::new(r) },
                    ns,
                );
            }
        }
    }
}

proof fn lemma_unary(ts: Seq<SpecToken>, p: int, ns: bool)
    requires
        in_range(ts, p),
    ensures
        sound(ts, parse_unary(ts, p, ns)),
    decreases ts.len() - p, 20int,
{
    if ts[p].ty == TokenType::Minus || ts[p].ty == TokenType::Bang {
        lemma_unary(ts, adv(ts, p), ns);
    } else {
        lemma_postfix(ts, p, ns);
    }
}

proof fn lemma_postfix(ts: Seq<SpecToken>, p: int, ns: bool)
    requires
        in_range(ts, p),
    ensures
        sound(ts, parse_postfix(ts, p, ns)),
    decreases ts.len() - p, 19int,
{
    assert(ts[p] == ts[p]);
    lemma_primary(ts, p, ns);
    if let Ok((e, p2)) = parse_primary(ts, p, ns) {
        if moved(ts, p, p2) {
            lemma_postfix_tail(ts, p2, e);
        }
    }
}

proof fn lemma_postfix_tail(ts: Seq<SpecToken>, p: int, e: SpecExpr)
    requires
        in_range(ts, p),
    ensures
        sound(ts, postfix_tail(ts, p, e)),
    decreases ts.len() - p, 0int,
{
    assert(ts[p] == ts[p]);
    if ts[p].ty == TokenType::Dot {
        let p1 = adv(ts, p);
        lemma_consume(ts, p1, TokenType::Identifier);
        if let Ok(p2) = consume(ts, p1, TokenType::Identifier) {
            lemma_postfix_tail(ts, p2, SpecExpr::Field { object: Box::new(e), field: ts[p1].value });
        }
    } else if ts[p].ty == TokenType::LBracket {
        let p1 = adv(ts, p);
        lemma_expr(ts, p1);
        if let Ok((idx, p2)) = parse_expr(ts, p1) {
            lemma_consume(ts, p2, TokenType::RBracket);
            if let Ok(p3) = consume(ts, p2, TokenType::RBracket) {
                if moved(ts, p, p3) {
                    lemma_postfix_tail(ts, p3, SpecExpr::Index { array: Box::new(e), index: Box::new(idx) });
                }
            }
        }
    }
}

proof fn lemma_primary(ts: Seq<SpecToken>, p: int, ns: bool)
    requires
        in_range(ts, p),
    ensures
        sound(ts, parse_primary(ts, p, ns)),
    decreases ts.len() - p, 18int,
{
    let t = ts[p];
    let p1 = adv(ts, p);
    if t.ty == TokenType::Identifier {
        if ts[p1].ty == TokenType::LParen {
            lemma_call_args(ts, adv(ts, p1), Seq::empty());
        } else if ts[p1].ty == TokenType::LBrace && !ns {
            lemma_struct_fields(ts, adv(ts, p1), Seq::empty());
        }
    } else if t.ty == TokenType::LParen {
        lemma_expr(ts, p1);
        if let Ok((e, p2)) = parse_expr(ts, p1) {
            lemma_consume(ts, p2, TokenType::RParen);
        }
    } else if t.ty == TokenType::LBracket {
        lemma_array_elems(ts, p1, Seq::empty());
    }
}

proof fn lemma_call_args(ts: Seq<SpecToken>, p: int, acc: Seq<SpecExpr>)
    requires
        in_range(ts, p),
    ensures
        sound(ts, call_args(ts, p, acc)),
    decreases ts.len() - p, 45int,
{
    assert(ts[p] == ts[p]);
    if ts[p].ty != TokenType::RParen && ts[p].ty != TokenType::Eof {
        lemma_expr(ts, p);
        if let Ok((e, p2)) = parse_expr(ts, p) {
            if moved(ts, p, p2) {
                if ts[p2].ty != TokenType::RParen {
                    lemma_consume(ts, p2, TokenType::Comma);
                    if let Ok(p3) = consume(ts, p2, TokenType::Comma) {
                        lemma_call_args(ts, p3, acc.push(e));
                    }
                } else {
                    lemma_call_args(ts, p2, acc.push(e));
                }
            }
        }
    } else {
        lemma_consume(ts, p, TokenType::RParen);
    }
}

proof fn lemma_array_elems(ts: Seq<SpecToken>, p: int, acc: Seq<SpecExpr>)
    requires
        in_range(ts, p),
    ensures
        sound(ts, array_elems(ts, p, acc)),
    decreases ts.len() - p, 45int,
{
    assert(ts[p] == ts[p]);
    if ts[p].ty != TokenType::RBracket && ts[p].ty != TokenType::Eof {
        lemma_expr(ts, p);
        if let Ok((e, p2)) = parse_expr(ts, p) {
            if moved(ts, p, p2) {
                if ts[p2].ty != TokenType::RBracket {
                    lemma_consume(ts, p2, TokenType::Comma);
                    if let Ok(p3) = consume(ts, p2, TokenType::Comma) {
                        lemma_array_elems(ts, p3, acc.push(e));
                    }
                } else {
                    lemma_array_elems(ts, p2, acc.push(e));
                }
            }
        }
    } else {
        lemma_consume(ts, p, TokenType::RBracket);
    }
}

proof fn lemma_struct_fields(ts: Seq<SpecToken>, p: int, acc: Seq<(Seq<char>, SpecExpr)>)
    requires
        in_range(ts, p),
    ensures
        sound(ts, struct_fields(ts, p, acc)),
    decreases ts.len() - p, 45int,
{
    assert(ts[p] == ts[p]);
    if ts[p].ty != TokenType::RBrace && ts[p].ty != TokenType::Eof {
        lemma_consume(ts, p, TokenType::Identifier);
        if let Ok(p1) = consume(ts, p, TokenType::Identifier) {
            lemma_consume(ts, p1, TokenType::Colon);
            if let Ok(p2) = consume(ts, p1, TokenType::Colon) {
                lemma_expr(ts, p2);
                if let Ok((v, p3)) = parse_expr(ts, p2) {
                    if moved(ts, p, p3) {
                        let acc2 = acc.push((ts[p].value, v));
                        if ts[p3].ty != TokenType::RBrace {
                            lemma_consume(ts, p3, TokenType::Comma);
                            if let Ok(p4) = consume(ts, p3, TokenType::Comma) {
                                lemma_struct_fields(ts, p4, acc2);
                            }
                        } else {
                            lemma_struct_fields(ts, p3, acc2);
                        }
                    }
                }
            }
        }
    } else {
        lemma_consume(ts, p, TokenType::RBrace);
    }
}

proof fn lemma_label(ts: Seq<SpecToken>, p: int)
    requires
        in_range(ts, p),
    ensures
        sound(ts, label_prefix(ts, p)),
{
    assert(ts[p] == ts[p]);
    if ts[p].ty == TokenType::Tick {
        let p1 = adv(ts, p);
        lemma_consume(ts, p1, TokenType::Identifier);
        if let Ok(p2) = consume(ts, p1, TokenType::Identifier) {
            lemma_consume(ts, p2, TokenType::Colon);
        }
    }
}

proof fn lemma_jump_target(ts: Seq<SpecToken>, p: int)
    requires
        in_range(ts, p),
    ensures
        sound(ts, jump_target(ts, p)),
{
    if ts[p].ty == TokenType::Tick {
        let p1 = adv(ts, p);
        lemma_consume(ts, p1, TokenType::Identifier);
        if let Ok(p2) = consume(ts, p1, TokenType::Identifier) {
            lemma_consume(ts, p2, TokenType::Semicolon);
        }
    } else {
        lemma_consume(ts, p, TokenType::Semicolon);
    }
}

proof fn lemma_block(ts: Seq<SpecToken>, p: int)
    requires
        in_range(ts, p),
    ensures
        sound(ts, parse_block(ts, p)),
    decreases ts.len() - p, 3int,
{
    assert(ts[p] == ts[p]);
    lemma_consume(ts, p, TokenType::LBrace);
    if let Ok(p1) = consume(ts, p, TokenType::LBrace) {
        if moved(ts, p, p1) {
            lemma_block_items(ts, p1, Seq::empty());
        }
    }
}

proof fn lemma_block_items(ts: Seq<SpecToken>, p: int, acc: Seq<SpecStmt>)
    requires
        in_range(ts, p),
    ensures
        sound(ts, block_items(ts, p, acc)),
    decreases ts.len() - p, 2int,
{
    assert(ts[p] == ts[p]);
    if ts[p].ty != TokenType::RBrace && ts[p].ty != TokenType::Eof {
        lemma_stmt(ts, p);
        if let Ok((st, p2)) = parse_stmt(ts, p) {
            if moved(ts, p, p2) {
                lemma_block_items(ts, p2, acc.push(st));
            }
        }
    } else {
        lemma_consume(ts, p, TokenType::RBrace);
    }
}

proof fn lemma_stmt(ts: Seq<SpecToken>, p: int)
    requires
        in_range(ts, p),
    ensures
        sound(ts, parse_stmt(ts, p)),
    decreases ts.len() - p, 1int,
{
    assert(ts[p] == ts[p]);
    lemma_label(ts, p);
    if let Ok((label, q)) = label_prefix(ts, p) {
        if p <= q < ts.len() {
            let t = ts[q];
            if t.ty == TokenType::Let {
                lemma_var_decl(ts, q);
            } else if t.ty == TokenType::If {
                lemma_if(ts, q);
            } else if t.ty == TokenType::For {
                lemma_for(ts, q, label);
            } else if t.ty == TokenType::While {
                lemma_while(ts, q, label);
            } else if t.ty == TokenType::Return {
                lemma_return(ts, q);
            } else if t.ty == TokenType::Break || t.ty == TokenType::Continue {
                lemma_jump_target(ts, adv(ts, q));
            } else if t.ty == TokenType::Yield {
                lemma_expr(ts, adv(ts, q));
                if let Ok((e, p2)) = parse_expr(ts, adv(ts, q)) {
                    lemma_consume(ts, p2, TokenType::Semicolon);
                }
            } else if label is None {
                lemma_expr_or_assign(ts, q);
            }
        }
    }
}

proof fn lemma_var_decl(ts: Seq<SpecToken>, p: int)
    requires
        in_range(ts, p),
    ensures
        sound(ts, parse_var_decl(ts, p)),
{
    lemma_consume(ts, p, TokenType::Let);
    if let Ok(p1) = consume(ts, p, TokenType::Let) {
        let p2 = if ts[p1].ty == TokenType::Mut {
            adv(ts, p1)
        } else {
            p1
        };
        lemma_consume(ts, p2, TokenType::Identifier);
        if let Ok(p3) = consume(ts, p2, TokenType::Identifier) {
            if ts[p3].ty == TokenType::Colon {
                lemma_type(ts, adv(ts, p3));
            }
            let ty: Result<(Option<SpecType>, int), SpecParseError> = if ts[p3].ty
                == TokenType::Colon {
                match parse_type(ts, adv(ts, p3)) {
                    Ok((t, p4)) => Ok((Some(t), p4)),
                    Err(er) => Err(er),
                }
            } else {
                Ok((None, p3))
            };
            if let Ok((_, p4)) = ty {
                lemma_consume(ts, p4, TokenType::Assign);
                if let Ok(p5) = consume(ts, p4, TokenType::Assign) {
                    lemma_expr(ts, p5);
                    if let Ok((_, p6)) = parse_expr(ts, p5) {
                        lemma_consume(ts, p6, TokenType::Semicolon);
                    }
                }
            }
        }
    }
}

proof fn lemma_if(ts: Seq<SpecToken>, p: int)
    requires
        in_range(ts, p),
    ensures
        sound(ts, parse_if(ts, p)),
    decreases ts.len() - p, 0int,
{
    assert(ts[p] == ts[p]);
    lemma_consume(ts, p, TokenType::If);
    if let Ok(p1) = consume(ts, p, TokenType::If) {
        lemma_cond(ts, p1);
        if let Ok((_, p2)) = parse_cond(ts, p1) {
            if moved(ts, p, p2) {
                lemma_block(ts, p2);
                if let Ok((_, p3)) = parse_block(ts, p2) {
                    if moved(ts, p, p3) && ts[p3].ty == TokenType::Else {
                        let p4 = adv(ts, p3);
                        if ts[p4].ty == TokenType::If {
                            lemma_if(ts, p4);
                        } else {
                            lemma_block(ts, p4);
                        }
                    }
                }
            }
        }
    }
}

proof fn lemma_for_iter(ts: Seq<SpecToken>, p: int)
    requires
        in_range(ts, p),
    ensures
        sound(ts, parse_for_iter(ts, p)),
{
    lemma_level(ts, p, 8, true);
    if let Ok((_, p1)) = parse_level(ts, p, 8, true) {
        if ts[p1].ty == TokenType::DotDot || ts[p1].ty == TokenType::DotDotEq {
            lemma_level(ts, adv(ts, p1), 8, true);
        }
    }
}

proof fn lemma_for(ts: Seq<SpecToken>, p: int, label: Option<Seq<char>>)
    requires
        in_range(ts, p),
    ensures
        sound(ts, parse_for(ts, p, label)),
    decreases ts.len() - p, 0int,
{
    assert(ts[p] == ts[p]);
    lemma_consume(ts, p, TokenType::For);
    if let Ok(p1) = consume(ts, p, TokenType::For) {
        lemma_consume(ts, p1, TokenType::Identifier);
        if let Ok(p2) = consume(ts, p1, TokenType::Identifier) {
            lemma_consume(ts, p2, TokenType::In);
            if let Ok(p3) = consume(ts, p2, TokenType::In) {
                lemma_for_iter(ts, p3);
                if let Ok((_, p4)) = parse_for_iter(ts, p3) {
                    if moved(ts, p, p4) {
                        lemma_block(ts, p4);
                    }
                }
            }
        }
    }
}

proof fn lemma_while(ts: Seq<SpecToken>, p: int, label: Option<Seq<char>>)
    requires
        in_range(ts, p),
    ensures
        sound(ts, parse_while(ts, p, label)),
    decreases ts.len() - p, 0int,
{
    assert(ts[p] == ts[p]);
    lemma_consume(ts, p, TokenType::While);
    if let Ok(p1) = consume(ts, p, TokenType::While) {
        lemma_cond(ts, p1);
        if let Ok((_, p2)) = parse_cond(ts, p1) {
            if moved(ts, p, p2) {
                lemma_block(ts, p2);
            }
        }
    }
}

proof fn lemma_return(ts: Seq<SpecToken>, p: int)
    requires
        in_range(ts, p),
    ensures
        sound(ts, parse_return(ts, p)),
{
    lemma_consume(ts, p, TokenType::Return);
    if let Ok(p1) = consume(ts, p, TokenType::Return) {
        if ts[p1].ty != TokenType::Semicolon {
            lemma_expr(ts, p1);
            if let Ok((_, p2)) = parse_expr(ts, p1) {
                lemma_consume(ts, p2, TokenType::Semicolon);
            }
        }
    }
}

proof fn lemma_expr_or_assign(ts: Seq<SpecToken>, p: int)
    requires
        in_range(ts, p),
    ensures
        sound(ts, parse_expr_or_assign(ts, p)),
{
    lemma_expr(ts, p);
    if let Ok((_, p1)) = parse_expr(ts, p) {
        if ts[p1].ty == TokenType::Assign {
            lemma_expr(ts, adv(ts, p1));
            if let Ok((_, p2)) = parse_expr(ts, adv(ts, p1)) {
                lemma_consume(ts, p2, TokenType::Semicolon);
            }
        } else {
            lemma_consume(ts, p1, TokenType::Semicolon);
        }
    }
}

proof fn lemma_fn_params(ts: Seq<SpecToken>, p: int, acc: Seq<SpecParam>)
    requires
        in_range(ts, p),
    ensures
        sound(ts, fn_params(ts, p, acc)),
    decreases ts.len() - p,
{
    assert(ts[p] == ts[p]);
    if ts[p].ty != TokenType::RParen && ts[p].ty != TokenType::Eof {
        lemma_consume(ts, p, TokenType::Identifier);
        if let Ok(p1) = consume(ts, p, TokenType::Identifier) {
            lemma_consume(ts, p1, TokenType::Colon);
            if let Ok(p2) = consume(ts, p1, TokenType::Colon) {
                lemma_type(ts, p2);
                if let Ok((ty, p3)) = parse_type(ts, p2) {
                    if moved(ts, p, p3) {
                        let acc2 = acc.push(SpecParam { name: ts[p].value, ty });
                        if ts[p3].ty != TokenType::RParen {
                            lemma_consume(ts, p3, TokenType::Comma);
                            if let Ok(p4) = consume(ts, p3, TokenType::Comma) {
                                lemma_fn_params(ts, p4, acc2);
                            }
                        } else {
                            lemma_fn_params(ts, p3, acc2);
                        }
                    }
                }
            }
        }
    } else {
        lemma_consume(ts, p, TokenType::RParen);
    }
}

proof fn lemma_fn_decl(ts: Seq<SpecToken>, p: int, is_gen: bool)
    requires
        in_range(ts, p),
    ensures
        sound(ts, parse_fn_decl(ts, p, is_gen)),
{
    lemma_consume(ts, p, TokenType::Fn);
    if let Ok(p1) = consume(ts, p, TokenType::Fn) {
        lemma_consume(ts, p1, TokenType::Identifier);
        if let Ok(p2) = consume(ts, p1, TokenType::Identifier) {
            lemma_consume(ts, p2, TokenType::LParen);
            if let Ok(p3) = consume(ts, p2, TokenType::LParen) {
                lemma_fn_params(ts, p3, Seq::empty());
                if let Ok((_, p4)) = fn_params(ts, p3, Seq::empty()) {
                    if ts[p4].ty == TokenType::Arrow {
                        lemma_type(ts, adv(ts, p4));
                    }
                    let ret: Result<(SpecType, int), SpecParseError> = if ts[p4].ty
                        == TokenType::Arrow {
                        parse_type(ts, adv(ts, p4))
                    } else {
                        Ok((SpecType::Void, p4))
                    };
                    if let Ok((_, p5)) = ret {
                        lemma_block(ts, p5);
                    }
                }
            }
        }
    }
}

proof fn lemma_struct_decl_fields(ts: Seq<SpecToken>, p: int, acc: Seq<(Seq<char>, SpecType)>)
    requires
        in_range(ts, p),
    ensures
        sound(ts, struct_decl_fields(ts, p, acc)),
    decreases ts.len() - p,
{
    assert(ts[p] == ts[p]);
    if ts[p].ty != TokenType::RBrace && ts[p].ty != TokenType::Eof {
        lemma_consume(ts, p, TokenType::Identifier);
        if let Ok(p1) = consume(ts, p, TokenType::Identifier) {
            lemma_consume(ts, p1, TokenType::Colon);
            if let Ok(p2) = consume(ts, p1, TokenType::Colon) {
                lemma_type(ts, p2);
                if let Ok((ty, p3)) = parse_type(ts, p2) {
                    if moved(ts, p, p3) {
                        let acc2 = acc.push((ts[p].value, ty));
                        if ts[p3].ty != TokenType::RBrace {
                            lemma_consume(ts, p3, TokenType::Comma);
                            if let Ok(p4) = consume(ts, p3, TokenType::Comma) {
                                lemma_struct_decl_fields(ts, p4, acc2);
                            }
                        } else {
                            lemma_struct_decl_fields(ts, p3, acc2);
                        }
                    }
                }
            }
        }
    } else {
        lemma_consume(ts, p, TokenType::RBrace);
    }
}

proof fn lemma_struct_decl(ts: Seq<SpecToken>, p: int)
    requires
        in_range(ts, p),
    ensures
        sound(ts, parse_struct_decl(ts, p)),
{
    lemma_consume(ts, p, TokenType::Struct);
    if let Ok(p1) = consume(ts, p, TokenType::Struct) {
        lemma_consume(ts, p1, TokenType::Identifier);
        if let Ok(p2) = consume(ts, p1, TokenType::Identifier) {
            lemma_consume(ts, p2, TokenType::LBrace);
            if let Ok(p3) = consume(ts, p2, TokenType::LBrace) {
                lemma_struct_decl_fields(ts, p3, Seq::empty());
            }
        }
    }
}

proof fn lemma_decl(ts: Seq<SpecToken>, p: int)
    requires
        in_range(ts, p),
    ensures
        sound(ts, parse_decl(ts, p)),
{
    let is_gen = ts[p].ty == TokenType::Gen;
    let q = if is_gen {
        adv(ts, p)
    } else {
        p
    };
    assert(ts[q] == ts[q]);
    if ts[q].ty == TokenType::Fn {
        lemma_fn_decl(ts, q, is_gen);
    } else if ts[q].ty == TokenType::Struct && !is_gen {
        lemma_struct_decl(ts, q);
    }
}

proof fn lemma_decls(ts: Seq<SpecToken>, p: int, acc: Seq<SpecDecl>)
    requires
        in_range(ts, p),
    ensures
        parse_decls(ts, p, acc) matches Err(e) ==> error_at_token(ts, e),
    decreases ts.len() - p,
{
    assert(ts[p] == ts[p]);
    if ts[p].ty != TokenType::Eof {
        lemma_decl(ts, p);
        if let Ok((d, p2)) = parse_decl(ts, p) {
            if moved(ts, p, p2) {
                lemma_decls(ts, p2, acc.push(d));
            }
        }
    }
}

/// A syntax error stands at the line and column of one of the tokens read: the parser never
/// reports a place that is not a token's.
pub proof fn lemma_parse_error_at_token(ts: Seq<SpecToken>)
    requires
        crate::parser::tokens_ok(ts),
    ensures
        parse_program(ts, 0) matches Err(e) ==> error_at_token(ts, e),
{
    lemma_decls(ts, 0, Seq::empty());
}

// ─── A type's printed form reads back ────────────────────────────────────────

/// The tokens, as kinds and texts, of the printed form of type `t`.
pub open spec fn type_words(t: SpecType) -> Seq<(TokenType, Seq<char>)>
    decreases t,
{
    match t {
        SpecType::I32 => seq![(TokenType::TyI32, "i32"@)],
        SpecType::I64 => seq![(TokenType::TyI64, "i64"@)],
        SpecType::F32 => seq![(TokenType::TyF32, "f32"@)],
        SpecType::F64 => seq![(TokenType::TyF64, "f64"@)],
        SpecType::Str => seq![(TokenType::TyStr, "str"@)],
        SpecType::Bool => seq![(TokenType::TyBool, "bool"@)],
        SpecType::Void => seq![(TokenType::TyVoid, "void"@)],
        SpecType::U32 => seq![(TokenType::TyU32, "u32"@)],
        SpecType::Array(e) => seq![(TokenType::LBracket, "["@)] + type_words(*e) + seq![
            (TokenType::RBracket, "]"@),
        ],
        SpecType::Custom(n) => seq![(TokenType::Identifier, n)],
    }
}

/// The texts of `ws`, one after another.
pub open spec fn join_words(ws: Seq<(TokenType, Seq<char>)>) -> Seq<char>
    decreases ws.len(),
{
    if ws.len() == 0 {
        Seq::empty()
    } else {
        join_words(ws.drop_last()) + ws.last().1
    }
}

proof fn lemma_join_append(a: Seq<(TokenType, Seq<char>)>, b: Seq<(TokenType, Seq<char>)>)
    ensures
        join_words(a + b) == join_words(a) + join_words(b),
    decreases b.len(),
{
    if b.len() == 0 {
        assert(a + b =~= a);
        assert(join_words(a) + join_words(b) =~= join_words(a));
    } else {
        lemma_join_append(a, b.drop_last());
        assert((a + b).drop_last() =~= a + b.drop_last());
        assert((a + b).last() == b.last());
        assert(join_words(a) + join_words(b) =~= join_words(a) + join_words(b.drop_last()) + b.last().1);
    }
}

/// `ts` holds the words `ws` from index `p` on.
pub open spec fn holds_words(ts: Seq<SpecToken>, p: int, ws: Seq<(TokenType, Seq<char>)>) -> bool {
    forall|k: int| 0 <= k < ws.len() ==> ts[p + k].ty == (#[trigger] ws[k]).0 && ts[p + k].value == ws[k].1
}

/// A type's printed form (`Type::to_text`) is the texts of its tokens one after another,
/// and where a token sequence holds those tokens, the type parser reads them back to the
/// same type and stops right after them.
pub proof fn lemma_type_round_trip(t: SpecType, ts: Seq<SpecToken>, p: int)
    requires
        in_range(ts, p),
        p + type_words(t).len() < ts.len(),
        holds_words(ts, p, type_words(t)),
    ensures
        join_words(type_words(t)) == crate::ast::type_text(t),
        parse_type(ts, p) == Ok::<(SpecType, int), SpecParseError>((t, p + type_words(t).len())),
    decreases t,
{
    let ws = type_words(t);
    assert(ws[0] == ws[0]);
    match t {
        SpecType::Array(e) => {
            let we = type_words(*e);
            let open = seq![(TokenType::LBracket, "["@)];
            let close = seq![(TokenType::RBracket, "]"@)];
            assert(ws == open + we + close);
            assert(crate::ast::type_text(t) == "["@ + crate::ast::type_text(*e) + "]"@);
            assert(holds_words(ts, p + 1, we)) by {
                assert forall|k: int| 0 <= k < we.len() implies ts[p + 1 + k].ty == (
                #[trigger] we[k]).0 && ts[p + 1 + k].value == we[k].1 by {
                    assert(ws[1 + k] == we[k]);
                }
            }
            assert(ws[1 + we.len() as int] == (TokenType::RBracket, "]"@));
            lemma_type_round_trip(*e, ts, p + 1);
            lemma_join_append(open, we);
            lemma_join_append(open + we, close);
            assert(open.drop_last() =~= Seq::<(TokenType, Seq<char>)>::empty());
            assert(join_words(open.drop_last()) == Seq::<char>::empty());
            assert(join_words(open) == join_words(open.drop_last()) + open.last().1);
            assert(join_words(open) =~= "["@);
            assert(close.drop_last() =~= Seq::<(TokenType, Seq<char>)>::empty());
            assert(join_words(close.drop_last()) == Seq::<char>::empty());
            assert(join_words(close) == join_words(close.drop_last()) + close.last().1);
            assert(join_words(close) =~= "]"@);
            assert(join_words(open + we) == join_words(open) + join_words(we));
            assert(join_words(ws) == join_words(open + we) + join_words(close));
            assert(join_words(ws) =~= "["@ + crate::ast::type_text(*e) + "]"@);
        },
        _ => {
            assert(ws.drop_last() =~= Seq::<(TokenType, Seq<char>)>::empty());
            assert(join_words(ws.drop_last()) == Seq::<char>::empty());
            assert(join_words(ws) == join_words(ws.drop_last()) + ws.last().1);
            assert(join_words(ws) =~= ws.last().1);
        },
    }
}

} // verus!
