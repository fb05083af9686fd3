//! What the code for an expression or a statement leaves unchanged in the state of code
//! generation.

use vstd::prelude::*;

use crate::ast::{SpecExpr, SpecForIter, SpecStmt, SpecType, SpecVarDecl};
use crate::emit::{
    SpecDecls, SpecGen, add_inst, array_loop_head, array_loop_tail, bind, call, call_rt, close_brace,
    close_loop, coerce_f64, coerce_val, default_value, emit_value, enter, first_dot, flush_text,
    fn_signature_of, gen_array_elems, gen_assign, gen_binary, gen_call, gen_expr, gen_for_array,
    gen_for_each, gen_for_generator, gen_fstr, gen_hole, gen_print_args, gen_stmt, gen_stmts,
    gen_struct_fields, gen_user_args, gen_var_decl, iconst, is_gen_name, jump_unless, load_field,
    loop_blocks, new_block, new_slot, new_var, pop_loop, print_val, push_args, push_loop, resolve,
    struct_fields, gen_typed_args,
};
use crate::builtins::{all_f64, any_float, lib_arity, lib_call, pick_rt, raw_vals, simple_rt};
use crate::ir::{
    BinInst, Callee, ClType, Inst, IntCond, Runtime, align_shift_of, field_index, field_start,
    max_field_size, print_fn, struct_size_of, to_string_fn,
};
use crate::lsp::trim;
use crate::text::parse_i64_text;

verus! {

/// `a` is the start of `b`.
pub open spec fn starts<T>(a: Seq<T>, b: Seq<T>) -> bool {
    a.len() <= b.len() && forall|i: int| 0 <= i < a.len() ==> a[i] == b[i]
}

/// `g2` continues `g1` as an expression does: it only appends instructions, texts and float
/// literals (and may open stack slots), and leaves the locals, the loops, the blocks and the
/// variables alone.
pub open spec fn expr_frame(g1: SpecGen, g2: SpecGen) -> bool {
    &&& starts(g1.insts, g2.insts)
    &&& starts(g1.strings, g2.strings)
    &&& starts(g1.floats, g2.floats)
    &&& g2.vars == g1.vars
    &&& g2.breaks == g1.breaks
    &&& g2.conts == g1.conts
    &&& g2.blocks == g1.blocks
    &&& g2.var_counter == g1.var_counter
    &&& g2.ctx_var == g1.ctx_var
    &&& g2.ret_ty == g1.ret_ty
    &&& g2.is_main == g1.is_main
}

proof fn lemma_push_args_frame(g: SpecGen, args: Seq<usize>, n: int)
    ensures
        expr_frame(g, push_args(g, args, n)),
    decreases n,
{
    if !(n <= 0 || n > args.len()) {
        lemma_push_args_frame(g, args, n - 1);
    }
}

proof fn lemma_call_frame(g: SpecGen, f: Callee, args: Seq<usize>)
    ensures
        expr_frame(g, call(g, f, args).0),
{
    lemma_push_args_frame(g, args, args.len() as int);
}

proof fn lemma_load_field_frame(ds: SpecDecls, g: SpecGen, var: usize, sname: Seq<char>, field: Seq<char>)
    ensures
        load_field(ds, g, var, sname, field) matches Ok((g2, _, _)) ==> expr_frame(g, g2),
{
}

proof fn lemma_hole_frame(ds: SpecDecls, g: SpecGen, name: Seq<char>)
    ensures
        gen_hole(ds, g, name) matches Ok(g2) ==> expr_frame(g, g2),
{
    if g.vars.contains_key(name) {
        let (g1, v) = emit_value(g, Inst::UseVar(g.vars[name].var));
        lemma_call_frame(g1, Callee::Runtime(print_fn(g.vars[name].ty, false)), seq![v]);
    } else {
        match first_dot(name, 0) {
            Some(d) => {
                let obj = name.subrange(0, d);
                let field = name.subrange(d + 1, name.len() as int);
                if g.vars.contains_key(obj) {
                    match g.vars[obj].ty {
                        SpecType::Custom(sname) => {
                            if let Ok((g1, v, t)) = load_field(ds, g, g.vars[obj].var, sname, field) {
                                lemma_load_field_frame(ds, g, g.vars[obj].var, sname, field);
                                lemma_call_frame(g1, Callee::Runtime(print_fn(t, false)), seq![v]);
                            }
                        },
                        _ => {},
                    }
                }
            },
            None => {
                if let Some(n) = parse_i64_text(name) {
                    let (g1, v) = iconst(g, ClType::I32, n);
                    lemma_call_frame(g1, Callee::Runtime(print_fn(SpecType::I32, false)), seq![v]);
                }
            },
        }
    }
}

proof fn lemma_flush_frame(g: SpecGen, text: Seq<char>)
    ensures
        expr_frame(g, flush_text(g, text)),
{
    if text.len() > 0 {
        let g1 = SpecGen { strings: g.strings.push(text), ..g };
        let (g2, v) = emit_value(g1, Inst::StrConst(g.strings.len() as usize));
        lemma_call_frame(g2, Callee::Runtime(print_fn(SpecType::Str, false)), seq![v]);
    }
}

proof fn lemma_fstr_frame(ds: SpecDecls, g: SpecGen, cs: Seq<char>, i: int, text: Seq<char>)
    ensures
        gen_fstr(ds, g, cs, i, text) matches Ok(g2) ==> expr_frame(g, g2),
    decreases cs.len() - i,
{
    if i < 0 || i >= cs.len() {
        lemma_flush_frame(g, text);
    } else if cs[i] == '{' {
        let g1 = flush_text(g, text);
        lemma_flush_frame(g, text);
        let j = close_brace(cs, i + 1);
        lemma_hole_frame(ds, g1, trim(cs.subrange(i + 1, j)));
        if let Ok(g2) = gen_hole(ds, g1, trim(cs.subrange(i + 1, j))) {
            if i < j + 1 <= cs.len() {
                lemma_fstr_frame(ds, g2, cs, j + 1, Seq::empty());
            }
        }
    } else {
        lemma_fstr_frame(ds, g, cs, i + 1, text.push(cs[i]));
    }
}

/// Code for an expression only appends instructions, texts and float literals (and may open
/// stack slots): the locals, the loops, the blocks and the variables stay as they were.
pub proof fn lemma_expr_frame(ds: SpecDecls, g: SpecGen, e: SpecExpr)
    ensures
        gen_expr(ds, g, e) matches Ok((g2, _, _)) ==> expr_frame(g, g2),
    decreases e, 2int, 0int,
{
    match e {
        SpecExpr::FStr(_) => lemma_fstr_expr_frame(ds, g, e),
        SpecExpr::Binary { .. } => lemma_binary_frame(ds, g, e),
        SpecExpr::Unary { .. } => lemma_unary_frame(ds, g, e),
        SpecExpr::Call { .. } => lemma_call_expr_frame(ds, g, e),
        SpecExpr::Field { .. } => lemma_field_frame(ds, g, e),
        SpecExpr::Index { .. } => lemma_index_frame(ds, g, e),
        SpecExpr::StructLit { .. } => lemma_struct_lit_frame(ds, g, e),
        _ => lemma_atom_frame(ds, g, e),
    }
}

proof fn lemma_atom_frame(ds: SpecDecls, g: SpecGen, e: SpecExpr)
    requires
        e is Int || e is Float || e is Bool || e is Str || e is Ident || e is Array,
    ensures
        gen_expr(ds, g, e) matches Ok((g2, _, _)) ==> expr_frame(g, g2),
{
}

proof fn lemma_fstr_expr_frame(ds: SpecDecls, g: SpecGen, e: SpecExpr)
    requires
        e is FStr,
    ensures
        gen_expr(ds, g, e) matches Ok((g2, _, _)) ==> expr_frame(g, g2),
{
    if let SpecExpr::FStr(content) = e {
        lemma_fstr_frame(ds, g, content, 0, Seq::empty());
    }
}

proof fn lemma_unary_frame(ds: SpecDecls, g: SpecGen, e: SpecExpr)
    requires
        e is Unary,
    ensures
        gen_expr(ds, g, e) matches Ok((g2, _, _)) ==> expr_frame(g, g2),
    decreases e, 1int, 0int,
{
    if let SpecExpr::Unary { op, expr } = e {
        lemma_expr_frame(ds, g, *expr);
    }
}

proof fn lemma_field_frame(ds: SpecDecls, g: SpecGen, e: SpecExpr)
    requires
        e is Field,
    ensures
        gen_expr(ds, g, e) matches Ok((g2, _, _)) ==> expr_frame(g, g2),
{
    if let SpecExpr::Field { object, field } = e {
        if let SpecExpr::Ident(obj) = *object {
            if g.vars.contains_key(obj) {
                if let SpecType::Custom(sname) = g.vars[obj].ty {
                    lemma_load_field_frame(ds, g, g.vars[obj].var, sname, field);
                }
            }
        }
    }
}

proof fn lemma_index_frame(ds: SpecDecls, g: SpecGen, e: SpecExpr)
    requires
        e is Index,
    ensures
        gen_expr(ds, g, e) matches Ok((g2, _, _)) ==> expr_frame(g, g2),
    decreases e, 1int, 0int,
{
    if let SpecExpr::Index { array, index } = e {
        lemma_expr_frame(ds, g, *index);
    }
}

proof fn lemma_struct_lit_frame(ds: SpecDecls, g: SpecGen, e: SpecExpr)
    requires
        e is StructLit,
    ensures
        gen_expr(ds, g, e) matches Ok((g2, _, _)) ==> expr_frame(g, g2),
    decreases e, 1int, 0int,
{
    if let SpecExpr::StructLit { name, fields } = e {
        let meta = struct_fields(ds, name);
        let shift = align_shift_of(max_field_size(meta, meta.len() as int));
        let (g1, slot) = new_slot(g, struct_size_of(meta) as u32, shift as u8);
        lemma_struct_fields_frame(ds, g1, e, meta, slot, 0);
    }
}

proof fn lemma_binary_frame(ds: SpecDecls, g: SpecGen, e: SpecExpr)
    ensures
        gen_binary(ds, g, e) matches Ok((g2, _, _)) ==> expr_frame(g, g2),
    decreases e, 1int, 0int,
{
    if let SpecExpr::Binary { left, op, right } = e {
        lemma_expr_frame(ds, g, *left);
        if let Ok((g1, lv, lt)) = gen_expr(ds, g, *left) {
            lemma_expr_frame(ds, g1, *right);
            if let Ok((g2, rv, _)) = gen_expr(ds, g1, *right) {
                lemma_call_frame(g2, Callee::Runtime(Runtime::FmodF64), seq![lv, rv]);
            }
        }
    }
}

proof fn lemma_print_args_frame(ds: SpecDecls, g: SpecGen, e: SpecExpr, i: int, newline_last: bool)
    ensures
        gen_print_args(ds, g, e, i, newline_last) matches Ok(g2) ==> expr_frame(g, g2),
    decreases e, 0int, (match e {
        SpecExpr::Call { args, .. } => args.len() - i,
        _ => 0,
    }),
{
    if let SpecExpr::Call { name, args } = e {
        if 0 <= i < args.len() {
            lemma_expr_frame(ds, g, args[i]);
            if let Ok((g1, v, t)) = gen_expr(ds, g, args[i]) {
                let nl = newline_last && i == args.len() - 1;
                lemma_call_frame(g1, Callee::Runtime(print_fn(t, nl)), seq![v]);
                lemma_print_args_frame(ds, print_val(g1, v, t, nl), e, i + 1, newline_last);
            }
        }
    }
}

proof fn lemma_user_args_frame(ds: SpecDecls, g: SpecGen, e: SpecExpr, params: Seq<SpecType>, i: int, vals: Seq<usize>)
    ensures
        gen_user_args(ds, g, e, params, i, vals) matches Ok((g2, _)) ==> expr_frame(g, g2),
    decreases e, 0int, (match e {
        SpecExpr::Call { args, .. } => args.len() - i,
        _ => 0,
    }),
{
    if let SpecExpr::Call { name, args } = e {
        if 0 <= i < args.len() {
            lemma_expr_frame(ds, g, args[i]);
            if let Ok((g1, v, t)) = gen_expr(ds, g, args[i]) {
                let (g2, v2) = if i < params.len() {
                    coerce_val(g1, v, t, params[i])
                } else {
                    (g1, v)
                };
                lemma_user_args_frame(ds, g2, e, params, i + 1, vals.push(v2));
            }
        }
    }
}

proof fn lemma_call_expr_frame(ds: SpecDecls, g: SpecGen, e: SpecExpr)
    ensures
        gen_call(ds, g, e) matches Ok((g2, _, _)) ==> expr_frame(g, g2),
    decreases e, 1int, 0int,
{
    if let SpecExpr::Call { name, args } = e {
        if name == "println"@ {
            if args.len() == 0 {
                lemma_call_frame(g, Callee::Runtime(Runtime::PrintlnNewline), Seq::empty());
            } else {
                lemma_print_args_frame(ds, g, e, 0, true);
            }
        } else if name == "print"@ {
            lemma_print_args_frame(ds, g, e, 0, false);
        } else if name == "len"@ && args.len() == 1 {
        } else if (name == "abs"@ || name == "sqrt"@ || name == "to_string"@) && args.len() == 1 {
            lemma_expr_frame(ds, g, args[0]);
            if let Ok((g1, v, t)) = gen_expr(ds, g, args[0]) {
                let (g2, dv) = coerce_f64(g1, v, t);
                lemma_call_frame(g2, Callee::Runtime(Runtime::AbsF64), seq![dv]);
                lemma_call_frame(g2, Callee::Runtime(Runtime::SqrtF64), seq![dv]);
                lemma_call_frame(g1, Callee::Runtime(Runtime::AbsI32), seq![v]);
                lemma_call_frame(g1, Callee::Runtime(to_string_fn(t)), seq![v]);
                lemma_call_frame(g2, Callee::Runtime(to_string_fn(t)), seq![dv]);
            }
        } else if name == "pow"@ && args.len() == 2 {
            lemma_expr_frame(ds, g, args[0]);
            if let Ok((g1, v0, t0)) = gen_expr(ds, g, args[0]) {
                lemma_expr_frame(ds, g1, args[1]);
                if let Ok((g2, v1, t1)) = gen_expr(ds, g1, args[1]) {
                    let (g3, d0) = coerce_f64(g2, v0, t0);
                    let (g4, d1) = coerce_f64(g3, v1, t1);
                    lemma_call_frame(g4, Callee::Runtime(Runtime::PowF64), seq![d0, d1]);
                }
            }
        } else if lib_arity(name) == Some(args.len()) {
            lemma_typed_args_frame(ds, g, e, 0, Seq::empty());
            if let Ok((g1, a)) = gen_typed_args(ds, g, e, 0, Seq::empty()) {
                lemma_lib_call_frame(g1, name, a);
                if let Ok((g2, _, _)) = lib_call(g1, name, a) {
                    lemma_expr_frame_trans(g, g1, g2);
                }
            }
        } else {
            let (params, ret) = fn_signature_of(ds, name);
            lemma_user_args_frame(ds, g, e, params, 0, Seq::empty());
            if let Ok((g1, vals)) = gen_user_args(ds, g, e, params, 0, Seq::empty()) {
                if let Some(f) = resolve(ds, name) {
                    lemma_call_frame(g1, f, vals);
                }
            }
        }
    }
}

proof fn lemma_expr_frame_trans(a: SpecGen, b: SpecGen, c: SpecGen)
    requires
        expr_frame(a, b),
        expr_frame(b, c),
    ensures
        expr_frame(a, c),
{
}

proof fn lemma_typed_args_frame(ds: SpecDecls, g: SpecGen, e: SpecExpr, i: int, acc: Seq<(usize, SpecType)>)
    ensures
        gen_typed_args(ds, g, e, i, acc) matches Ok((g2, _)) ==> expr_frame(g, g2),
    decreases e, 0int, (match e {
        SpecExpr::Call { args, .. } => args.len() - i,
        _ => 0,
    }),
{
    if let SpecExpr::Call { name, args } = e {
        if 0 <= i < args.len() {
            lemma_expr_frame(ds, g, args[i]);
            if let Ok((g1, v, t)) = gen_expr(ds, g, args[i]) {
                lemma_typed_args_frame(ds, g1, e, i + 1, acc.push((v, t)));
                if let Ok((g2, _)) = gen_typed_args(ds, g1, e, i + 1, acc.push((v, t))) {
                    lemma_expr_frame_trans(g, g1, g2);
                }
            }
        }
    }
}

proof fn lemma_all_f64_frame(g: SpecGen, a: Seq<(usize, SpecType)>, n: int)
    ensures
        expr_frame(g, all_f64(g, a, n).0),
    decreases n,
{
    if !(n <= 0 || n > a.len()) {
        lemma_all_f64_frame(g, a, n - 1);
        let (g1, ds) = all_f64(g, a, n - 1);
        let (g2, d) = coerce_f64(g1, a[n - 1].0, a[n - 1].1);
        lemma_expr_frame_trans(g, g1, g2);
    }
}

proof fn lemma_lib_call_frame(g: SpecGen, name: Seq<char>, a: Seq<(usize, SpecType)>)
    ensures
        lib_call(g, name, a) matches Ok((g2, _, _)) ==> expr_frame(g, g2),
{
    reveal(lib_call);
    if name == "min"@ || name == "max"@ || name == "clamp"@ {
        if any_float(a) {
            lemma_all_f64_frame(g, a, a.len() as int);
            let (g1, ds) = all_f64(g, a, a.len() as int);
            lemma_call_frame(g1, Callee::Runtime(pick_rt(name, true)), ds);
            lemma_expr_frame_trans(g, g1, call_rt(g1, pick_rt(name, true), ds).0);
        } else {
            lemma_call_frame(g, Callee::Runtime(pick_rt(name, false)), raw_vals(a));
        }
    } else if name == "floor"@ || name == "ceil"@ || name == "round"@ {
        let (g1, d) = coerce_f64(g, a[0].0, a[0].1);
        lemma_call_frame(g1, Callee::Runtime(simple_rt(name)), seq![d]);
        lemma_expr_frame_trans(g, g1, call_rt(g1, simple_rt(name), seq![d]).0);
    } else if name == "int"@ || name == "float"@ || name == "to_i64"@ {
    } else {
        lemma_call_frame(g, Callee::Runtime(simple_rt(name)), raw_vals(a));
    }
}

proof fn lemma_struct_fields_frame(ds: SpecDecls, g: SpecGen, e: SpecExpr, meta: Seq<(Seq<char>, SpecType)>, slot: usize, i: int)
    ensures
        gen_struct_fields(ds, g, e, meta, slot, i) matches Ok(g2) ==> expr_frame(g, g2),
    decreases e, 0int, (match e {
        SpecExpr::StructLit { fields, .. } => fields.len() - i,
        _ => 0,
    }),
{
    if let SpecExpr::StructLit { name, fields } = e {
        if 0 <= i < fields.len() {
            lemma_expr_frame(ds, g, fields[i].1);
            if let Ok((g1, v, vt)) = gen_expr(ds, g, fields[i].1) {
                if let Some(k) = field_index(meta, fields[i].0, 0) {
                    let (g2, cv) = coerce_val(g1, v, vt, meta[k].1);
                    let g3 = add_inst(g2, Inst::StackStore(cv, slot, field_start(meta, k) as i32));
                    lemma_struct_fields_frame(ds, g3, e, meta, slot, i + 1);
                }
            }
        }
    }
}

// ─── What statements leave unchanged ─────────────────────────────────────────

/// `g2` continues `g1` as a statement does: it only appends instructions, and the loops that
/// `break` and `continue` reach, the generator context, the return type and whether the
/// function is `main` stay as they were.
pub open spec fn stmt_frame(g1: SpecGen, g2: SpecGen) -> bool {
    &&& starts(g1.insts, g2.insts)
    &&& g2.breaks == g1.breaks
    &&& g2.conts == g1.conts
    &&& g2.ctx_var == g1.ctx_var
    &&& g2.ret_ty == g1.ret_ty
    &&& g2.is_main == g1.is_main
}

proof fn lemma_stmt_frame_trans(a: SpecGen, b: SpecGen, c: SpecGen)
    requires
        stmt_frame(a, b),
        stmt_frame(b, c),
    ensures
        stmt_frame(a, c),
{
}

proof fn lemma_expr_stmt_frame(a: SpecGen, b: SpecGen)
    requires
        expr_frame(a, b),
    ensures
        stmt_frame(a, b),
{
}

proof fn lemma_add_inst_frame(g: SpecGen, i: Inst)
    ensures
        stmt_frame(g, add_inst(g, i)),
{
}

proof fn lemma_enter_frame(g: SpecGen, b: usize)
    ensures
        stmt_frame(g, enter(g, b)),
{
    lemma_add_inst_frame(g, Inst::SwitchToBlock(b));
    lemma_add_inst_frame(add_inst(g, Inst::SwitchToBlock(b)), Inst::SealBlock(b));
    lemma_stmt_frame_trans(g, add_inst(g, Inst::SwitchToBlock(b)), enter(g, b));
}

proof fn lemma_loop_blocks_frame(g: SpecGen)
    ensures
        stmt_frame(g, loop_blocks(g).0),
{
    let (g1, h) = new_block(g);
    let (g2, b) = new_block(g1);
    let (g3, k) = new_block(g2);
    let (g4, x) = new_block(g3);
    lemma_stmt_frame_trans(g, g1, g2);
    lemma_stmt_frame_trans(g, g2, g3);
    lemma_stmt_frame_trans(g, g3, g4);
}

/// The loop head: the jump to the header, entering it, and the loop's targets pushed.
proof fn lemma_open_loop_frame(g: SpecGen, h: usize)
    ensures
        stmt_frame(g, add_inst(add_inst(g, Inst::Jump(h)), Inst::SwitchToBlock(h))),
{
    lemma_add_inst_frame(g, Inst::Jump(h));
    lemma_add_inst_frame(add_inst(g, Inst::Jump(h)), Inst::SwitchToBlock(h));
    lemma_stmt_frame_trans(
        g,
        add_inst(g, Inst::Jump(h)),
        add_inst(add_inst(g, Inst::Jump(h)), Inst::SwitchToBlock(h)),
    );
}

/// What a loop body leaves as it found it, the pop of the loop's targets restores.
proof fn lemma_pop_frame(g0: SpecGen, label: Option<Seq<char>>, xb: usize, kb: usize, g1: SpecGen)
    requires
        stmt_frame(push_loop(g0, label, xb, kb), g1),
    ensures
        stmt_frame(g0, pop_loop(g1)),
{
    assert(g0.breaks.push((label, xb)).drop_last() =~= g0.breaks);
    assert(g0.conts.push((label, kb)).drop_last() =~= g0.conts);
}

proof fn lemma_close_frame(g0: SpecGen, label: Option<Seq<char>>, xb: usize, kb: usize, g1: SpecGen, h: usize, x: usize)
    requires
        stmt_frame(push_loop(g0, label, xb, kb), g1),
    ensures
        stmt_frame(g0, close_loop(g1, h, x)),
{
    let g2 = add_inst(add_inst(g1, Inst::Jump(h)), Inst::SealBlock(h));
    lemma_add_inst_frame(g1, Inst::Jump(h));
    lemma_add_inst_frame(add_inst(g1, Inst::Jump(h)), Inst::SealBlock(h));
    lemma_stmt_frame_trans(push_loop(g0, label, xb, kb), g1, add_inst(g1, Inst::Jump(h)));
    lemma_stmt_frame_trans(push_loop(g0, label, xb, kb), add_inst(g1, Inst::Jump(h)), g2);
    lemma_enter_frame(g2, x);
    lemma_stmt_frame_trans(push_loop(g0, label, xb, kb), g2, enter(g2, x));
    lemma_pop_frame(g0, label, xb, kb, enter(g2, x));
}

proof fn lemma_call_stmt_frame(g: SpecGen, r: Runtime, args: Seq<usize>)
    ensures
        stmt_frame(g, call_rt(g, r, args).0),
{
    lemma_call_frame(g, Callee::Runtime(r), args);
}

proof fn lemma_expr_ok_frame(ds: SpecDecls, g: SpecGen, e: SpecExpr)
    ensures
        gen_expr(ds, g, e) matches Ok((g2, _, _)) ==> stmt_frame(g, g2),
{
    lemma_expr_frame(ds, g, e);
    if let Ok((g2, _, _)) = gen_expr(ds, g, e) {
        lemma_expr_stmt_frame(g, g2);
    }
}

proof fn lemma_array_elems_frame(ds: SpecDecls, g: SpecGen, elems: Seq<SpecExpr>, slot: usize, size: int, i: int)
    ensures
        gen_array_elems(ds, g, elems, slot, size, i) matches Ok(g2) ==> stmt_frame(g, g2),
    decreases elems.len() - i,
{
    if 0 <= i < elems.len() {
        lemma_expr_ok_frame(ds, g, elems[i]);
        if let Ok((g1, v, _)) = gen_expr(ds, g, elems[i]) {
            let g2 = add_inst(g1, Inst::StackStore(v, slot, (i * size) as i32));
            lemma_add_inst_frame(g1, Inst::StackStore(v, slot, (i * size) as i32));
            lemma_stmt_frame_trans(g, g1, g2);
            lemma_array_elems_frame(ds, g2, elems, slot, size, i + 1);
            if let Ok(g3) = gen_array_elems(ds, g2, elems, slot, size, i + 1) {
                lemma_stmt_frame_trans(g, g2, g3);
            }
        }
    }
}

proof fn lemma_var_decl_frame(ds: SpecDecls, g: SpecGen, vd: SpecVarDecl)
    ensures
        gen_var_decl(ds, g, vd) matches Ok(g2) ==> stmt_frame(g, g2),
{
    match vd.value {
        SpecExpr::Array(elems) => {
            let et = crate::emit::array_elem_type(vd.ty, elems);
            let size = crate::ir::size_of(et);
            if !(elems.len() * size > u32::MAX || elems.len() > u32::MAX) {
                let (g1, slot) = new_slot(g, (elems.len() * size) as u32, align_shift_of(size) as u8);
                lemma_array_elems_frame(ds, g1, elems, slot, size, 0);
                if let Ok(g2) = gen_array_elems(ds, g1, elems, slot, size, 0) {
                    lemma_stmt_frame_trans(g, g1, g2);
                    let (g3, addr) = emit_value(g2, Inst::StackAddr(slot));
                    let (g4, x) = new_var(g3, ClType::I64);
                    lemma_stmt_frame_trans(g, g2, g3);
                    lemma_stmt_frame_trans(g, g3, g4);
                }
            }
        },
        _ => {
            lemma_expr_ok_frame(ds, g, vd.value);
            if let Ok((g1, v, inferred)) = gen_expr(ds, g, vd.value) {
                let t = match vd.ty {
                    Some(t) => t,
                    None => inferred,
                };
                if let Some(c) = crate::ir::cl_type_of(t) {
                    let (g2, x) = new_var(g1, c);
                    lemma_stmt_frame_trans(g, g1, g2);
                    lemma_add_inst_frame(g2, Inst::DefVar(x, v));
                    lemma_stmt_frame_trans(g, g2, add_inst(g2, Inst::DefVar(x, v)));
                }
            }
        },
    }
}

proof fn lemma_assign_frame(ds: SpecDecls, g: SpecGen, target: SpecExpr, v: usize)
    ensures
        gen_assign(ds, g, target, v) matches Ok(g2) ==> stmt_frame(g, g2),
{
    if let SpecExpr::Index { array, index } = target {
        lemma_expr_ok_frame(ds, g, *index);
    }
}

/// The code for a statement only appends instructions; the loops that `break` and `continue`
/// reach, the generator context, the return type and whether the function is `main` are as
/// they were before it. A loop's own targets are gone again when its code ends.
pub proof fn lemma_stmt_frame(ds: SpecDecls, g: SpecGen, s: SpecStmt)
    ensures
        gen_stmt(ds, g, s) matches Ok((g2, _)) ==> stmt_frame(g, g2),
    decreases s, 1int,
{
    match s {
        SpecStmt::Assign { .. } => lemma_assign_stmt_frame(ds, g, s),
        SpecStmt::If { .. } => lemma_if_frame(ds, g, s),
        SpecStmt::While { .. } => lemma_while_frame(ds, g, s),
        SpecStmt::For { iter, .. } => match iter {
            SpecForIter::Range { .. } => lemma_for_range_frame(ds, g, s),
            SpecForIter::Expr(_) => lemma_for_expr_frame(ds, g, s),
        },
        SpecStmt::Yield(_) => lemma_yield_frame(ds, g, s),
        _ => lemma_simple_stmt_frame(ds, g, s),
    }
}

proof fn lemma_simple_stmt_frame(ds: SpecDecls, g: SpecGen, s: SpecStmt)
    requires
        s is VarDecl || s is Return || s is Break || s is Continue || s is Expr,
    ensures
        gen_stmt(ds, g, s) matches Ok((g2, _)) ==> stmt_frame(g, g2),
{
    match s {
        SpecStmt::VarDecl(vd) => lemma_var_decl_frame(ds, g, vd),
        SpecStmt::Return(e) => {
            if let Some(e) = e {
                lemma_expr_ok_frame(ds, g, e);
            }
        },
        SpecStmt::Expr(e) => lemma_expr_ok_frame(ds, g, e),
        _ => {},
    }
}

proof fn lemma_assign_stmt_frame(ds: SpecDecls, g: SpecGen, s: SpecStmt)
    requires
        s is Assign,
    ensures
        gen_stmt(ds, g, s) matches Ok((g2, _)) ==> stmt_frame(g, g2),
{
    if let SpecStmt::Assign { target, value } = s {
        lemma_expr_ok_frame(ds, g, value);
        if let Ok((g1, v, _)) = gen_expr(ds, g, value) {
            lemma_assign_frame(ds, g1, target, v);
            if let Ok(g2) = gen_assign(ds, g1, target, v) {
                lemma_stmt_frame_trans(g, g1, g2);
            }
        }
    }
}

proof fn lemma_yield_frame(ds: SpecDecls, g: SpecGen, s: SpecStmt)
    requires
        s is Yield,
    ensures
        gen_stmt(ds, g, s) matches Ok((g2, _)) ==> stmt_frame(g, g2),
{
    if let SpecStmt::Yield(e) = s {
        if let Some(cx) = g.ctx_var {
            lemma_expr_ok_frame(ds, g, e);
            if let Ok((g1, v, t)) = gen_expr(ds, g, e) {
                lemma_yield_value_frame(g1, v, t, cx);
                lemma_stmt_frame_trans(g, g1, yield_value(g1, v, t, cx));
            }
        }
    }
}

/// The hand-over of value `v` of type `t` to the generator context in variable `cx`.
spec fn yield_value(g1: SpecGen, v: usize, t: SpecType, cx: usize) -> SpecGen {
    let (g2, v64) = if t == SpecType::I32 {
        emit_value(g1, Inst::Convert(crate::ir::Conv::Sextend, ClType::I64, v))
    } else {
        (g1, v)
    };
    let (g3, cp) = emit_value(g2, Inst::UseVar(cx));
    call_rt(g3, Runtime::YieldI64, seq![cp, v64]).0
}

proof fn lemma_yield_value_frame(g1: SpecGen, v: usize, t: SpecType, cx: usize)
    ensures
        stmt_frame(g1, yield_value(g1, v, t, cx)),
{
    let (g2, v64) = if t == SpecType::I32 {
        emit_value(g1, Inst::Convert(crate::ir::Conv::Sextend, ClType::I64, v))
    } else {
        (g1, v)
    };
    let (g3, cp) = emit_value(g2, Inst::UseVar(cx));
    lemma_stmt_frame_trans(g1, g2, g3);
    lemma_call_stmt_frame(g3, Runtime::YieldI64, seq![cp, v64]);
    lemma_stmt_frame_trans(g1, g3, call_rt(g3, Runtime::YieldI64, seq![cp, v64]).0);
}

proof fn lemma_for_expr_frame(ds: SpecDecls, g: SpecGen, s: SpecStmt)
    requires
        s matches SpecStmt::For { iter: SpecForIter::Expr(_), .. },
    ensures
        gen_stmt(ds, g, s) matches Ok((g2, _)) ==> stmt_frame(g, g2),
    decreases s, 0int,
{
    if let SpecStmt::For { label, var, iter, body } = s {
        if let SpecForIter::Expr(it) = iter {
            lemma_for_each_frame(ds, g, label, var, it, body);
        }
    }
}

/// The code for statements, from index `i` on, leaves the loops, the generator context and
/// the return type as it found them, and only appends instructions.
pub proof fn lemma_stmts_frame(ds: SpecDecls, g: SpecGen, ss: Seq<SpecStmt>, i: int)
    ensures
        gen_stmts(ds, g, ss, i) matches Ok((g2, _)) ==> stmt_frame(g, g2),
    decreases ss, ss.len() - i,
{
    if 0 <= i < ss.len() {
        lemma_stmt_frame(ds, g, ss[i]);
        if let Ok((g1, ended)) = gen_stmt(ds, g, ss[i]) {
            if !ended {
                lemma_stmts_frame(ds, g1, ss, i + 1);
                if let Ok((g2, _)) = gen_stmts(ds, g1, ss, i + 1) {
                    lemma_stmt_frame_trans(g, g1, g2);
                }
            }
        }
    }
}

proof fn lemma_if_frame(ds: SpecDecls, g: SpecGen, s: SpecStmt)
    requires
        s is If,
    ensures
        gen_stmt(ds, g, s) matches Ok((g2, _)) ==> stmt_frame(g, g2),
    decreases s, 0int,
{
    if let SpecStmt::If { cond, then_block, else_block } = s {
        lemma_expr_ok_frame(ds, g, cond);
        if let Ok((g1, cv, _)) = gen_expr(ds, g, cond) {
            let (g2, tb) = new_block(g1);
            let (g3, eb) = new_block(g2);
            let (g4, mb) = new_block(g3);
            let g4b = add_inst(g4, Inst::Brif(cv, tb, eb));
            let g5 = enter(g4b, tb);
            lemma_stmt_frame_trans(g, g1, g2);
            lemma_stmt_frame_trans(g, g2, g3);
            lemma_stmt_frame_trans(g, g3, g4);
            lemma_stmt_frame_trans(g, g4, g4b);
            lemma_enter_frame(g4b, tb);
            lemma_stmt_frame_trans(g, g4b, g5);
            lemma_stmts_frame(ds, g5, then_block, 0);
            if let Ok((g6, t_end)) = gen_stmts(ds, g5, then_block, 0) {
                lemma_stmt_frame_trans(g, g5, g6);
                let g6b = jump_unless(g6, t_end, mb);
                let g7 = enter(g6b, eb);
                lemma_stmt_frame_trans(g, g6, g6b);
                lemma_enter_frame(g6b, eb);
                lemma_stmt_frame_trans(g, g6b, g7);
                if let Some(es) = else_block {
                    lemma_stmts_frame(ds, g7, es, 0);
                }
                let r = match else_block {
                    Some(es) => gen_stmts(ds, g7, es, 0),
                    None => Ok((g7, false)),
                };
                if let Ok((g8, e_end)) = r {
                    lemma_stmt_frame_trans(g, g7, g8);
                    let g8b = jump_unless(g8, e_end, mb);
                    lemma_stmt_frame_trans(g, g8, g8b);
                    lemma_enter_frame(g8b, mb);
                    lemma_stmt_frame_trans(g, g8b, enter(g8b, mb));
                }
            }
        }
    }
}

proof fn lemma_while_frame(ds: SpecDecls, g: SpecGen, s: SpecStmt)
    requires
        s is While,
    ensures
        gen_stmt(ds, g, s) matches Ok((g2, _)) ==> stmt_frame(g, g2),
    decreases s, 0int,
{
    if let SpecStmt::While { label, cond, body } = s {
        let (g1, h, b, k, x) = loop_blocks(g);
        let g1b = add_inst(add_inst(g1, Inst::Jump(h)), Inst::SwitchToBlock(h));
        lemma_loop_blocks_frame(g);
        lemma_open_loop_frame(g1, h);
        lemma_stmt_frame_trans(g, g1, g1b);
        let g2 = push_loop(g1b, label, x, k);
        lemma_expr_ok_frame(ds, g2, cond);
        if let Ok((g3, cv, _)) = gen_expr(ds, g2, cond) {
            let g3a = add_inst(g3, Inst::Brif(cv, b, x));
            let g3b = enter(g3a, b);
            lemma_stmt_frame_trans(g2, g3, g3a);
            lemma_enter_frame(g3a, b);
            lemma_stmt_frame_trans(g2, g3a, g3b);
            lemma_stmts_frame(ds, g3b, body, 0);
            if let Ok((g4, ended)) = gen_stmts(ds, g3b, body, 0) {
                lemma_stmt_frame_trans(g2, g3b, g4);
                let g4a = jump_unless(g4, ended, k);
                let g4b = enter(g4a, k);
                lemma_stmt_frame_trans(g2, g4, g4a);
                lemma_enter_frame(g4a, k);
                lemma_stmt_frame_trans(g2, g4a, g4b);
                lemma_close_frame(g1b, label, x, k, g4b, h, x);
                lemma_stmt_frame_trans(g, g1b, close_loop(g4b, h, x));
            }
        }
    }
}

proof fn lemma_for_range_frame(ds: SpecDecls, g: SpecGen, s: SpecStmt)
    requires
        s matches SpecStmt::For { iter: SpecForIter::Range { .. }, .. },
    ensures
        gen_stmt(ds, g, s) matches Ok((g2, _)) ==> stmt_frame(g, g2),
    decreases s, 0int,
{
    if let SpecStmt::For { label, var, iter, body } = s {
        if let SpecForIter::Range { start, end, inclusive } = iter {
            let (g1, lv) = new_var(g, ClType::I32);
            lemma_expr_ok_frame(ds, g1, start);
            if let Ok((g2, sv, _)) = gen_expr(ds, g1, start) {
                lemma_stmt_frame_trans(g, g1, g2);
                let g3 = bind(add_inst(g2, Inst::DefVar(lv, sv)), var, crate::emit::plain_entry(lv, SpecType::I32));
                lemma_stmt_frame_trans(g, g2, g3);
                let (g4, h, b, k, x) = loop_blocks(g3);
                lemma_loop_blocks_frame(g3);
                lemma_stmt_frame_trans(g, g3, g4);
                let g4b = add_inst(add_inst(g4, Inst::Jump(h)), Inst::SwitchToBlock(h));
                lemma_open_loop_frame(g4, h);
                lemma_stmt_frame_trans(g, g4, g4b);
                let g5 = push_loop(g4b, label, x, k);
                let (g6, cur) = emit_value(g5, Inst::UseVar(lv));
                lemma_expr_ok_frame(ds, g6, end);
                if let Ok((g7, ev, _)) = gen_expr(ds, g6, end) {
                    lemma_stmt_frame_trans(g5, g6, g7);
                    let (g8, c) = emit_value(
                        g7,
                        Inst::IntCompare(
                            if inclusive {
                                IntCond::SignedLessThanOrEqual
                            } else {
                                IntCond::SignedLessThan
                            },
                            cur,
                            ev,
                        ),
                    );
                    lemma_stmt_frame_trans(g5, g7, g8);
                    let g8a = add_inst(g8, Inst::Brif(c, b, x));
                    let g8b = enter(g8a, b);
                    lemma_stmt_frame_trans(g5, g8, g8a);
                    lemma_enter_frame(g8a, b);
                    lemma_stmt_frame_trans(g5, g8a, g8b);
                    lemma_stmts_frame(ds, g8b, body, 0);
                    if let Ok((g9, ended)) = gen_stmts(ds, g8b, body, 0) {
                        lemma_stmt_frame_trans(g5, g8b, g9);
                        let g9a = jump_unless(g9, ended, k);
                        let g10 = enter(g9a, k);
                        lemma_stmt_frame_trans(g5, g9, g9a);
                        lemma_enter_frame(g9a, k);
                        lemma_stmt_frame_trans(g5, g9a, g10);
                        let (g11, cur2) = emit_value(g10, Inst::UseVar(lv));
                        let (g12, one) = iconst(g11, ClType::I32, 1);
                        let (g13, next) = emit_value(g12, Inst::Binary(BinInst::Iadd, cur2, one));
                        let g14 = add_inst(g13, Inst::DefVar(lv, next));
                        lemma_stmt_frame_trans(g5, g10, g11);
                        lemma_stmt_frame_trans(g5, g11, g12);
                        lemma_stmt_frame_trans(g5, g12, g13);
                        lemma_stmt_frame_trans(g5, g13, g14);
                        lemma_close_frame(g4b, label, x, k, g14, h, x);
                        lemma_stmt_frame_trans(g, g4b, close_loop(g14, h, x));
                    }
                }
            }
        }
    }
}

proof fn lemma_for_each_frame(
    ds: SpecDecls,
    g: SpecGen,
    label: Option<Seq<char>>,
    var: Seq<char>,
    it: SpecExpr,
    body: Seq<SpecStmt>,
)
    ensures
        gen_for_each(ds, g, label, var, it, body) matches Ok((g2, _)) ==> stmt_frame(g, g2),
    decreases body, body.len() + 2,
{
    if let SpecExpr::Call { name, .. } = it {
        if is_gen_name(ds, name) {
            lemma_for_generator_frame(ds, g, label, var, it, body);
        } else {
            lemma_for_array_frame(ds, g, label, var, it, body);
        }
    } else {
        lemma_for_array_frame(ds, g, label, var, it, body);
    }
}

proof fn lemma_for_generator_frame(
    ds: SpecDecls,
    g: SpecGen,
    label: Option<Seq<char>>,
    var: Seq<char>,
    it: SpecExpr,
    body: Seq<SpecStmt>,
)
    ensures
        gen_for_generator(ds, g, label, var, it, body) matches Ok((g2, _)) ==> stmt_frame(g, g2),
    decreases body, body.len() + 1,
{
    lemma_expr_ok_frame(ds, g, it);
    if let Ok((g1, handle, _)) = gen_expr(ds, g, it) {
        let (g2, xv) = new_var(g1, ClType::I64);
        let (g3, dummy) = iconst(g2, ClType::I64, 0);
        let g4 = bind(add_inst(g3, Inst::DefVar(xv, dummy)), var, crate::emit::plain_entry(xv, SpecType::I64));
        let (g5, h) = new_block(g4);
        let (g6, b) = new_block(g5);
        let (g7, x) = new_block(g6);
        lemma_stmt_frame_trans(g, g1, g2);
        lemma_stmt_frame_trans(g, g2, g3);
        lemma_stmt_frame_trans(g, g3, g4);
        lemma_stmt_frame_trans(g, g4, g5);
        lemma_stmt_frame_trans(g, g5, g6);
        lemma_stmt_frame_trans(g, g6, g7);
        let g7b = add_inst(add_inst(g7, Inst::Jump(h)), Inst::SwitchToBlock(h));
        lemma_open_loop_frame(g7, h);
        lemma_stmt_frame_trans(g, g7, g7b);
        let g8 = push_loop(g7b, label, x, h);
        let (g9, ok) = call_rt(g8, Runtime::GenAdvance, seq![handle]);
        lemma_call_stmt_frame(g8, Runtime::GenAdvance, seq![handle]);
        let (g10, one) = iconst(g9, ClType::I8, 1);
        let (g11, c) = emit_value(g10, Inst::IntCompare(IntCond::Equal, ok, one));
        lemma_stmt_frame_trans(g8, g9, g10);
        lemma_stmt_frame_trans(g8, g10, g11);
        let g11a = add_inst(g11, Inst::Brif(c, b, x));
        let g12 = enter(g11a, b);
        lemma_stmt_frame_trans(g8, g11, g11a);
        lemma_enter_frame(g11a, b);
        lemma_stmt_frame_trans(g8, g11a, g12);
        let (g13, val) = call_rt(g12, Runtime::GenValueI64, seq![handle]);
        lemma_call_stmt_frame(g12, Runtime::GenValueI64, seq![handle]);
        lemma_stmt_frame_trans(g8, g12, g13);
        let g14 = add_inst(g13, Inst::DefVar(xv, val));
        lemma_stmt_frame_trans(g8, g13, g14);
        lemma_stmts_frame(ds, g14, body, 0);
        if let Ok((g15, ended)) = gen_stmts(ds, g14, body, 0) {
            lemma_stmt_frame_trans(g8, g14, g15);
            let g16 = jump_unless(g15, ended, h);
            lemma_stmt_frame_trans(g8, g15, g16);
            let g16a = add_inst(g16, Inst::SealBlock(h));
            lemma_stmt_frame_trans(g8, g16, g16a);
            lemma_enter_frame(g16a, x);
            lemma_stmt_frame_trans(g8, g16a, enter(g16a, x));
            lemma_pop_frame(g7b, label, x, h, enter(g16a, x));
            lemma_stmt_frame_trans(g, g7b, pop_loop(enter(g16a, x)));
        }
    }
}

proof fn lemma_for_array_frame(
    ds: SpecDecls,
    g: SpecGen,
    label: Option<Seq<char>>,
    var: Seq<char>,
    it: SpecExpr,
    body: Seq<SpecStmt>,
)
    ensures
        gen_for_array(ds, g, label, var, it, body) matches Ok((g2, _)) ==> stmt_frame(g, g2),
    decreases body, body.len() + 1,
{
    if let SpecExpr::Ident(arr) = it {
        if g.vars.contains_key(arr) {
            let entry = g.vars[arr];
            if let Some(n) = entry.arr_size {
                let et = match entry.arr_elem_ty {
                    Some(t) => t,
                    None => SpecType::I32,
                };
                if let Some(ec) = crate::ir::cl_type_of(et) {
                    let g0 = lemma_array_head_frame(g, label, var, entry.var, n, et, ec);
                    if let Ok((g1, iv, h, k, x)) = array_loop_head(g, label, var, entry.var, n, et, ec) {
                        lemma_stmts_frame(ds, g1, body, 0);
                        if let Ok((g2, ended)) = gen_stmts(ds, g1, body, 0) {
                            lemma_stmt_frame_trans(push_loop(g0, label, x, k), g1, g2);
                            lemma_array_tail_frame(g0, label, g2, ended, var, iv, h, k, x);
                            lemma_stmt_frame_trans(g, g0, array_loop_tail(g2, ended, var, iv, h, k, x));
                        }
                    }
                }
            }
        }
    }
}

/// The start of an array loop: what comes before its targets are pushed (`g0`), and what
/// comes after.
proof fn lemma_array_head_frame(
    g: SpecGen,
    label: Option<Seq<char>>,
    var: Seq<char>,
    avar: usize,
    n: usize,
    et: SpecType,
    ec: ClType,
) -> (g0: SpecGen)
    ensures
        stmt_frame(g, g0),
        array_loop_head(g, label, var, avar, n, et, ec) matches Ok((g1, _, _, k, x)) ==> stmt_frame(
            push_loop(g0, label, x, k),
            g1,
        ),
{
    let (g1, iv) = new_var(g, ClType::I64);
    let (g2, zero) = iconst(g1, ClType::I64, 0);
    let g3 = add_inst(g2, Inst::DefVar(iv, zero));
    let (g4, xv) = new_var(g3, ec);
    lemma_stmt_frame_trans(g, g1, g2);
    lemma_stmt_frame_trans(g, g2, g3);
    lemma_stmt_frame_trans(g, g3, g4);
    match default_value(g4, et) {
        Err(_) => g,
        Ok((g5, dummy)) => {
            lemma_stmt_frame_trans(g, g4, g5);
            let g6 = bind(add_inst(g5, Inst::DefVar(xv, dummy)), var, crate::emit::plain_entry(xv, et));
            lemma_stmt_frame_trans(g, g5, g6);
            let (g7, h, b, k, x) = loop_blocks(g6);
            lemma_loop_blocks_frame(g6);
            lemma_stmt_frame_trans(g, g6, g7);
            let g7b = add_inst(add_inst(g7, Inst::Jump(h)), Inst::SwitchToBlock(h));
            lemma_open_loop_frame(g7, h);
            lemma_stmt_frame_trans(g, g7, g7b);
            let g8 = push_loop(g7b, label, x, k);
            let (g9, cur) = emit_value(g8, Inst::UseVar(iv));
            let (g10, limit) = iconst(g9, ClType::I64, n as i64);
            let (g11, c) = emit_value(g10, Inst::IntCompare(IntCond::SignedLessThan, cur, limit));
            let g11a = add_inst(g11, Inst::Brif(c, b, x));
            let g12 = enter(g11a, b);
            lemma_stmt_frame_trans(g8, g9, g10);
            lemma_stmt_frame_trans(g8, g10, g11);
            lemma_stmt_frame_trans(g8, g11, g11a);
            lemma_enter_frame(g11a, b);
            lemma_stmt_frame_trans(g8, g11a, g12);
            let (g13, base) = emit_value(g12, Inst::UseVar(avar));
            let (g14, stride) = iconst(g13, ClType::I64, crate::ir::size_of(et) as i64);
            let (g15, now) = emit_value(g14, Inst::UseVar(iv));
            let (g16, off) = emit_value(g15, Inst::Binary(BinInst::Imul, now, stride));
            let (g17, addr) = emit_value(g16, Inst::Binary(BinInst::Iadd, base, off));
            let (g18, elem) = emit_value(g17, Inst::Load(ec, addr));
            lemma_stmt_frame_trans(g8, g12, g13);
            lemma_stmt_frame_trans(g8, g13, g14);
            lemma_stmt_frame_trans(g8, g14, g15);
            lemma_stmt_frame_trans(g8, g15, g16);
            lemma_stmt_frame_trans(g8, g16, g17);
            lemma_stmt_frame_trans(g8, g17, g18);
            lemma_stmt_frame_trans(g8, g18, add_inst(g18, Inst::DefVar(xv, elem)));
            g7b
        },
    }
}

/// The back edge of an array loop and its close.
proof fn lemma_array_tail_frame(
    g0: SpecGen,
    label: Option<Seq<char>>,
    g: SpecGen,
    ended: bool,
    var: Seq<char>,
    iv: usize,
    h: usize,
    k: usize,
    x: usize,
)
    requires
        stmt_frame(push_loop(g0, label, x, k), g),
    ensures
        stmt_frame(g0, array_loop_tail(g, ended, var, iv, h, k, x)),
{
    let gp = push_loop(g0, label, x, k);
    let g1a = jump_unless(g, ended, k);
    let g1 = enter(g1a, k);
    lemma_stmt_frame_trans(gp, g, g1a);
    lemma_enter_frame(g1a, k);
    lemma_stmt_frame_trans(gp, g1a, g1);
    let (g2, old) = emit_value(g1, Inst::UseVar(iv));
    let (g3, one) = iconst(g2, ClType::I64, 1);
    let (g4, next) = emit_value(g3, Inst::Binary(BinInst::Iadd, old, one));
    let g5 = add_inst(g4, Inst::DefVar(iv, next));
    lemma_stmt_frame_trans(gp, g1, g2);
    lemma_stmt_frame_trans(gp, g2, g3);
    lemma_stmt_frame_trans(gp, g3, g4);
    lemma_stmt_frame_trans(gp, g4, g5);
    lemma_close_frame(g0, label, x, k, g5, h, x);
}

} // verus!
