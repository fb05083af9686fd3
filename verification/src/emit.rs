use vstd::prelude::*;

use crate::ast::{
    BinaryOp, Decl, Expr, ForIter, SpecStmt, Stmt, VarDecl, lemma_stmts_view, stmt_view, stmts_view, SpecDecl, SpecExpr, SpecType, Type, UnaryOp, decls_view, expr_view,
    exprs_view, field_decls_view, field_inits_view, lemma_exprs_view, opt_type_view, lemma_field_inits_view, opt_name_view,
    type_view,
};
use crate::ir::{
    BinInst, ClType, Callee, Conv, FloatCond, Inst, IntCond, Runtime, align_shift, align_shift_of,
    cl_type, cl_type_of, elem_size, field_index, field_offset, field_start,
    is_float, is_unsigned, largest_field, layout_fits, max_field_size, print_fn, print_runtime,
    runtime_name, runtime_functions, runtime_table, size_of, spec_is_float, spec_is_unsigned,
    struct_size, struct_size_of, to_string_fn, to_string_runtime,
};
use crate::builtins::{lib_arity, lib_arity_of, lib_call, typed_view};
use crate::lsp::{trim, trim_chars};
use crate::table::Table;
use crate::text::{chars_of, parse_i64, parse_i64_text, string_from_chars, string_is};

verus! {

// ─── The state of code generation ────────────────────────────────────────────

/// What the generator knows of a local name: its variable, its type and, for an array
/// declared with a literal, its length and element type.
pub struct VarEntry {
    pub var: usize,
    pub ty: Type,
    pub arr_size: Option<usize>,
    pub arr_elem_ty: Option<Type>,
}

pub struct SpecVarEntry {
    pub var: usize,
    pub ty: SpecType,
    pub arr_size: Option<usize>,
    pub arr_elem_ty: Option<SpecType>,
}

impl View for VarEntry {
    type V = SpecVarEntry;

    open spec fn view(&self) -> SpecVarEntry {
        SpecVarEntry {
            var: self.var,
            ty: self.ty@,
            arr_size: self.arr_size,
            arr_elem_ty: match self.arr_elem_ty {
                Some(t) => Some(t@),
                None => None,
            },
        }
    }
}

/// The state of code generation: the instructions of the function being built, how many
/// blocks, stack slots and variables it has, the local names, the loops around the current
/// point (innermost last) with the blocks that `break` and `continue` jump to, the
/// generator context variable, the function's return type, whether it is `main`, and the
/// module's tables of texts and float literals.
#[verifier::ext_equal]
pub struct SpecGen {
    pub insts: Seq<Inst>,
    pub blocks: usize,
    pub slots: usize,
    pub var_counter: usize,
    pub vars: Map<Seq<char>, SpecVarEntry>,
    pub breaks: Seq<(Option<Seq<char>>, usize)>,
    pub conts: Seq<(Option<Seq<char>>, usize)>,
    pub ctx_var: Option<usize>,
    pub ret_ty: SpecType,
    pub is_main: bool,
    pub strings: Seq<Seq<char>>,
    pub floats: Seq<Seq<char>>,
}

/// The program's declarations, which code generation reads.
pub type SpecDecls = Seq<SpecDecl>;

// ─── Reading the declarations ────────────────────────────────────────────────

/// The index of the last function among the first `n` declarations named `name`.
pub open spec fn last_fn(ds: SpecDecls, name: Seq<char>, n: int) -> Option<int>
    decreases n,
{
    if n <= 0 || n > ds.len() {
        None
    } else {
        match ds[n - 1] {
            SpecDecl::Fn(f) => if f.name == name {
                Some(n - 1)
            } else {
                last_fn(ds, name, n - 1)
            },
            SpecDecl::Struct(_) => last_fn(ds, name, n - 1),
        }
    }
}

/// The function named `name` that calls resolve to: the last one declared.
pub open spec fn fn_decl(ds: SpecDecls, name: Seq<char>) -> Option<int> {
    last_fn(ds, name, ds.len() as int)
}

/// Some function among the first `n` declarations named `name` is a generator.
pub open spec fn gen_among(ds: SpecDecls, name: Seq<char>, n: int) -> bool
    decreases n,
{
    if n <= 0 || n > ds.len() {
        false
    } else {
        match ds[n - 1] {
            SpecDecl::Fn(f) => (f.name == name && f.is_gen) || gen_among(ds, name, n - 1),
            SpecDecl::Struct(_) => gen_among(ds, name, n - 1),
        }
    }
}

pub open spec fn is_gen_name(ds: SpecDecls, name: Seq<char>) -> bool {
    gen_among(ds, name, ds.len() as int)
}

/// The fields of the last struct among the first `n` declarations named `name`, or none.
pub open spec fn struct_fields_among(ds: SpecDecls, name: Seq<char>, n: int) -> Seq<(Seq<char>, SpecType)>
    decreases n,
{
    if n <= 0 || n > ds.len() {
        Seq::empty()
    } else {
        match ds[n - 1] {
            SpecDecl::Struct(sd) => if sd.name == name {
                sd.fields
            } else {
                struct_fields_among(ds, name, n - 1)
            },
            SpecDecl::Fn(_) => struct_fields_among(ds, name, n - 1),
        }
    }
}

pub open spec fn struct_fields(ds: SpecDecls, name: Seq<char>) -> Seq<(Seq<char>, SpecType)> {
    struct_fields_among(ds, name, ds.len() as int)
}

/// Every struct is small enough to lay out.
pub open spec fn decls_fit(ds: SpecDecls) -> bool {
    forall|i: int|
        0 <= i < ds.len() ==> match #[trigger] ds[i] {
            SpecDecl::Struct(sd) => layout_fits(sd.fields),
            SpecDecl::Fn(_) => true,
        }
}

/// The name of a generator's body function.
pub open spec fn body_name(name: Seq<char>) -> Seq<char> {
    "__"@ + name + "_body"@
}

/// The runtime function with symbol `name`, among those from index `i` of the table.
pub open spec fn runtime_named(name: Seq<char>, i: int) -> Option<Runtime>
    decreases runtime_table().len() - i,
{
    if 0 <= i < runtime_table().len() {
        if runtime_name(runtime_table()[i]) == name {
            Some(runtime_table()[i])
        } else {
            runtime_named(name, i + 1)
        }
    } else {
        None
    }
}

/// What a call of `name` reaches: a function of the program, a generator's body, or a
/// runtime function.
pub open spec fn resolve(ds: SpecDecls, name: Seq<char>) -> Option<Callee> {
    match fn_decl(ds, name) {
        Some(k) => Some(Callee::User(k as usize)),
        None => if name.len() >= 7 && name.subrange(0, 2) == "__"@ && name.subrange(
            name.len() - 5,
            name.len() as int,
        ) == "_body"@ && is_gen_name(ds, name.subrange(2, name.len() - 5)) {
            Some(
                Callee::Body(
                    fn_decl(ds, name.subrange(2, name.len() - 5)).unwrap_or(0) as usize,
                ),
            )
        } else {
            match runtime_named(name, 0) {
                Some(r) => Some(Callee::Runtime(r)),
                None => None,
            }
        },
    }
}

// ─── Emitting instructions ───────────────────────────────────────────────────

/// The index the next instruction will take, which names the value it yields.
pub open spec fn next_value(g: SpecGen) -> usize {
    g.insts.len() as usize
}

pub open spec fn add_inst(g: SpecGen, i: Inst) -> SpecGen {
    SpecGen { insts: g.insts.push(i), ..g }
}

/// Emits an instruction that yields a value, and names the value.
pub open spec fn emit_value(g: SpecGen, i: Inst) -> (SpecGen, usize) {
    (add_inst(g, i), next_value(g))
}

pub open spec fn new_block(g: SpecGen) -> (SpecGen, usize) {
    (SpecGen { blocks: (g.blocks + 1) as usize, ..add_inst(g, Inst::CreateBlock) }, g.blocks)
}

pub open spec fn new_slot(g: SpecGen, size: u32, shift: u8) -> (SpecGen, usize) {
    (SpecGen { slots: (g.slots + 1) as usize, ..add_inst(g, Inst::CreateSlot(size, shift)) }, g.slots)
}

/// A fresh variable of machine type `t`.
pub open spec fn new_var(g: SpecGen, t: ClType) -> (SpecGen, usize) {
    (
        SpecGen {
            var_counter: (g.var_counter + 1) as usize,
            ..add_inst(g, Inst::DeclareVar(g.var_counter, t))
        },
        g.var_counter,
    )
}

pub open spec fn push_args(g: SpecGen, args: Seq<usize>, n: int) -> SpecGen
    decreases n,
{
    if n <= 0 || n > args.len() {
        g
    } else {
        add_inst(push_args(g, args, n - 1), Inst::CallArg(args[n - 1]))
    }
}

/// Calls `f` with `args`; the call names its result, if it has one.
pub open spec fn call(g: SpecGen, f: Callee, args: Seq<usize>) -> (SpecGen, usize) {
    emit_value(push_args(g, args, args.len() as int), Inst::Call(f, args.len() as usize))
}

pub open spec fn call_rt(g: SpecGen, r: Runtime, args: Seq<usize>) -> (SpecGen, usize) {
    call(g, Callee::Runtime(r), args)
}

pub open spec fn void_error() -> Seq<char> {
    "void has no machine type"@
}

pub open spec fn missing_field(name: Seq<char>) -> Seq<char> {
    "field '"@ + name + "' not found in struct"@
}

// ─── Conversions ─────────────────────────────────────────────────────────────

pub open spec fn coerce_i8(g: SpecGen, v: usize, t: SpecType) -> (SpecGen, usize) {
    match t {
        SpecType::I32 | SpecType::U32 => emit_value(g, Inst::Convert(Conv::Ireduce, ClType::I8, v)),
        _ => (g, v),
    }
}

pub open spec fn coerce_f64(g: SpecGen, v: usize, t: SpecType) -> (SpecGen, usize) {
    match t {
        SpecType::F32 => emit_value(g, Inst::Convert(Conv::Fpromote, ClType::F64, v)),
        SpecType::I32 | SpecType::U32 | SpecType::I64 => emit_value(
            g,
            Inst::Convert(Conv::FcvtFromSint, ClType::F64, v),
        ),
        _ => (g, v),
    }
}

pub open spec fn extend_i64(g: SpecGen, v: usize, t: SpecType) -> (SpecGen, usize) {
    match t {
        SpecType::I32 | SpecType::U32 | SpecType::Bool => emit_value(
            g,
            Inst::Convert(Conv::Uextend, ClType::I64, v),
        ),
        _ => (g, v),
    }
}

/// Converts a value of type `from` to type `to`, where the types call for it.
pub open spec fn coerce_val(g: SpecGen, v: usize, from: SpecType, to: SpecType) -> (SpecGen, usize) {
    if from == to {
        (g, v)
    } else {
        match (from, to) {
            (SpecType::I32, SpecType::I64) => emit_value(g, Inst::Convert(Conv::Sextend, ClType::I64, v)),
            (SpecType::I64, SpecType::I32) => emit_value(g, Inst::Convert(Conv::Ireduce, ClType::I32, v)),
            (SpecType::F32, SpecType::F64) => emit_value(g, Inst::Convert(Conv::Fpromote, ClType::F64, v)),
            (SpecType::F64, SpecType::F32) => emit_value(g, Inst::Convert(Conv::Fdemote, ClType::F32, v)),
            (SpecType::I32, SpecType::F64) => emit_value(
                g,
                Inst::Convert(Conv::FcvtFromSint, ClType::F64, v),
            ),
            (SpecType::I32, SpecType::F32) => emit_value(
                g,
                Inst::Convert(Conv::FcvtFromSint, ClType::F32, v),
            ),
            _ => (g, v),
        }
    }
}

/// The zero of type `t`.
pub open spec fn default_value(g: SpecGen, t: SpecType) -> Result<(SpecGen, usize), Seq<char>> {
    match t {
        SpecType::F32 => Ok(emit_value(g, Inst::F32Zero)),
        SpecType::F64 => Ok(emit_value(g, Inst::F64Zero)),
        SpecType::I64 | SpecType::Str | SpecType::Array(_) | SpecType::Custom(_) => Ok(
            emit_value(g, Inst::Iconst(ClType::I64, 0)),
        ),
        _ => match cl_type_of(t) {
            Some(c) => Ok(emit_value(g, Inst::Iconst(c, 0))),
            None => Err(void_error()),
        },
    }
}

/// Prints a value of type `t`.
pub open spec fn print_val(g: SpecGen, v: usize, t: SpecType, newline: bool) -> SpecGen {
    call_rt(g, print_fn(t, newline), seq![v]).0
}

// ─── Expressions ─────────────────────────────────────────────────────────────

pub type ExprResult = Result<(SpecGen, usize, SpecType), Seq<char>>;

pub open spec fn iconst(g: SpecGen, t: ClType, n: i64) -> (SpecGen, usize) {
    emit_value(g, Inst::Iconst(t, n))
}

/// The load of field `field` of the struct whose address variable `var` holds.
pub open spec fn load_field(ds: SpecDecls, g: SpecGen, var: usize, sname: Seq<char>, field: Seq<char>) -> ExprResult {
    let fields = struct_fields(ds, sname);
    match field_index(fields, field, 0) {
        None => Err(missing_field(field)),
        Some(k) => match cl_type_of(fields[k].1) {
            None => Err(void_error()),
            Some(ct) => {
                let (g1, base) = emit_value(g, Inst::UseVar(var));
                let (g2, addr) = emit_value(g1, Inst::IaddImm(base, field_start(fields, k) as i64));
                let (g3, v) = emit_value(g2, Inst::Load(ct, addr));
                Ok((g3, v, fields[k].1))
            },
        },
    }
}

/// The code for expression `e`: the instructions it adds, the value that holds its result
/// and the result's type.
pub open spec fn gen_expr(ds: SpecDecls, g: SpecGen, e: SpecExpr) -> ExprResult
    decreases e, 2int, 0int,
{
    match e {
        SpecExpr::Int(n) => {
            let (g1, v) = iconst(g, ClType::I32, n);
            Ok((g1, v, SpecType::I32))
        },
        SpecExpr::Float(t) => {
            let g1 = SpecGen { floats: g.floats.push(t), ..g };
            let (g2, v) = emit_value(g1, Inst::F64Const(g.floats.len() as usize));
            Ok((g2, v, SpecType::F64))
        },
        SpecExpr::Bool(b) => {
            let (g1, v) = iconst(
                g,
                ClType::I8,
                if b {
                    1
                } else {
                    0
                },
            );
            Ok((g1, v, SpecType::Bool))
        },
        SpecExpr::Str(t) => {
            let g1 = SpecGen { strings: g.strings.push(t), ..g };
            let (g2, v) = emit_value(g1, Inst::StrConst(g.strings.len() as usize));
            Ok((g2, v, SpecType::Str))
        },
        SpecExpr::FStr(content) => match gen_fstr(ds, g, content, 0, Seq::empty()) {
            Err(m) => Err(m),
            Ok(g1) => {
                let g2 = SpecGen { strings: g1.strings.push(Seq::empty()), ..g1 };
                let (g3, v) = emit_value(g2, Inst::StrConst(g1.strings.len() as usize));
                Ok((g3, v, SpecType::Str))
            },
        },
        SpecExpr::Ident(name) => if g.vars.contains_key(name) {
            let (g1, v) = emit_value(g, Inst::UseVar(g.vars[name].var));
            Ok((g1, v, g.vars[name].ty))
        } else {
            let (g1, v) = iconst(g, ClType::I32, 0);
            Ok((g1, v, SpecType::I32))
        },
        SpecExpr::Binary { .. } => gen_binary(ds, g, e),
        SpecExpr::Unary { op, expr } => match gen_expr(ds, g, *expr) {
            Err(m) => Err(m),
            Ok((g1, v, t)) => match op {
                UnaryOp::Neg => if spec_is_float(t) {
                    let (g2, r) = emit_value(g1, Inst::Fneg(v));
                    Ok((g2, r, t))
                } else {
                    match cl_type_of(t) {
                        None => Err(void_error()),
                        Some(ct) => {
                            let (g2, z) = iconst(g1, ct, 0);
                            let (g3, r) = emit_value(g2, Inst::Binary(BinInst::Isub, z, v));
                            Ok((g3, r, t))
                        },
                    }
                },
                UnaryOp::Not => {
                    let (g2, one) = iconst(g1, ClType::I8, 1);
                    let (g3, v8) = coerce_i8(g2, v, t);
                    let (g4, r) = emit_value(g3, Inst::Binary(BinInst::Bxor, v8, one));
                    Ok((g4, r, SpecType::Bool))
                },
            },
        },
        SpecExpr::Call { .. } => gen_call(ds, g, e),
        SpecExpr::Field { object, field } => match *object {
            SpecExpr::Ident(obj) => if g.vars.contains_key(obj) {
                match g.vars[obj].ty {
                    SpecType::Custom(sname) => load_field(ds, g, g.vars[obj].var, sname, field),
                    _ => Err("field access on non-struct"@),
                }
            } else {
                let (g1, v) = iconst(g, ClType::I32, 0);
                Ok((g1, v, SpecType::I32))
            },
            _ => {
                let (g1, v) = iconst(g, ClType::I32, 0);
                Ok((g1, v, SpecType::I32))
            },
        },
        SpecExpr::Index { array, index } => match *array {
            SpecExpr::Ident(arr) => if g.vars.contains_key(arr) {
                let entry = g.vars[arr];
                let et = match entry.arr_elem_ty {
                    Some(t) => t,
                    None => SpecType::I32,
                };
                match cl_type_of(et) {
                    None => Err(void_error()),
                    Some(ec) => match gen_expr(ds, g, *index) {
                        Err(m) => Err(m),
                        Ok((g1, iv, it)) => {
                            let (g2, base) = emit_value(g1, Inst::UseVar(entry.var));
                            let (g3, i64v) = extend_i64(g2, iv, it);
                            let (g4, stride) = iconst(g3, ClType::I64, size_of(et) as i64);
                            let (g5, off) = emit_value(g4, Inst::Binary(BinInst::Imul, i64v, stride));
                            let (g6, addr) = emit_value(g5, Inst::Binary(BinInst::Iadd, base, off));
                            let (g7, v) = emit_value(g6, Inst::Load(ec, addr));
                            Ok((g7, v, et))
                        },
                    },
                }
            } else {
                let (g1, v) = iconst(g, ClType::I32, 0);
                Ok((g1, v, SpecType::I32))
            },
            _ => {
                let (g1, v) = iconst(g, ClType::I32, 0);
                Ok((g1, v, SpecType::I32))
            },
        },
        SpecExpr::Array(_) => Err("Array literal must appear as VarDecl value"@),
        SpecExpr::StructLit { name, fields } => {
            let meta = struct_fields(ds, name);
            let shift = align_shift_of(max_field_size(meta, meta.len() as int));
            let (g1, slot) = new_slot(g, struct_size_of(meta) as u32, shift as u8);
            match gen_struct_fields(ds, g1, e, meta, slot, 0) {
                Err(m) => Err(m),
                Ok(g2) => {
                    let (g3, v) = emit_value(g2, Inst::StackAddr(slot));
                    Ok((g3, v, SpecType::Custom(name)))
                },
            }
        },
    }
}

/// The code for a binary expression `e`.
pub open spec fn gen_binary(ds: SpecDecls, g: SpecGen, e: SpecExpr) -> ExprResult
    decreases e, 1int, 0int,
{
    match e {
        SpecExpr::Binary { left, op, right } => match gen_expr(ds, g, *left) {
            Err(m) => Err(m),
            Ok((g1, lv, lt)) => match gen_expr(ds, g1, *right) {
                Err(m) => Err(m),
                Ok((g2, rv, _)) => Ok(binary_inst(g2, op, lv, rv, lt)),
            },
        },
        _ => Err(Seq::empty()),
    }
}

/// The instruction for `lv op rv`, where the left operand has type `lt`.
pub open spec fn binary_inst(g: SpecGen, op: BinaryOp, lv: usize, rv: usize, lt: SpecType) -> (SpecGen, usize, SpecType) {
    let float = spec_is_float(lt);
    let unsig = spec_is_unsigned(lt);
    let arith = |fi: BinInst, ii: BinInst| {
        let (g1, v) = emit_value(
            g,
            Inst::Binary(
                if float {
                    fi
                } else {
                    ii
                },
                lv,
                rv,
            ),
        );
        (g1, v, lt)
    };
    let compare = |fc: FloatCond, sc: IntCond, uc: IntCond| {
        let (g1, v) = emit_value(
            g,
            if float {
                Inst::FloatCompare(fc, lv, rv)
            } else if unsig {
                Inst::IntCompare(uc, lv, rv)
            } else {
                Inst::IntCompare(sc, lv, rv)
            },
        );
        (g1, v, SpecType::Bool)
    };
    let logic = |bi: BinInst| {
        let (g1, la) = coerce_i8(g, lv, lt);
        let (g2, ra) = coerce_i8(g1, rv, lt);
        let (g3, v) = emit_value(g2, Inst::Binary(bi, la, ra));
        (g3, v, SpecType::Bool)
    };
    let bits = |bi: BinInst| {
        let (g1, v) = emit_value(g, Inst::Binary(bi, lv, rv));
        (g1, v, lt)
    };
    match op {
        BinaryOp::Add => arith(BinInst::Fadd, BinInst::Iadd),
        BinaryOp::Sub => arith(BinInst::Fsub, BinInst::Isub),
        BinaryOp::Mul => arith(BinInst::Fmul, BinInst::Imul),
        BinaryOp::Div => arith(
            BinInst::Fdiv,
            if unsig {
                BinInst::Udiv
            } else {
                BinInst::Sdiv
            },
        ),
        BinaryOp::Mod => if float {
            let (g1, v) = call_rt(g, Runtime::FmodF64, seq![lv, rv]);
            (g1, v, lt)
        } else {
            bits(
                if unsig {
                    BinInst::Urem
                } else {
                    BinInst::Srem
                },
            )
        },
        BinaryOp::Eq => compare(FloatCond::Equal, IntCond::Equal, IntCond::Equal),
        BinaryOp::NotEq => compare(FloatCond::NotEqual, IntCond::NotEqual, IntCond::NotEqual),
        BinaryOp::Lt => compare(FloatCond::LessThan, IntCond::SignedLessThan, IntCond::UnsignedLessThan),
        BinaryOp::Le => compare(
            FloatCond::LessThanOrEqual,
            IntCond::SignedLessThanOrEqual,
            IntCond::UnsignedLessThanOrEqual,
        ),
        BinaryOp::Gt => compare(
            FloatCond::GreaterThan,
            IntCond::SignedGreaterThan,
            IntCond::UnsignedGreaterThan,
        ),
        BinaryOp::Ge => compare(
            FloatCond::GreaterThanOrEqual,
            IntCond::SignedGreaterThanOrEqual,
            IntCond::UnsignedGreaterThanOrEqual,
        ),
        BinaryOp::And => logic(BinInst::Band),
        BinaryOp::Or => logic(BinInst::Bor),
        BinaryOp::BitAnd => bits(BinInst::Band),
        BinaryOp::BitOr => bits(BinInst::Bor),
        BinaryOp::BitXor => bits(BinInst::Bxor),
        BinaryOp::Shl => bits(BinInst::Ishl),
        BinaryOp::Shr => bits(
            if unsig {
                BinInst::Ushr
            } else {
                BinInst::Sshr
            },
        ),
    }
}

/// The arguments of call `e` from index `i`, each printed, the last with a newline where
/// `newline_last`.
pub open spec fn gen_print_args(ds: SpecDecls, g: SpecGen, e: SpecExpr, i: int, newline_last: bool) -> Result<SpecGen, Seq<char>>
    decreases e, 0int, (match e {
        SpecExpr::Call { args, .. } => args.len() - i,
        _ => 0,
    }),
{
    match e {
        SpecExpr::Call { name, args } => if 0 <= i < args.len() {
            match gen_expr(ds, g, args[i]) {
                Err(m) => Err(m),
                Ok((g1, v, t)) => gen_print_args(
                    ds,
                    print_val(g1, v, t, newline_last && i == args.len() - 1),
                    e,
                    i + 1,
                    newline_last,
                ),
            }
        } else {
            Ok(g)
        },
        _ => Ok(g),
    }
}

/// The arguments of call `e` from index `i`, each converted to the parameter type at its
/// index where `params` has one; with the values that hold them.
pub open spec fn gen_user_args(ds: SpecDecls, g: SpecGen, e: SpecExpr, params: Seq<SpecType>, i: int, vals: Seq<usize>) -> Result<(SpecGen, Seq<usize>), Seq<char>>
    decreases e, 0int, (match e {
        SpecExpr::Call { args, .. } => args.len() - i,
        _ => 0,
    }),
{
    match e {
        SpecExpr::Call { name, args } => if 0 <= i < args.len() {
            match gen_expr(ds, g, args[i]) {
                Err(m) => Err(m),
                Ok((g1, v, t)) => {
                    let (g2, v2) = if i < params.len() {
                        coerce_val(g1, v, t, params[i])
                    } else {
                        (g1, v)
                    };
                    gen_user_args(ds, g2, e, params, i + 1, vals.push(v2))
                },
            }
        } else {
            Ok((g, vals))
        },
        _ => Ok((g, vals)),
    }
}

/// The arguments of call `e` from index `i`, appended to `acc` with their types.
pub open spec fn gen_typed_args(ds: SpecDecls, g: SpecGen, e: SpecExpr, i: int, acc: Seq<(usize, SpecType)>) -> Result<(SpecGen, Seq<(usize, SpecType)>), Seq<char>>
    decreases e, 0int, (match e {
        SpecExpr::Call { args, .. } => args.len() - i,
        _ => 0,
    }),
{
    match e {
        SpecExpr::Call { name, args } => if 0 <= i < args.len() {
            match gen_expr(ds, g, args[i]) {
                Err(m) => Err(m),
                Ok((g1, v, t)) => gen_typed_args(ds, g1, e, i + 1, acc.push((v, t))),
            }
        } else {
            Ok((g, acc))
        },
        _ => Ok((g, acc)),
    }
}

/// The parameter types and result type of the function named `name`.
pub open spec fn fn_signature_of(ds: SpecDecls, name: Seq<char>) -> (Seq<SpecType>, SpecType) {
    match fn_decl(ds, name) {
        Some(k) => match ds[k] {
            SpecDecl::Fn(f) => (f.params.map_values(|p: crate::ast::SpecParam| p.ty), f.ret_ty),
            _ => (Seq::empty(), SpecType::Void),
        },
        None => (Seq::empty(), SpecType::Void),
    }
}

/// The code for a call `e`: a built-in function, or a function of the program.
pub open spec fn gen_call(ds: SpecDecls, g: SpecGen, e: SpecExpr) -> ExprResult
    decreases e, 1int, 0int,
{
    match e {
        SpecExpr::Call { name, args } => if name == "println"@ {
            let r = if args.len() == 0 {
                Ok(call_rt(g, Runtime::PrintlnNewline, Seq::empty()).0)
            } else {
                gen_print_args(ds, g, e, 0, true)
            };
            match r {
                Err(m) => Err(m),
                Ok(g1) => {
                    let (g2, v) = iconst(g1, ClType::I32, 0);
                    Ok((g2, v, SpecType::Void))
                },
            }
        } else if name == "print"@ {
            match gen_print_args(ds, g, e, 0, false) {
                Err(m) => Err(m),
                Ok(g1) => {
                    let (g2, v) = iconst(g1, ClType::I32, 0);
                    Ok((g2, v, SpecType::Void))
                },
            }
        } else if name == "len"@ && args.len() == 1 {
            let n = match args[0] {
                SpecExpr::Ident(a) => if g.vars.contains_key(a) {
                    match g.vars[a].arr_size {
                        Some(sz) => sz as i64,
                        None => 0,
                    }
                } else {
                    0
                },
                _ => 0,
            };
            let (g1, v) = iconst(g, ClType::I32, n);
            Ok((g1, v, SpecType::I32))
        } else if name == "abs"@ && args.len() == 1 {
            match gen_expr(ds, g, args[0]) {
                Err(m) => Err(m),
                Ok((g1, v, t)) => if spec_is_float(t) {
                    let (g2, dv) = coerce_f64(g1, v, t);
                    let (g3, r) = call_rt(g2, Runtime::AbsF64, seq![dv]);
                    Ok((g3, r, SpecType::F64))
                } else {
                    let (g2, r) = call_rt(g1, Runtime::AbsI32, seq![v]);
                    Ok((g2, r, SpecType::I32))
                },
            }
        } else if name == "sqrt"@ && args.len() == 1 {
            match gen_expr(ds, g, args[0]) {
                Err(m) => Err(m),
                Ok((g1, v, t)) => {
                    let (g2, dv) = coerce_f64(g1, v, t);
                    let (g3, r) = call_rt(g2, Runtime::SqrtF64, seq![dv]);
                    Ok((g3, r, SpecType::F64))
                },
            }
        } else if name == "pow"@ && args.len() == 2 {
            match gen_expr(ds, g, args[0]) {
                Err(m) => Err(m),
                Ok((g1, v0, t0)) => match gen_expr(ds, g1, args[1]) {
                    Err(m) => Err(m),
                    Ok((g2, v1, t1)) => {
                        let (g3, d0) = coerce_f64(g2, v0, t0);
                        let (g4, d1) = coerce_f64(g3, v1, t1);
                        let (g5, r) = call_rt(g4, Runtime::PowF64, seq![d0, d1]);
                        Ok((g5, r, SpecType::F64))
                    },
                },
            }
        } else if name == "to_string"@ && args.len() == 1 {
            match gen_expr(ds, g, args[0]) {
                Err(m) => Err(m),
                Ok((g1, v, t)) => {
                    let (g2, a) = if t == SpecType::F32 {
                        coerce_f64(g1, v, t)
                    } else {
                        (g1, v)
                    };
                    let (g3, r) = call_rt(g2, to_string_fn(t), seq![a]);
                    Ok((g3, r, SpecType::Str))
                },
            }
        } else if lib_arity(name) == Some(args.len()) {
            match gen_typed_args(ds, g, e, 0, Seq::empty()) {
                Err(m) => Err(m),
                Ok((g1, a)) => lib_call(g1, name, a),
            }
        } else {
            let (params, ret) = fn_signature_of(ds, name);
            match gen_user_args(ds, g, e, params, 0, Seq::empty()) {
                Err(m) => Err(m),
                Ok((g1, vals)) => match resolve(ds, name) {
                    Some(f) => if ret == SpecType::Void {
                        let (g2, _) = call(g1, f, vals);
                        let (g3, v) = iconst(g2, ClType::I32, 0);
                        Ok((g3, v, SpecType::Void))
                    } else {
                        let (g2, r) = call(g1, f, vals);
                        Ok((g2, r, ret))
                    },
                    None => {
                        let (g2, v) = iconst(g1, ClType::I32, 0);
                        Ok((g2, v, SpecType::Void))
                    },
                },
            }
        },
        _ => Err(Seq::empty()),
    }
}

/// The field initialisers of struct literal `e` from index `i`, stored into `slot`.
pub open spec fn gen_struct_fields(ds: SpecDecls, g: SpecGen, e: SpecExpr, meta: Seq<(Seq<char>, SpecType)>, slot: usize, i: int) -> Result<SpecGen, Seq<char>>
    decreases e, 0int, (match e {
        SpecExpr::StructLit { fields, .. } => fields.len() - i,
        _ => 0,
    }),
{
    match e {
        SpecExpr::StructLit { name, fields } => if 0 <= i < fields.len() {
            match gen_expr(ds, g, fields[i].1) {
                Err(m) => Err(m),
                Ok((g1, v, vt)) => match field_index(meta, fields[i].0, 0) {
                    None => Err(missing_field(fields[i].0)),
                    Some(k) => {
                        let (g2, cv) = coerce_val(g1, v, vt, meta[k].1);
                        let g3 = add_inst(g2, Inst::StackStore(cv, slot, field_start(meta, k) as i32));
                        gen_struct_fields(ds, g3, e, meta, slot, i + 1)
                    },
                },
            }
        } else {
            Ok(g)
        },
        _ => Ok(g),
    }
}

// ─── Format strings ──────────────────────────────────────────────────────────

/// The index of the first `}` at or after `i`, or the end.
pub open spec fn close_brace(cs: Seq<char>, i: int) -> int
    decreases cs.len() - i,
{
    if 0 <= i < cs.len() && cs[i] != '}' {
        close_brace(cs, i + 1)
    } else {
        if i < 0 {
            0
        } else {
            i
        }
    }
}

/// The index of the first `.` at or after `i`.
pub open spec fn first_dot(cs: Seq<char>, i: int) -> Option<int>
    decreases cs.len() - i,
{
    if 0 <= i < cs.len() {
        if cs[i] == '.' {
            Some(i)
        } else {
            first_dot(cs, i + 1)
        }
    } else {
        None
    }
}

/// Prints the text gathered so far, if there is any.
pub open spec fn flush_text(g: SpecGen, text: Seq<char>) -> SpecGen {
    if text.len() > 0 {
        let g1 = SpecGen { strings: g.strings.push(text), ..g };
        let (g2, v) = emit_value(g1, Inst::StrConst(g.strings.len() as usize));
        print_val(g2, v, SpecType::Str, false)
    } else {
        g
    }
}

/// Prints the hole `{name}` of a format string: a local, a field of a local struct, or an
/// integer; anything else prints nothing.
pub open spec fn gen_hole(ds: SpecDecls, g: SpecGen, name: Seq<char>) -> Result<SpecGen, Seq<char>> {
    if g.vars.contains_key(name) {
        let (g1, v) = emit_value(g, Inst::UseVar(g.vars[name].var));
        Ok(print_val(g1, v, g.vars[name].ty, false))
    } else {
        match first_dot(name, 0) {
            Some(d) => {
                let obj = name.subrange(0, d);
                let field = name.subrange(d + 1, name.len() as int);
                if g.vars.contains_key(obj) {
                    match g.vars[obj].ty {
                        SpecType::Custom(sname) => if sname.len() > 0 {
                            match load_field(ds, g, g.vars[obj].var, sname, field) {
                                Err(m) => Err(m),
                                Ok((g1, v, t)) => Ok(print_val(g1, v, t, false)),
                            }
                        } else {
                            Ok(g)
                        },
                        _ => Ok(g),
                    }
                } else {
                    Ok(g)
                }
            },
            None => match parse_i64_text(name) {
                Some(n) => {
                    let (g1, v) = iconst(g, ClType::I32, n);
                    Ok(print_val(g1, v, SpecType::I32, false))
                },
                None => Ok(g),
            },
        }
    }
}

/// Prints a format string from index `i`, with `text` gathered and not yet printed.
pub open spec fn gen_fstr(ds: SpecDecls, g: SpecGen, cs: Seq<char>, i: int, text: Seq<char>) -> Result<SpecGen, Seq<char>>
    decreases cs.len() - i,
{
    if i < 0 || i >= cs.len() {
        Ok(flush_text(g, text))
    } else if cs[i] == '{' {
        let g1 = flush_text(g, text);
        let j = close_brace(cs, i + 1);
        match gen_hole(ds, g1, trim(cs.subrange(i + 1, j))) {
            Err(m) => Err(m),
            Ok(g2) => if i < j + 1 <= cs.len() {
                gen_fstr(ds, g2, cs, j + 1, Seq::empty())
            } else {
                Ok(g2)
            },
        }
    } else {
        gen_fstr(ds, g, cs, i + 1, text.push(cs[i]))
    }
}

// ─── The generator ───────────────────────────────────────────────────────────

/// The state of code generation (see `SpecGen`).
pub struct CodeGen {
    pub insts: Vec<Inst>,
    pub blocks: usize,
    pub slots: usize,
    pub var_counter: usize,
    pub vars: Table<VarEntry>,
    pub breaks: Vec<(Option<String>, usize)>,
    pub conts: Vec<(Option<String>, usize)>,
    pub ctx_var: Option<usize>,
    pub ret_ty: Type,
    pub is_main: bool,
    pub strings: Vec<String>,
    pub floats: Vec<String>,
}

pub open spec fn loops_view(v: Seq<(Option<String>, usize)>) -> Seq<(Option<Seq<char>>, usize)> {
    v.map_values(|l: (Option<String>, usize)| (opt_name_view(l.0), l.1))
}

pub open spec fn texts_view(v: Seq<String>) -> Seq<Seq<char>> {
    v.map_values(|t: String| t@)
}

impl View for CodeGen {
    type V = SpecGen;

    open spec fn view(&self) -> SpecGen {
        SpecGen {
            insts: self.insts@,
            blocks: self.blocks,
            slots: self.slots,
            var_counter: self.var_counter,
            vars: self.vars@,
            breaks: loops_view(self.breaks@),
            conts: loops_view(self.conts@),
            ctx_var: self.ctx_var,
            ret_ty: self.ret_ty@,
            is_main: self.is_main,
            strings: texts_view(self.strings@),
            floats: texts_view(self.floats@),
        }
    }
}

/// Blocks, slots and variables are each made by an instruction of their own.
pub open spec fn gen_wf(g: SpecGen) -> bool {
    &&& g.blocks <= g.insts.len()
    &&& g.slots <= g.insts.len()
    &&& g.var_counter <= g.insts.len()
}

/// The result of an executable step, matched against the spec of the step.
pub open spec fn expr_matches(r: Result<(usize, Type), String>, s: ExprResult, g: SpecGen) -> bool {
    match r {
        Ok((v, t)) => s == Ok::<(SpecGen, usize, SpecType), Seq<char>>((g, v, t@)),
        Err(m) => s == Err::<(SpecGen, usize, SpecType), Seq<char>>(m@),
    }
}

pub open spec fn step_matches(r: Result<(), String>, s: Result<SpecGen, Seq<char>>, g: SpecGen) -> bool {
    match r {
        Ok(_) => s == Ok::<SpecGen, Seq<char>>(g),
        Err(m) => s == Err::<SpecGen, Seq<char>>(m@),
    }
}

// ─── Reading the declarations ────────────────────────────────────────────────

/// The index of the last function declared with this name.
pub fn find_fn(ds: &Vec<Decl>, name: &str) -> (r: Option<usize>)
    ensures
        match r {
            Some(k) => fn_decl(decls_view(ds@), name@) == Some(k as int) && k < ds@.len(),
            None => fn_decl(decls_view(ds@), name@) is None,
        },
{
    let ghost sds = decls_view(ds@);
    let mut n = ds.len();
    while n > 0
        invariant
            n <= ds@.len(),
            sds == decls_view(ds@),
            last_fn(sds, name@, n as int) == fn_decl(sds, name@),
        decreases n,
    {
        assert(sds[n - 1] == ds@[n - 1]@);
        match &ds[n - 1] {
            Decl::Fn(f) => {
                if string_is(f.name.as_str(), name) {
                    return Some(n - 1);
                }
            },
            Decl::Struct(_) => {},
        }
        n = n - 1;
    }
    None
}

/// Whether some function declared with this name is a generator.
pub fn is_generator(ds: &Vec<Decl>, name: &str) -> (r: bool)
    ensures
        r == is_gen_name(decls_view(ds@), name@),
{
    let ghost sds = decls_view(ds@);
    let mut n = ds.len();
    while n > 0
        invariant
            n <= ds@.len(),
            sds == decls_view(ds@),
            gen_among(sds, name@, n as int) == is_gen_name(sds, name@),
        decreases n,
    {
        assert(sds[n - 1] == ds@[n - 1]@);
        match &ds[n - 1] {
            Decl::Fn(f) => {
                if f.is_gen && string_is(f.name.as_str(), name) {
                    return true;
                }
            },
            Decl::Struct(_) => {},
        }
        n = n - 1;
    }
    false
}

/// The fields of the struct declared last with this name, or none.
pub fn find_struct<'a>(ds: &'a Vec<Decl>, name: &str) -> (r: Option<&'a Vec<(String, Type)>>)
    ensures
        match r {
            Some(fs) => field_decls_view(fs@) == struct_fields(decls_view(ds@), name@) && (
            decls_fit(decls_view(ds@)) ==> layout_fits(field_decls_view(fs@))),
            None => struct_fields(decls_view(ds@), name@) == Seq::<(Seq<char>, SpecType)>::empty(),
        },
{
    let ghost sds = decls_view(ds@);
    let mut n = ds.len();
    while n > 0
        invariant
            n <= ds@.len(),
            sds == decls_view(ds@),
            struct_fields_among(sds, name@, n as int) == struct_fields(sds, name@),
        decreases n,
    {
        assert(sds[n - 1] == ds@[n - 1]@);
        match &ds[n - 1] {
            Decl::Struct(sd) => {
                if string_is(sd.name.as_str(), name) {
                    proof {
                        if decls_fit(sds) {
                            assert(match sds[n - 1] {
                                SpecDecl::Struct(sd) => layout_fits(sd.fields),
                                SpecDecl::Fn(_) => true,
                            });
                        }
                    }
                    return Some(&sd.fields);
                }
            },
            Decl::Fn(_) => {},
        }
        n = n - 1;
    }
    None
}

fn find_runtime(name: &str) -> (r: Option<Runtime>)
    ensures
        r == runtime_named(name@, 0),
{
    let rs = runtime_functions();
    let mut i: usize = 0;
    while i < rs.len()
        invariant
            rs@ == runtime_table(),
            i <= rs@.len(),
            runtime_named(name@, i as int) == runtime_named(name@, 0),
        decreases rs@.len() - i,
    {
        if string_is(rs[i].name(), name) {
            return Some(rs[i]);
        }
        i = i + 1;
    }
    None
}

/// What a call of `name` reaches.
pub fn resolve_callee(ds: &Vec<Decl>, name: &str) -> (r: Option<Callee>)
    ensures
        r == resolve(decls_view(ds@), name@),
{
    match find_fn(ds, name) {
        Some(k) => {
            return Some(Callee::User(k));
        },
        None => {},
    }
    let cs = chars_of(name);
    let n = cs.len();
    if n >= 7 && cs[0] == '_' && cs[1] == '_' && cs[n - 5] == '_' && cs[n - 4] == 'b' && cs[n - 3]
        == 'o' && cs[n - 2] == 'd' && cs[n - 1] == 'y' {
        let inner_chars = crate::lsp::slice_chars(&cs, 2, n - 5);
        let inner = string_from_chars(&inner_chars);
        proof {
            reveal_strlit("__");
            reveal_strlit("_body");
            assert(name@.subrange(0, 2) =~= "__"@);
            assert(name@.subrange(n - 5, n as int) =~= "_body"@);
        }
        if is_generator(ds, inner.as_str()) {
            let k = match find_fn(ds, inner.as_str()) {
                Some(k) => k,
                None => 0,
            };
            return Some(Callee::Body(k));
        }
    } else {
        proof {
            reveal_strlit("__");
            reveal_strlit("_body");
            if n >= 7 && name@.subrange(0, 2) == "__"@ && name@.subrange(n - 5, n as int) == "_body"@ {
                assert(name@.subrange(0, 2)[0] == name@[0]);
                assert(name@.subrange(0, 2)[1] == name@[1]);
                assert(name@.subrange(n - 5, n as int)[0] == name@[n - 5]);
                assert(name@.subrange(n - 5, n as int)[1] == name@[n - 4]);
                assert(name@.subrange(n - 5, n as int)[2] == name@[n - 3]);
                assert(name@.subrange(n - 5, n as int)[3] == name@[n - 2]);
                assert(name@.subrange(n - 5, n as int)[4] == name@[n - 1]);
            }
        }
    }
    match find_runtime(name) {
        Some(r) => Some(Callee::Runtime(r)),
        None => None,
    }
}

// ─── Emitting instructions ───────────────────────────────────────────────────

impl CodeGen {
    /// Adds an instruction and names the value it yields.
    pub fn emit(&mut self, i: Inst) -> (v: usize)
        requires
            gen_wf(old(self)@),
        ensures
            gen_wf(final(self)@),
            (final(self)@, v) == emit_value(old(self)@, i),
    {
        let v = self.insts.len();
        self.insts.push(i);
        assert(self@ =~= add_inst(old(self)@, i));
        v
    }

    pub fn new_block(&mut self) -> (b: usize)
        requires
            gen_wf(old(self)@),
        ensures
            gen_wf(final(self)@),
            (final(self)@, b) == new_block(old(self)@),
    {
        let b = self.blocks;
        self.insts.push(Inst::CreateBlock);
        let n = self.insts.len();
        self.blocks = b + 1;
        assert(self@ =~= new_block(old(self)@).0);
        b
    }

    pub fn new_slot(&mut self, size: u32, shift: u8) -> (s: usize)
        requires
            gen_wf(old(self)@),
        ensures
            gen_wf(final(self)@),
            (final(self)@, s) == new_slot(old(self)@, size, shift),
    {
        let s = self.slots;
        self.insts.push(Inst::CreateSlot(size, shift));
        let n = self.insts.len();
        self.slots = s + 1;
        assert(self@ =~= new_slot(old(self)@, size, shift).0);
        s
    }

    pub fn new_var(&mut self, t: ClType) -> (x: usize)
        requires
            gen_wf(old(self)@),
        ensures
            gen_wf(final(self)@),
            (final(self)@, x) == new_var(old(self)@, t),
    {
        let x = self.var_counter;
        self.insts.push(Inst::DeclareVar(x, t));
        let n = self.insts.len();
        self.var_counter = x + 1;
        assert(self@ =~= new_var(old(self)@, t).0);
        x
    }

    pub fn call(&mut self, f: Callee, args: &Vec<usize>) -> (v: usize)
        requires
            gen_wf(old(self)@),
        ensures
            gen_wf(final(self)@),
            (final(self)@, v) == call(old(self)@, f, args@),
    {
        let mut i: usize = 0;
        while i < args.len()
            invariant
                i <= args@.len(),
                gen_wf(self@),
                self@ == push_args(old(self)@, args@, i as int),
            decreases args@.len() - i,
        {
            self.emit(Inst::CallArg(args[i]));
            i = i + 1;
        }
        self.emit(Inst::Call(f, args.len()))
    }

    pub fn call_rt1(&mut self, r: Runtime, a: usize) -> (v: usize)
        requires
            gen_wf(old(self)@),
        ensures
            gen_wf(final(self)@),
            (final(self)@, v) == call_rt(old(self)@, r, seq![a]),
    {
        let mut args: Vec<usize> = Vec::new();
        args.push(a);
        assert(args@ =~= seq![a]);
        self.call(Callee::Runtime(r), &args)
    }

    pub fn call_rt2(&mut self, r: Runtime, a: usize, b: usize) -> (v: usize)
        requires
            gen_wf(old(self)@),
        ensures
            gen_wf(final(self)@),
            (final(self)@, v) == call_rt(old(self)@, r, seq![a, b]),
    {
        let mut args: Vec<usize> = Vec::new();
        args.push(a);
        args.push(b);
        assert(args@ =~= seq![a, b]);
        self.call(Callee::Runtime(r), &args)
    }

    pub fn coerce_i8(&mut self, v: usize, t: &Type) -> (r: usize)
        requires
            gen_wf(old(self)@),
        ensures
            gen_wf(final(self)@),
            (final(self)@, r) == coerce_i8(old(self)@, v, t@),
    {
        match t {
            Type::I32 | Type::U32 => self.emit(Inst::Convert(Conv::Ireduce, ClType::I8, v)),
            _ => v,
        }
    }

    pub fn coerce_f64(&mut self, v: usize, t: &Type) -> (r: usize)
        requires
            gen_wf(old(self)@),
        ensures
            gen_wf(final(self)@),
            (final(self)@, r) == coerce_f64(old(self)@, v, t@),
    {
        match t {
            Type::F32 => self.emit(Inst::Convert(Conv::Fpromote, ClType::F64, v)),
            Type::I32 | Type::U32 | Type::I64 => self.emit(
                Inst::Convert(Conv::FcvtFromSint, ClType::F64, v),
            ),
            _ => v,
        }
    }

    pub fn extend_i64(&mut self, v: usize, t: &Type) -> (r: usize)
        requires
            gen_wf(old(self)@),
        ensures
            gen_wf(final(self)@),
            (final(self)@, r) == extend_i64(old(self)@, v, t@),
    {
        match t {
            Type::I32 | Type::U32 | Type::Bool => self.emit(
                Inst::Convert(Conv::Uextend, ClType::I64, v),
            ),
            _ => v,
        }
    }

    pub fn coerce_val(&mut self, v: usize, from: &Type, to: &Type) -> (r: usize)
        requires
            gen_wf(old(self)@),
        ensures
            gen_wf(final(self)@),
            (final(self)@, r) == coerce_val(old(self)@, v, from@, to@),
    {
        if from.same_as(to) {
            return v;
        }
        match (from, to) {
            (Type::I32, Type::I64) => self.emit(Inst::Convert(Conv::Sextend, ClType::I64, v)),
            (Type::I64, Type::I32) => self.emit(Inst::Convert(Conv::Ireduce, ClType::I32, v)),
            (Type::F32, Type::F64) => self.emit(Inst::Convert(Conv::Fpromote, ClType::F64, v)),
            (Type::F64, Type::F32) => self.emit(Inst::Convert(Conv::Fdemote, ClType::F32, v)),
            (Type::I32, Type::F64) => self.emit(Inst::Convert(Conv::FcvtFromSint, ClType::F64, v)),
            (Type::I32, Type::F32) => self.emit(Inst::Convert(Conv::FcvtFromSint, ClType::F32, v)),
            _ => v,
        }
    }

    pub fn default_value(&mut self, t: &Type) -> (r: Result<usize, String>)
        requires
            gen_wf(old(self)@),
        ensures
            gen_wf(final(self)@),
            match r {
                Ok(v) => default_value(old(self)@, t@) == Ok::<(SpecGen, usize), Seq<char>>(
                    (final(self)@, v),
                ),
                Err(m) => default_value(old(self)@, t@) == Err::<(SpecGen, usize), Seq<char>>(m@),
            },
    {
        match t {
            Type::F32 => Ok(self.emit(Inst::F32Zero)),
            Type::F64 => Ok(self.emit(Inst::F64Zero)),
            Type::I64 | Type::Str | Type::Array(_) | Type::Custom(_) => Ok(
                self.emit(Inst::Iconst(ClType::I64, 0)),
            ),
            Type::Void => Err(void_message()),
            _ => {
                let c = cl_type(t);
                Ok(self.emit(Inst::Iconst(c, 0)))
            },
        }
    }

    pub fn print_val(&mut self, v: usize, t: &Type, newline: bool)
        requires
            gen_wf(old(self)@),
        ensures
            gen_wf(final(self)@),
            final(self)@ == print_val(old(self)@, v, t@, newline),
    {
        let r = print_runtime(t, newline);
        self.call_rt1(r, v);
    }
}

fn void_message() -> (m: String)
    ensures
        m@ == void_error(),
{
    String::from_str("void has no machine type")
}

fn missing_field_message(name: &str) -> (m: String)
    ensures
        m@ == missing_field(name@),
{
    let mut m = String::from_str("field '");
    m.append(name);
    m.append("' not found in struct");
    m
}

// ─── Emitting expressions ────────────────────────────────────────────────────

impl CodeGen {
    pub fn iconst(&mut self, t: ClType, n: i64) -> (v: usize)
        requires
            gen_wf(old(self)@),
        ensures
            gen_wf(final(self)@),
            (final(self)@, v) == iconst(old(self)@, t, n),
    {
        self.emit(Inst::Iconst(t, n))
    }

    fn load_field(&mut self, ds: &Vec<Decl>, var: usize, sname: &str, field: &str) -> (r: Result<(usize, Type), String>)
        requires
            gen_wf(old(self)@),
            decls_fit(decls_view(ds@)),
        ensures
            gen_wf(final(self)@),
            expr_matches(r, load_field(decls_view(ds@), old(self)@, var, sname@, field@), final(self)@),
    {
        let empty: Vec<(String, Type)> = Vec::new();
        let fields = match find_struct(ds, sname) {
            Some(fs) => fs,
            None => &empty,
        };
        proof {
            assert(field_decls_view(empty@) =~= Seq::<(Seq<char>, SpecType)>::empty());
        }
        if !has_field(fields, field) {
            return Err(missing_field_message(field));
        }
        let (off, fty) = field_offset(fields, field);
        if fty.is_void() {
            return Err(void_message());
        }
        let ct = cl_type(&fty);
        let base = self.emit(Inst::UseVar(var));
        let addr = self.emit(Inst::IaddImm(base, off as i64));
        let v = self.emit(Inst::Load(ct, addr));
        Ok((v, fty))
    }

    /// The code for a unary expression.
    fn emit_unary(&mut self, ds: &Vec<Decl>, e: &Expr) -> (r: Result<(usize, Type), String>)
        requires
            gen_wf(old(self)@),
            decls_fit(decls_view(ds@)),
            e is Unary,
        ensures
            gen_wf(final(self)@),
            expr_matches(r, gen_expr(decls_view(ds@), old(self)@, e@), final(self)@),
        decreases e@, 1int, 0int,
    {
        match e {
            Expr::Unary { op, expr } => {
                let (v, t) = match self.emit_expr(ds, expr) {
                    Err(m) => {
                        return Err(m);
                    },
                    Ok(p) => p,
                };
                match op {
                    UnaryOp::Neg => {
                        if is_float(&t) {
                            let r = self.emit(Inst::Fneg(v));
                            Ok((r, t))
                        } else if t.is_void() {
                            Err(void_message())
                        } else {
                            let ct = cl_type(&t);
                            let z = self.iconst(ct, 0);
                            let r = self.emit(Inst::Binary(BinInst::Isub, z, v));
                            Ok((r, t))
                        }
                    },
                    UnaryOp::Not => {
                        let one = self.iconst(ClType::I8, 1);
                        let v8 = self.coerce_i8(v, &t);
                        let r = self.emit(Inst::Binary(BinInst::Bxor, v8, one));
                        Ok((r, Type::Bool))
                    },
                }
            },
            _ => Err(String::new()),
        }
    }

    /// The code for a field read.
    fn emit_field(&mut self, ds: &Vec<Decl>, e: &Expr) -> (r: Result<(usize, Type), String>)
        requires
            gen_wf(old(self)@),
            decls_fit(decls_view(ds@)),
            e is Field,
        ensures
            gen_wf(final(self)@),
            expr_matches(r, gen_expr(decls_view(ds@), old(self)@, e@), final(self)@),
        decreases e@, 1int, 0int,
    {
        match e {
            Expr::Field { object, field } => {
                proof {
                    reveal_with_fuel(expr_view, 2);
                }
                match &**object {
                    Expr::Ident(obj) => {
                        proof {
                            reveal_with_fuel(expr_view, 2);
                        }
                        assert(e@ == (SpecExpr::Field {
                            object: Box::new(SpecExpr::Ident(obj@)),
                            field: field@,
                        }));
                        match self.vars.get(obj.as_str()) {
                            Some(entry) => {
                                let var = entry.var;
                                match &entry.ty {
                                    Type::Custom(sname) => {
                                        let sname = sname.clone();
                                        self.load_field(ds, var, sname.as_str(), field.as_str())
                                    },
                                    _ => Err(String::from_str("field access on non-struct")),
                                }
                            },
                            None => {
                                let v = self.iconst(ClType::I32, 0);
                                Ok((v, Type::I32))
                            },
                        }
                    },
                    _ => {
                        let v = self.iconst(ClType::I32, 0);
                        Ok((v, Type::I32))
                    },
                }
            },
            _ => Err(String::new()),
        }
    }

    /// The code for an element read.
    fn emit_index(&mut self, ds: &Vec<Decl>, e: &Expr) -> (r: Result<(usize, Type), String>)
        requires
            gen_wf(old(self)@),
            decls_fit(decls_view(ds@)),
            e is Index,
        ensures
            gen_wf(final(self)@),
            expr_matches(r, gen_expr(decls_view(ds@), old(self)@, e@), final(self)@),
        decreases e@, 1int, 0int,
    {
        match e {
            Expr::Index { array, index } => {
                proof {
                    reveal_with_fuel(expr_view, 2);
                }
                match &**array {
                    Expr::Ident(arr) => {
                        proof {
                            reveal_with_fuel(expr_view, 2);
                        }
                        assert(e@ == (SpecExpr::Index {
                            array: Box::new(SpecExpr::Ident(arr@)),
                            index: Box::new(expr_view(**index)),
                        }));
                        let found: Option<(usize, Type)> = match self.vars.get(arr.as_str()) {
                            Some(entry) => Some(
                                (
                                    entry.var,
                                    match &entry.arr_elem_ty {
                                        Some(t) => t.duplicate(),
                                        None => Type::I32,
                                    },
                                ),
                            ),
                            None => None,
                        };
                        match found {
                            None => {
                                let v = self.iconst(ClType::I32, 0);
                                Ok((v, Type::I32))
                            },
                            Some((var, et)) => {
                                if et.is_void() {
                                    Err(void_message())
                                } else {
                                    let ec = cl_type(&et);
                                    match self.emit_expr(ds, index) {
                                        Err(m) => Err(m),
                                        Ok((iv, it)) => {
                                            let base = self.emit(Inst::UseVar(var));
                                            let i64v = self.extend_i64(iv, &it);
                                            let stride = self.iconst(
                                                ClType::I64,
                                                elem_size(&et) as i64,
                                            );
                                            let off = self.emit(
                                                Inst::Binary(BinInst::Imul, i64v, stride),
                                            );
                                            let addr = self.emit(Inst::Binary(BinInst::Iadd, base, off));
                                            let v = self.emit(Inst::Load(ec, addr));
                                            Ok((v, et))
                                        },
                                    }
                                }
                            },
                        }
                    },
                    _ => {
                        let v = self.iconst(ClType::I32, 0);
                        Ok((v, Type::I32))
                    },
                }
            },
            _ => Err(String::new()),
        }
    }

    /// The code for a struct literal.
    fn emit_struct_lit(&mut self, ds: &Vec<Decl>, e: &Expr) -> (r: Result<(usize, Type), String>)
        requires
            gen_wf(old(self)@),
            decls_fit(decls_view(ds@)),
            e is StructLit,
        ensures
            gen_wf(final(self)@),
            expr_matches(r, gen_expr(decls_view(ds@), old(self)@, e@), final(self)@),
        decreases e@, 1int, 0int,
    {
        match e {
            Expr::StructLit { name, fields } => {
                let empty: Vec<(String, Type)> = Vec::new();
                let meta = match find_struct(ds, name.as_str()) {
                    Some(fs) => fs,
                    None => &empty,
                };
                proof {
                    assert(field_decls_view(empty@) =~= Seq::<(Seq<char>, SpecType)>::empty());
                }
                let total = struct_size(meta);
                let shift = align_shift(largest_field(meta));
                let slot = self.new_slot(total, shift);
                match self.emit_struct_fields(ds, e, meta, slot) {
                    Err(m) => {
                        return Err(m);
                    },
                    Ok(_) => {},
                }
                let v = self.emit(Inst::StackAddr(slot));
                Ok((v, Type::Custom(name.clone())))
            },
            _ => Err(String::new()),
        }
    }

    /// The code for a format string, which prints as it goes and yields empty text.
    fn emit_fstr_expr(&mut self, ds: &Vec<Decl>, e: &Expr) -> (r: Result<(usize, Type), String>)
        requires
            gen_wf(old(self)@),
            decls_fit(decls_view(ds@)),
            e is FStr,
        ensures
            gen_wf(final(self)@),
            expr_matches(r, gen_expr(decls_view(ds@), old(self)@, e@), final(self)@),
        decreases e@, 1int, 0int,
    {
        match e {
            Expr::FStr(content) => {
                match self.emit_fstr(ds, content.as_str()) {
                    Err(m) => {
                        return Err(m);
                    },
                    Ok(_) => {},
                }
                let ghost g1 = self@;
                let k = self.strings.len();
                self.strings.push(String::new());
                assert(texts_view(self.strings@) =~= g1.strings.push(Seq::empty()));
                let v = self.emit(Inst::StrConst(k));
                Ok((v, Type::Str))
            },
            _ => Err(String::new()),
        }
    }

    /// Emits the code for `e`: the value that holds its result, and the result's type.
    pub fn emit_expr(&mut self, ds: &Vec<Decl>, e: &Expr) -> (r: Result<(usize, Type), String>)
        requires
            gen_wf(old(self)@),
            decls_fit(decls_view(ds@)),
        ensures
            gen_wf(final(self)@),
            expr_matches(r, gen_expr(decls_view(ds@), old(self)@, e@), final(self)@),
        decreases e@, 2int, 0int,
    {
        let ghost sds = decls_view(ds@);
        match e {
            Expr::Int(n) => {
                let v = self.iconst(ClType::I32, *n);
                Ok((v, Type::I32))
            },
            Expr::Float(t) => {
                let k = self.floats.len();
                self.floats.push(t.clone());
                assert(texts_view(self.floats@) =~= texts_view(old(self).floats@).push(t@));
                let v = self.emit(Inst::F64Const(k));
                Ok((v, Type::F64))
            },
            Expr::Bool(b) => {
                let v = self.iconst(
                    ClType::I8,
                    if *b {
                        1
                    } else {
                        0
                    },
                );
                Ok((v, Type::Bool))
            },
            Expr::Str(t) => {
                let k = self.strings.len();
                self.strings.push(t.clone());
                assert(texts_view(self.strings@) =~= texts_view(old(self).strings@).push(t@));
                let v = self.emit(Inst::StrConst(k));
                Ok((v, Type::Str))
            },
            Expr::FStr(_) => self.emit_fstr_expr(ds, e),
            Expr::Ident(name) => {
                match self.vars.get(name.as_str()) {
                    Some(entry) => {
                        let var = entry.var;
                        let ty = entry.ty.duplicate();
                        let v = self.emit(Inst::UseVar(var));
                        Ok((v, ty))
                    },
                    None => {
                        let v = self.iconst(ClType::I32, 0);
                        Ok((v, Type::I32))
                    },
                }
            },
            Expr::Binary { .. } => self.emit_binary(ds, e),
            Expr::Unary { .. } => self.emit_unary(ds, e),
            Expr::Call { .. } => self.emit_call(ds, e),
            Expr::Field { .. } => self.emit_field(ds, e),
            Expr::Index { .. } => self.emit_index(ds, e),
            Expr::Array(_) => Err(String::from_str("Array literal must appear as VarDecl value")),
            Expr::StructLit { .. } => self.emit_struct_lit(ds, e),
        }
    }
}

/// Whether some field is named `name`.
fn has_field(fields: &Vec<(String, Type)>, name: &str) -> (r: bool)
    ensures
        r == (field_index(field_decls_view(fields@), name@, 0) is Some),
{
    let ghost fs = field_decls_view(fields@);
    let mut i: usize = 0;
    while i < fields.len()
        invariant
            fs == field_decls_view(fields@),
            i <= fields@.len(),
            field_index(fs, name@, i as int) == field_index(fs, name@, 0),
        decreases fields@.len() - i,
    {
        assert(fs[i as int] == (fields@[i as int].0@, fields@[i as int].1@));
        if string_is(fields[i].0.as_str(), name) {
            return true;
        }
        i = i + 1;
    }
    false
}

impl CodeGen {
    fn binary_inst(&mut self, op: BinaryOp, lv: usize, rv: usize, lt: Type) -> (r: (usize, Type))
        requires
            gen_wf(old(self)@),
        ensures
            gen_wf(final(self)@),
            (final(self)@, r.0, r.1@) == binary_inst(old(self)@, op, lv, rv, lt@),
    {
        let float = is_float(&lt);
        let unsig = is_unsigned(&lt);
        match op {
            BinaryOp::Add => {
                let v = self.emit(
                    Inst::Binary(
                        if float {
                            BinInst::Fadd
                        } else {
                            BinInst::Iadd
                        },
                        lv,
                        rv,
                    ),
                );
                (v, lt)
            },
            BinaryOp::Sub => {
                let v = self.emit(
                    Inst::Binary(
                        if float {
                            BinInst::Fsub
                        } else {
                            BinInst::Isub
                        },
                        lv,
                        rv,
                    ),
                );
                (v, lt)
            },
            BinaryOp::Mul => {
                let v = self.emit(
                    Inst::Binary(
                        if float {
                            BinInst::Fmul
                        } else {
                            BinInst::Imul
                        },
                        lv,
                        rv,
                    ),
                );
                (v, lt)
            },
            BinaryOp::Div => {
                let v = self.emit(
                    Inst::Binary(
                        if float {
                            BinInst::Fdiv
                        } else if unsig {
                            BinInst::Udiv
                        } else {
                            BinInst::Sdiv
                        },
                        lv,
                        rv,
                    ),
                );
                (v, lt)
            },
            BinaryOp::Mod => {
                if float {
                    let v = self.call_rt2(Runtime::FmodF64, lv, rv);
                    (v, lt)
                } else {
                    let v = self.emit(
                        Inst::Binary(
                            if unsig {
                                BinInst::Urem
                            } else {
                                BinInst::Srem
                            },
                            lv,
                            rv,
                        ),
                    );
                    (v, lt)
                }
            },
            BinaryOp::Eq => {
                let v = self.emit(
                    if float {
                        Inst::FloatCompare(FloatCond::Equal, lv, rv)
                    } else {
                        Inst::IntCompare(IntCond::Equal, lv, rv)
                    },
                );
                (v, Type::Bool)
            },
            BinaryOp::NotEq => {
                let v = self.emit(
                    if float {
                        Inst::FloatCompare(FloatCond::NotEqual, lv, rv)
                    } else {
                        Inst::IntCompare(IntCond::NotEqual, lv, rv)
                    },
                );
                (v, Type::Bool)
            },
            BinaryOp::Lt => {
                let v = self.emit(
                    if float {
                        Inst::FloatCompare(FloatCond::LessThan, lv, rv)
                    } else if unsig {
                        Inst::IntCompare(IntCond::UnsignedLessThan, lv, rv)
                    } else {
                        Inst::IntCompare(IntCond::SignedLessThan, lv, rv)
                    },
                );
                (v, Type::Bool)
            },
            BinaryOp::Le => {
                let v = self.emit(
                    if float {
                        Inst::FloatCompare(FloatCond::LessThanOrEqual, lv, rv)
                    } else if unsig {
                        Inst::IntCompare(IntCond::UnsignedLessThanOrEqual, lv, rv)
                    } else {
                        Inst::IntCompare(IntCond::SignedLessThanOrEqual, lv, rv)
                    },
                );
                (v, Type::Bool)
            },
            BinaryOp::Gt => {
                let v = self.emit(
                    if float {
                        Inst::FloatCompare(FloatCond::GreaterThan, lv, rv)
                    } else if unsig {
                        Inst::IntCompare(IntCond::UnsignedGreaterThan, lv, rv)
                    } else {
                        Inst::IntCompare(IntCond::SignedGreaterThan, lv, rv)
                    },
                );
                (v, Type::Bool)
            },
            BinaryOp::Ge => {
                let v = self.emit(
                    if float {
                        Inst::FloatCompare(FloatCond::GreaterThanOrEqual, lv, rv)
                    } else if unsig {
                        Inst::IntCompare(IntCond::UnsignedGreaterThanOrEqual, lv, rv)
                    } else {
                        Inst::IntCompare(IntCond::SignedGreaterThanOrEqual, lv, rv)
                    },
                );
                (v, Type::Bool)
            },
            BinaryOp::And | BinaryOp::Or => {
                let la = self.coerce_i8(lv, &lt);
                let ra = self.coerce_i8(rv, &lt);
                let v = self.emit(
                    Inst::Binary(
                        if op == BinaryOp::And {
                            BinInst::Band
                        } else {
                            BinInst::Bor
                        },
                        la,
                        ra,
                    ),
                );
                (v, Type::Bool)
            },
            BinaryOp::BitAnd => {
                let v = self.emit(Inst::Binary(BinInst::Band, lv, rv));
                (v, lt)
            },
            BinaryOp::BitOr => {
                let v = self.emit(Inst::Binary(BinInst::Bor, lv, rv));
                (v, lt)
            },
            BinaryOp::BitXor => {
                let v = self.emit(Inst::Binary(BinInst::Bxor, lv, rv));
                (v, lt)
            },
            BinaryOp::Shl => {
                let v = self.emit(Inst::Binary(BinInst::Ishl, lv, rv));
                (v, lt)
            },
            BinaryOp::Shr => {
                let v = self.emit(
                    Inst::Binary(
                        if unsig {
                            BinInst::Ushr
                        } else {
                            BinInst::Sshr
                        },
                        lv,
                        rv,
                    ),
                );
                (v, lt)
            },
        }
    }

    fn emit_binary(&mut self, ds: &Vec<Decl>, e: &Expr) -> (r: Result<(usize, Type), String>)
        requires
            gen_wf(old(self)@),
            decls_fit(decls_view(ds@)),
        ensures
            gen_wf(final(self)@),
            expr_matches(r, gen_binary(decls_view(ds@), old(self)@, e@), final(self)@),
        decreases e@, 1int, 0int,
    {
        match e {
            Expr::Binary { left, op, right } => {
                let (lv, lt) = match self.emit_expr(ds, left) {
                    Err(m) => {
                        return Err(m);
                    },
                    Ok(p) => p,
                };
                let (rv, _) = match self.emit_expr(ds, right) {
                    Err(m) => {
                        return Err(m);
                    },
                    Ok(p) => p,
                };
                Ok(self.binary_inst(*op, lv, rv, lt))
            },
            _ => Err(String::new()),
        }
    }

    fn emit_struct_fields(&mut self, ds: &Vec<Decl>, e: &Expr, meta: &Vec<(String, Type)>, slot: usize) -> (r: Result<(), String>)
        requires
            gen_wf(old(self)@),
            decls_fit(decls_view(ds@)),
            layout_fits(field_decls_view(meta@)),
        ensures
            gen_wf(final(self)@),
            step_matches(
                r,
                gen_struct_fields(decls_view(ds@), old(self)@, e@, field_decls_view(meta@), slot, 0),
                final(self)@,
            ),
        decreases e@, 0int, 0int,
    {
        let ghost sds = decls_view(ds@);
        let ghost mv = field_decls_view(meta@);
        match e {
            Expr::StructLit { name, fields } => {
                proof {
                    lemma_field_inits_view(fields@);
                }
                let mut i: usize = 0;
                while i < fields.len()
                    invariant
                        gen_wf(self@),
                        decls_fit(sds),
                        sds == decls_view(ds@),
                        mv == field_decls_view(meta@),
                        layout_fits(mv),
                        i <= fields@.len(),
                        e@ == (SpecExpr::StructLit { name: name@, fields: field_inits_view(fields@) }),
                        field_inits_view(fields@).len() == fields@.len(),
                        forall|k: int|
                            0 <= k < fields@.len() ==> #[trigger] field_inits_view(fields@)[k] == (
                                fields@[k].0@,
                                expr_view(fields@[k].1),
                            ),
                        gen_struct_fields(sds, old(self)@, e@, mv, slot, 0) == gen_struct_fields(
                            sds,
                            self@,
                            e@,
                            mv,
                            slot,
                            i as int,
                        ),
                    decreases fields@.len() - i,
                {
                    assert(field_inits_view(fields@)[i as int] == (
                        fields@[i as int].0@,
                        expr_view(fields@[i as int].1),
                    ));
                    let (v, vt) = match self.emit_expr(ds, &fields[i].1) {
                        Err(m) => {
                            return Err(m);
                        },
                        Ok(p) => p,
                    };
                    if !has_field(meta, fields[i].0.as_str()) {
                        return Err(missing_field_message(fields[i].0.as_str()));
                    }
                    let (off, fty) = field_offset(meta, fields[i].0.as_str());
                    let cv = self.coerce_val(v, &vt, &fty);
                    self.emit(Inst::StackStore(cv, slot, off));
                    i = i + 1;
                }
                Ok(())
            },
            _ => Ok(()),
        }
    }
}

impl CodeGen {
    fn emit_call(&mut self, ds: &Vec<Decl>, e: &Expr) -> (r: Result<(usize, Type), String>)
        requires
            gen_wf(old(self)@),
            decls_fit(decls_view(ds@)),
        ensures
            gen_wf(final(self)@),
            expr_matches(r, gen_call(decls_view(ds@), old(self)@, e@), final(self)@),
        decreases e@, 1int, 0int,
    {
        let ghost sds = decls_view(ds@);
        match e {
            Expr::Call { name, args } => {
                proof {
                    lemma_exprs_view(args@);
                    reveal_strlit("println");
                    reveal_strlit("print");
                    reveal_strlit("len");
                    reveal_strlit("abs");
                    reveal_strlit("sqrt");
                    reveal_strlit("pow");
                    reveal_strlit("to_string");
                }
                let n = name.as_str();
                if string_is(n, "println") || string_is(n, "print") {
                    let newline = string_is(n, "println");
                    if newline && args.len() == 0 {
                        let none: Vec<usize> = Vec::new();
                        assert(none@ =~= Seq::<usize>::empty());
                        self.call(Callee::Runtime(Runtime::PrintlnNewline), &none);
                    } else {
                        match self.emit_print_args(ds, e, newline) {
                            Err(m) => {
                                return Err(m);
                            },
                            Ok(_) => {},
                        }
                    }
                    let v = self.iconst(ClType::I32, 0);
                    return Ok((v, Type::Void));
                }
                if string_is(n, "len") && args.len() == 1 {
                    let k: i64 = match &args[0] {
                        Expr::Ident(a) => match self.vars.get(a.as_str()) {
                            Some(entry) => match entry.arr_size {
                                Some(sz) => sz as i64,
                                None => 0,
                            },
                            None => 0,
                        },
                        _ => 0,
                    };
                    let v = self.iconst(ClType::I32, k);
                    return Ok((v, Type::I32));
                }
                if (string_is(n, "abs") || string_is(n, "sqrt") || string_is(n, "to_string"))
                    && args.len() == 1 {
                    assert(exprs_view(args@)[0] == args@[0]@);
                    let (v, t) = match self.emit_expr(ds, &args[0]) {
                        Err(m) => {
                            return Err(m);
                        },
                        Ok(p) => p,
                    };
                    if string_is(n, "abs") {
                        if is_float(&t) {
                            let dv = self.coerce_f64(v, &t);
                            let r = self.call_rt1(Runtime::AbsF64, dv);
                            return Ok((r, Type::F64));
                        } else {
                            let r = self.call_rt1(Runtime::AbsI32, v);
                            return Ok((r, Type::I32));
                        }
                    } else if string_is(n, "sqrt") {
                        let dv = self.coerce_f64(v, &t);
                        let r = self.call_rt1(Runtime::SqrtF64, dv);
                        return Ok((r, Type::F64));
                    } else {
                        let a = match t {
                            Type::F32 => self.coerce_f64(v, &t),
                            _ => v,
                        };
                        let rt = to_string_runtime(&t);
                        let r = self.call_rt1(rt, a);
                        return Ok((r, Type::Str));
                    }
                }
                if string_is(n, "pow") && args.len() == 2 {
                    assert(exprs_view(args@)[0] == args@[0]@);
                    assert(exprs_view(args@)[1] == args@[1]@);
                    let (v0, t0) = match self.emit_expr(ds, &args[0]) {
                        Err(m) => {
                            return Err(m);
                        },
                        Ok(p) => p,
                    };
                    let (v1, t1) = match self.emit_expr(ds, &args[1]) {
                        Err(m) => {
                            return Err(m);
                        },
                        Ok(p) => p,
                    };
                    let d0 = self.coerce_f64(v0, &t0);
                    let d1 = self.coerce_f64(v1, &t1);
                    let r = self.call_rt2(Runtime::PowF64, d0, d1);
                    return Ok((r, Type::F64));
                }
                match lib_arity_of(n) {
                    Some(k) => {
                        if k == args.len() {
                            let a = match self.emit_typed_args(ds, e) {
                                Err(m) => {
                                    return Err(m);
                                },
                                Ok(a) => a,
                            };
                            proof {
                                assert(typed_view(a@).len() == a@.len());
                            }
                            return self.lib_call(n, &a);
                        }
                    },
                    None => {},
                }
                let (params, ret) = signature_of(ds, n);
                let vals = match self.emit_user_args(ds, e, &params) {
                    Err(m) => {
                        return Err(m);
                    },
                    Ok(vs) => vs,
                };
                match resolve_callee(ds, n) {
                    Some(f) => {
                        if ret.is_void() {
                            self.call(f, &vals);
                            let v = self.iconst(ClType::I32, 0);
                            Ok((v, Type::Void))
                        } else {
                            let r = self.call(f, &vals);
                            Ok((r, ret))
                        }
                    },
                    None => {
                        let v = self.iconst(ClType::I32, 0);
                        Ok((v, Type::Void))
                    },
                }
            },
            _ => Err(String::new()),
        }
    }

    /// The arguments of call `e`, evaluated in order, with their types.
    pub(crate) fn emit_typed_args(&mut self, ds: &Vec<Decl>, e: &Expr) -> (r: Result<Vec<(usize, Type)>, String>)
        requires
            gen_wf(old(self)@),
            decls_fit(decls_view(ds@)),
        ensures
            gen_wf(final(self)@),
            match r {
                Ok(a) => gen_typed_args(decls_view(ds@), old(self)@, e@, 0, Seq::empty()) == Ok::<
                    (SpecGen, Seq<(usize, SpecType)>),
                    Seq<char>,
                >((final(self)@, typed_view(a@))) && (e@ matches SpecExpr::Call { args, .. } ==> a@.len()
                    == args.len()),
                Err(m) => gen_typed_args(decls_view(ds@), old(self)@, e@, 0, Seq::empty()) == Err::<
                    (SpecGen, Seq<(usize, SpecType)>),
                    Seq<char>,
                >(m@),
            },
        decreases e@, 0int, 0int,
    {
        let ghost sds = decls_view(ds@);
        let mut out: Vec<(usize, Type)> = Vec::new();
        proof {
            assert(typed_view(out@) =~= Seq::<(usize, SpecType)>::empty());
        }
        match e {
            Expr::Call { name, args } => {
                proof {
                    lemma_exprs_view(args@);
                }
                let mut i: usize = 0;
                while i < args.len()
                    invariant
                        gen_wf(self@),
                        decls_fit(sds),
                        sds == decls_view(ds@),
                        i <= args@.len(),
                        e@ == (SpecExpr::Call { name: name@, args: exprs_view(args@) }),
                        exprs_view(args@).len() == args@.len(),
                        forall|k: int|
                            0 <= k < args@.len() ==> #[trigger] exprs_view(args@)[k] == expr_view(
                                args@[k],
                            ),
                        out@.len() == i,
                        gen_typed_args(sds, old(self)@, e@, 0, Seq::empty()) == gen_typed_args(
                            sds,
                            self@,
                            e@,
                            i as int,
                            typed_view(out@),
                        ),
                    decreases args@.len() - i,
                {
                    assert(exprs_view(args@)[i as int] == expr_view(args@[i as int]));
                    let (v, t) = match self.emit_expr(ds, &args[i]) {
                        Err(m) => {
                            return Err(m);
                        },
                        Ok(p) => p,
                    };
                    let ghost before = typed_view(out@);
                    let ghost tv = t@;
                    out.push((v, t));
                    proof {
                        assert(typed_view(out@) =~= before.push((v, tv)));
                    }
                    i = i + 1;
                }
                Ok(out)
            },
            _ => Ok(out),
        }
    }

    fn emit_print_args(&mut self, ds: &Vec<Decl>, e: &Expr, newline_last: bool) -> (r: Result<(), String>)
        requires
            gen_wf(old(self)@),
            decls_fit(decls_view(ds@)),
        ensures
            gen_wf(final(self)@),
            step_matches(r, gen_print_args(decls_view(ds@), old(self)@, e@, 0, newline_last), final(self)@),
        decreases e@, 0int, 0int,
    {
        let ghost sds = decls_view(ds@);
        match e {
            Expr::Call { name, args } => {
                proof {
                    lemma_exprs_view(args@);
                }
                let mut i: usize = 0;
                while i < args.len()
                    invariant
                        gen_wf(self@),
                        decls_fit(sds),
                        sds == decls_view(ds@),
                        i <= args@.len(),
                        e@ == (SpecExpr::Call { name: name@, args: exprs_view(args@) }),
                        exprs_view(args@).len() == args@.len(),
                        forall|k: int|
                            0 <= k < args@.len() ==> #[trigger] exprs_view(args@)[k] == expr_view(
                                args@[k],
                            ),
                        gen_print_args(sds, old(self)@, e@, 0, newline_last) == gen_print_args(
                            sds,
                            self@,
                            e@,
                            i as int,
                            newline_last,
                        ),
                    decreases args@.len() - i,
                {
                    assert(exprs_view(args@)[i as int] == expr_view(args@[i as int]));
                    let (v, t) = match self.emit_expr(ds, &args[i]) {
                        Err(m) => {
                            return Err(m);
                        },
                        Ok(p) => p,
                    };
                    self.print_val(v, &t, newline_last && i == args.len() - 1);
                    i = i + 1;
                }
                Ok(())
            },
            _ => Ok(()),
        }
    }

    fn emit_user_args(&mut self, ds: &Vec<Decl>, e: &Expr, params: &Vec<Type>) -> (r: Result<Vec<usize>, String>)
        requires
            gen_wf(old(self)@),
            decls_fit(decls_view(ds@)),
        ensures
            gen_wf(final(self)@),
            match r {
                Ok(vs) => gen_user_args(
                    decls_view(ds@),
                    old(self)@,
                    e@,
                    params@.map_values(|t: Type| t@),
                    0,
                    Seq::empty(),
                ) == Ok::<(SpecGen, Seq<usize>), Seq<char>>((final(self)@, vs@)),
                Err(m) => gen_user_args(
                    decls_view(ds@),
                    old(self)@,
                    e@,
                    params@.map_values(|t: Type| t@),
                    0,
                    Seq::empty(),
                ) == Err::<(SpecGen, Seq<usize>), Seq<char>>(m@),
            },
        decreases e@, 0int, 0int,
    {
        let ghost sds = decls_view(ds@);
        let ghost ps = params@.map_values(|t: Type| t@);
        let mut vals: Vec<usize> = Vec::new();
        match e {
            Expr::Call { name, args } => {
                proof {
                    lemma_exprs_view(args@);
                }
                let mut i: usize = 0;
                while i < args.len()
                    invariant
                        gen_wf(self@),
                        decls_fit(sds),
                        sds == decls_view(ds@),
                        ps == params@.map_values(|t: Type| t@),
                        i <= args@.len(),
                        e@ == (SpecExpr::Call { name: name@, args: exprs_view(args@) }),
                        exprs_view(args@).len() == args@.len(),
                        forall|k: int|
                            0 <= k < args@.len() ==> #[trigger] exprs_view(args@)[k] == expr_view(
                                args@[k],
                            ),
                        gen_user_args(sds, old(self)@, e@, ps, 0, Seq::empty()) == gen_user_args(
                            sds,
                            self@,
                            e@,
                            ps,
                            i as int,
                            vals@,
                        ),
                    decreases args@.len() - i,
                {
                    assert(exprs_view(args@)[i as int] == expr_view(args@[i as int]));
                    let (v, t) = match self.emit_expr(ds, &args[i]) {
                        Err(m) => {
                            return Err(m);
                        },
                        Ok(p) => p,
                    };
                    let v2 = if i < params.len() {
                        self.coerce_val(v, &t, &params[i])
                    } else {
                        v
                    };
                    vals.push(v2);
                    i = i + 1;
                }
                Ok(vals)
            },
            _ => Ok(vals),
        }
    }
}

/// The parameter types and result type of the function that calls of `name` reach.
fn signature_of(ds: &Vec<Decl>, name: &str) -> (r: (Vec<Type>, Type))
    ensures
        (r.0@.map_values(|t: Type| t@), r.1@) == fn_signature_of(decls_view(ds@), name@),
{
    match find_fn(ds, name) {
        Some(k) => {
            assert(decls_view(ds@)[k as int] == ds@[k as int]@);
            match &ds[k] {
                Decl::Fn(f) => {
                    let mut ps: Vec<Type> = Vec::new();
                    let mut i: usize = 0;
                    while i < f.params.len()
                        invariant
                            i <= f.params@.len(),
                            ps@.len() == i,
                            forall|k: int| 0 <= k < i ==> (#[trigger] ps@[k])@ == f.params@[k].ty@,
                        decreases f.params@.len() - i,
                    {
                        ps.push(f.params[i].ty.duplicate());
                        i = i + 1;
                    }
                    assert(ps@.map_values(|t: Type| t@) =~= f@.params.map_values(
                        |p: crate::ast::SpecParam| p.ty,
                    ));
                    (ps, f.ret_ty.duplicate())
                },
                Decl::Struct(_) => {
                    let ps: Vec<Type> = Vec::new();
                    assert(ps@.map_values(|t: Type| t@) =~= Seq::<SpecType>::empty());
                    (ps, Type::Void)
                },
            }
        },
        None => {
            let ps: Vec<Type> = Vec::new();
            assert(ps@.map_values(|t: Type| t@) =~= Seq::<SpecType>::empty());
            (ps, Type::Void)
        },
    }
}

// ─── Emitting format strings ─────────────────────────────────────────────────

impl CodeGen {
    fn flush_text(&mut self, text: &Vec<char>)
        requires
            gen_wf(old(self)@),
        ensures
            gen_wf(final(self)@),
            final(self)@ == flush_text(old(self)@, text@),
    {
        if text.len() > 0 {
            let k = self.strings.len();
            let t = string_from_chars(text);
            self.strings.push(t);
            assert(texts_view(self.strings@) =~= texts_view(old(self).strings@).push(text@));
            let v = self.emit(Inst::StrConst(k));
            self.print_val(v, &Type::Str, false);
        }
    }

    fn emit_hole(&mut self, ds: &Vec<Decl>, name: &Vec<char>) -> (r: Result<(), String>)
        requires
            gen_wf(old(self)@),
            decls_fit(decls_view(ds@)),
        ensures
            gen_wf(final(self)@),
            step_matches(r, gen_hole(decls_view(ds@), old(self)@, name@), final(self)@),
    {
        let key = string_from_chars(name);
        match self.vars.get(key.as_str()) {
            Some(entry) => {
                let var = entry.var;
                let ty = entry.ty.duplicate();
                let v = self.emit(Inst::UseVar(var));
                self.print_val(v, &ty, false);
                return Ok(());
            },
            None => {},
        }
        match find_dot(name) {
            Some(d) => {
                let nl = name.len();
                let obj = string_from_chars(&crate::lsp::slice_chars(name, 0, d));
                let field = string_from_chars(&crate::lsp::slice_chars(name, d + 1, nl));
                let found: Option<(usize, String)> = match self.vars.get(obj.as_str()) {
                    Some(entry) => match &entry.ty {
                        Type::Custom(sname) => Some((entry.var, sname.clone())),
                        _ => None,
                    },
                    None => None,
                };
                match found {
                    None => Ok(()),
                    Some((var, sname)) => {
                        proof {
                            reveal_strlit("");
                            if sname@.len() == 0 {
                                assert(sname@ =~= ""@);
                            }
                        }
                        if string_is(sname.as_str(), "") {
                            Ok(())
                        } else {
                            match self.load_field(ds, var, sname.as_str(), field.as_str()) {
                                Err(m) => Err(m),
                                Ok((v, t)) => {
                                    self.print_val(v, &t, false);
                                    Ok(())
                                },
                            }
                        }
                    },
                }
            },
            None => {
                match parse_i64(key.as_str()) {
                    Some(n) => {
                        let v = self.iconst(ClType::I32, n);
                        self.print_val(v, &Type::I32, false);
                        Ok(())
                    },
                    None => Ok(()),
                }
            },
        }
    }

    fn emit_fstr(&mut self, ds: &Vec<Decl>, content: &str) -> (r: Result<(), String>)
        requires
            gen_wf(old(self)@),
            decls_fit(decls_view(ds@)),
        ensures
            gen_wf(final(self)@),
            step_matches(r, gen_fstr(decls_view(ds@), old(self)@, content@, 0, Seq::empty()), final(self)@),
    {
        let ghost sds = decls_view(ds@);
        let cs = chars_of(content);
        let n = cs.len();
        let mut i: usize = 0;
        let mut text: Vec<char> = Vec::new();
        assert(text@ =~= Seq::<char>::empty());
        while i < n
            invariant
                gen_wf(self@),
                decls_fit(sds),
                sds == decls_view(ds@),
                cs@ == content@,
                n == cs@.len(),
                i <= n,
                gen_fstr(sds, old(self)@, cs@, 0, Seq::empty()) == gen_fstr(
                    sds,
                    self@,
                    cs@,
                    i as int,
                    text@,
                ),
            decreases n - i,
        {
            if cs[i] == '{' {
                self.flush_text(&text);
                text = Vec::new();
                let mut j = i + 1;
                while j < n && cs[j] != '}'
                    invariant
                        i < j <= n,
                        n == cs@.len(),
                        close_brace(cs@, j as int) == close_brace(cs@, i + 1),
                    decreases n - j,
                {
                    j = j + 1;
                }
                let inner = crate::lsp::slice_chars(&cs, i + 1, j);
                let name = trim_chars(&inner);
                match self.emit_hole(ds, &name) {
                    Err(m) => {
                        return Err(m);
                    },
                    Ok(_) => {},
                }
                assert(text@ =~= Seq::<char>::empty());
                if j < n {
                    i = j + 1;
                } else {
                    i = n;
                }
            } else {
                text.push(cs[i]);
                i = i + 1;
            }
        }
        self.flush_text(&text);
        Ok(())
    }
}

fn find_dot(cs: &Vec<char>) -> (r: Option<usize>)
    ensures
        match r {
            Some(d) => first_dot(cs@, 0) == Some(d as int) && d < cs@.len(),
            None => first_dot(cs@, 0) is None,
        },
{
    let mut i: usize = 0;
    while i < cs.len()
        invariant
            i <= cs@.len(),
            first_dot(cs@, i as int) == first_dot(cs@, 0),
        decreases cs@.len() - i,
    {
        if cs[i] == '.' {
            return Some(i);
        }
        i = i + 1;
    }
    None
}

// ─── Statements ──────────────────────────────────────────────────────────────

/// The result of a statement: the state after it, and whether it ended its block with a
/// jump or a return.
pub type StmtResult = Result<(SpecGen, bool), Seq<char>>;

pub open spec fn push_loop(g: SpecGen, label: Option<Seq<char>>, exit: usize, cont: usize) -> SpecGen {
    SpecGen { breaks: g.breaks.push((label, exit)), conts: g.conts.push((label, cont)), ..g }
}

pub open spec fn pop_loop(g: SpecGen) -> SpecGen {
    SpecGen {
        breaks: if g.breaks.len() > 0 {
            g.breaks.drop_last()
        } else {
            g.breaks
        },
        conts: if g.conts.len() > 0 {
            g.conts.drop_last()
        } else {
            g.conts
        },
        ..g
    }
}

/// The block of the innermost loop among the first `n` whose label is `l`.
pub open spec fn labelled_target(stack: Seq<(Option<Seq<char>>, usize)>, l: Seq<char>, n: int) -> Option<usize>
    decreases n,
{
    if n <= 0 || n > stack.len() {
        None
    } else if stack[n - 1].0 == Some(l) {
        Some(stack[n - 1].1)
    } else {
        labelled_target(stack, l, n - 1)
    }
}

/// Where `break` or `continue` with `label` jumps: the innermost loop with that label, or
/// without a label the innermost loop.
pub open spec fn jump_target(stack: Seq<(Option<Seq<char>>, usize)>, label: Option<Seq<char>>) -> Option<usize> {
    match label {
        Some(l) => labelled_target(stack, l, stack.len() as int),
        None => if stack.len() > 0 {
            Some(stack.last().1)
        } else {
            None
        },
    }
}

pub open spec fn bind(g: SpecGen, name: Seq<char>, e: SpecVarEntry) -> SpecGen {
    SpecGen { vars: g.vars.insert(name, e), ..g }
}

pub open spec fn unbind(g: SpecGen, name: Seq<char>) -> SpecGen {
    SpecGen { vars: g.vars.remove(name), ..g }
}

pub open spec fn plain_entry(var: usize, t: SpecType) -> SpecVarEntry {
    SpecVarEntry { var, ty: t, arr_size: None, arr_elem_ty: None }
}

/// Four blocks: a loop's header, body, back edge and exit.
pub open spec fn loop_blocks(g: SpecGen) -> (SpecGen, usize, usize, usize, usize) {
    let (g1, h) = new_block(g);
    let (g2, b) = new_block(g1);
    let (g3, k) = new_block(g2);
    let (g4, x) = new_block(g3);
    (g4, h, b, k, x)
}

/// Enters block `b` and seals it.
pub open spec fn enter(g: SpecGen, b: usize) -> SpecGen {
    add_inst(add_inst(g, Inst::SwitchToBlock(b)), Inst::SealBlock(b))
}

/// Jumps to `b` unless the block already ended.
pub open spec fn jump_unless(g: SpecGen, ended: bool, b: usize) -> SpecGen {
    if ended {
        g
    } else {
        add_inst(g, Inst::Jump(b))
    }
}

/// The end of a loop: the back edge (`back`, whose code `step` adds) jumps to the header,
/// which is then sealed, and the exit block is entered.
pub open spec fn close_loop(g: SpecGen, h: usize, x: usize) -> SpecGen {
    pop_loop(enter(add_inst(add_inst(g, Inst::Jump(h)), Inst::SealBlock(h)), x))
}

/// The array element type of a declaration: the declared one, or from the first element.
pub open spec fn array_elem_type(declared: Option<SpecType>, elems: Seq<SpecExpr>) -> SpecType {
    match declared {
        Some(SpecType::Array(e)) => *e,
        _ => if elems.len() > 0 {
            match elems[0] {
                SpecExpr::Int(_) => SpecType::I32,
                SpecExpr::Float(_) => SpecType::F64,
                SpecExpr::Bool(_) => SpecType::Bool,
                SpecExpr::Str(_) => SpecType::Str,
                _ => SpecType::I32,
            }
        } else {
            SpecType::I32
        },
    }
}

/// Stores the elements from index `i` into `slot`, each `size` bytes after the previous.
pub open spec fn gen_array_elems(ds: SpecDecls, g: SpecGen, elems: Seq<SpecExpr>, slot: usize, size: int, i: int) -> Result<SpecGen, Seq<char>>
    decreases elems.len() - i,
{
    if 0 <= i < elems.len() {
        match gen_expr(ds, g, elems[i]) {
            Err(m) => Err(m),
            Ok((g1, v, _)) => gen_array_elems(
                ds,
                add_inst(g1, Inst::StackStore(v, slot, (i * size) as i32)),
                elems,
                slot,
                size,
                i + 1,
            ),
        }
    } else {
        Ok(g)
    }
}

/// `let name [: ty] = value;`
pub open spec fn gen_var_decl(ds: SpecDecls, g: SpecGen, vd: crate::ast::SpecVarDecl) -> Result<SpecGen, Seq<char>> {
    match vd.value {
        SpecExpr::Array(elems) => {
            let et = array_elem_type(vd.ty, elems);
            let size = size_of(et);
            if elems.len() * size > u32::MAX || elems.len() > u32::MAX {
                Err("array too large"@)
            } else {
                let (g1, slot) = new_slot(g, (elems.len() * size) as u32, align_shift_of(size) as u8);
                match gen_array_elems(ds, g1, elems, slot, size, 0) {
                    Err(m) => Err(m),
                    Ok(g2) => {
                        let (g3, addr) = emit_value(g2, Inst::StackAddr(slot));
                        let (g4, x) = new_var(g3, ClType::I64);
                        let g5 = add_inst(g4, Inst::DefVar(x, addr));
                        Ok(
                            bind(
                                g5,
                                vd.name,
                                SpecVarEntry {
                                    var: x,
                                    ty: SpecType::Array(Box::new(et)),
                                    arr_size: Some(elems.len() as usize),
                                    arr_elem_ty: Some(et),
                                },
                            ),
                        )
                    },
                }
            }
        },
        _ => match gen_expr(ds, g, vd.value) {
            Err(m) => Err(m),
            Ok((g1, v, inferred)) => {
                let t = match vd.ty {
                    Some(t) => t,
                    None => inferred,
                };
                match cl_type_of(t) {
                    None => Err(void_error()),
                    Some(c) => {
                        let (g2, x) = new_var(g1, c);
                        let g3 = add_inst(g2, Inst::DefVar(x, v));
                        Ok(bind(g3, vd.name, plain_entry(x, t)))
                    },
                }
            },
        },
    }
}

/// `target = value`, where `v` holds the value.
pub open spec fn gen_assign(ds: SpecDecls, g: SpecGen, target: SpecExpr, v: usize) -> Result<SpecGen, Seq<char>> {
    match target {
        SpecExpr::Ident(name) => if g.vars.contains_key(name) {
            Ok(add_inst(g, Inst::DefVar(g.vars[name].var, v)))
        } else {
            Ok(g)
        },
        SpecExpr::Field { object, field } => match *object {
            SpecExpr::Ident(obj) => if g.vars.contains_key(obj) {
                match g.vars[obj].ty {
                    SpecType::Custom(sname) => {
                        let fields = struct_fields(ds, sname);
                        match field_index(fields, field, 0) {
                            None => Err(missing_field(field)),
                            Some(k) => {
                                let (g1, base) = emit_value(g, Inst::UseVar(g.vars[obj].var));
                                let (g2, addr) = emit_value(
                                    g1,
                                    Inst::IaddImm(base, field_start(fields, k) as i64),
                                );
                                Ok(add_inst(g2, Inst::Store(v, addr)))
                            },
                        }
                    },
                    _ => Err("field assign on non-struct"@),
                }
            } else {
                Ok(g)
            },
            _ => Ok(g),
        },
        SpecExpr::Index { array, index } => match *array {
            SpecExpr::Ident(arr) => if g.vars.contains_key(arr) {
                let entry = g.vars[arr];
                let et = match entry.arr_elem_ty {
                    Some(t) => t,
                    None => SpecType::I32,
                };
                match gen_expr(ds, g, *index) {
                    Err(m) => Err(m),
                    Ok((g1, iv, _)) => {
                        let (g2, base) = emit_value(g1, Inst::UseVar(entry.var));
                        let (g3, i64v) = extend_i64(g2, iv, SpecType::I32);
                        let (g4, stride) = iconst(g3, ClType::I64, size_of(et) as i64);
                        let (g5, off) = emit_value(g4, Inst::Binary(BinInst::Imul, i64v, stride));
                        let (g6, addr) = emit_value(g5, Inst::Binary(BinInst::Iadd, base, off));
                        Ok(add_inst(g6, Inst::Store(v, addr)))
                    },
                }
            } else {
                Ok(g)
            },
            _ => Ok(g),
        },
        _ => Ok(g),
    }
}

/// `return [e]`, where `v` holds the value of `e` if there is one.
pub open spec fn gen_return_value(g: SpecGen, v: Option<usize>) -> SpecGen {
    match v {
        Some(v) => add_inst(g, Inst::Return1(v)),
        None => if g.is_main {
            let (g1, z) = iconst(g, ClType::I32, 0);
            add_inst(g1, Inst::Return1(z))
        } else {
            add_inst(g, Inst::Return0)
        },
    }
}

/// The statements from index `i`, up to the first that ends its block.
pub open spec fn gen_stmts(ds: SpecDecls, g: SpecGen, ss: Seq<crate::ast::SpecStmt>, i: int) -> StmtResult
    decreases ss, ss.len() - i,
{
    if 0 <= i < ss.len() {
        match gen_stmt(ds, g, ss[i]) {
            Err(m) => Err(m),
            Ok((g1, ended)) => if ended {
                Ok((g1, true))
            } else {
                gen_stmts(ds, g1, ss, i + 1)
            },
        }
    } else {
        Ok((g, false))
    }
}

/// The code for a statement, and whether it ends its block.
pub open spec fn gen_stmt(ds: SpecDecls, g: SpecGen, s: crate::ast::SpecStmt) -> StmtResult
    decreases s, 0int,
{
    match s {
        crate::ast::SpecStmt::VarDecl(vd) => match gen_var_decl(ds, g, vd) {
            Err(m) => Err(m),
            Ok(g1) => Ok((g1, false)),
        },
        crate::ast::SpecStmt::Assign { target, value } => match gen_expr(ds, g, value) {
            Err(m) => Err(m),
            Ok((g1, v, _)) => match gen_assign(ds, g1, target, v) {
                Err(m) => Err(m),
                Ok(g2) => Ok((g2, false)),
            },
        },
        crate::ast::SpecStmt::If { cond, then_block, else_block } => match gen_expr(ds, g, cond) {
            Err(m) => Err(m),
            Ok((g1, cv, _)) => {
                let (g2, tb) = new_block(g1);
                let (g3, eb) = new_block(g2);
                let (g4, mb) = new_block(g3);
                let g5 = enter(add_inst(g4, Inst::Brif(cv, tb, eb)), tb);
                match gen_stmts(ds, g5, then_block, 0) {
                    Err(m) => Err(m),
                    Ok((g6, t_end)) => {
                        let g7 = enter(jump_unless(g6, t_end, mb), eb);
                        let r = match else_block {
                            Some(es) => gen_stmts(ds, g7, es, 0),
                            None => Ok((g7, false)),
                        };
                        match r {
                            Err(m) => Err(m),
                            Ok((g8, e_end)) => Ok((enter(jump_unless(g8, e_end, mb), mb), false)),
                        }
                    },
                }
            },
        },
        crate::ast::SpecStmt::While { label, cond, body } => {
            let (g1, h, b, k, x) = loop_blocks(g);
            let g2 = push_loop(add_inst(add_inst(g1, Inst::Jump(h)), Inst::SwitchToBlock(h)), label, x, k);
            match gen_expr(ds, g2, cond) {
                Err(m) => Err(m),
                Ok((g3, cv, _)) => match gen_stmts(ds, enter(add_inst(g3, Inst::Brif(cv, b, x)), b), body, 0) {
                    Err(m) => Err(m),
                    Ok((g4, ended)) => Ok((close_loop(enter(jump_unless(g4, ended, k), k), h, x), false)),
                },
            }
        },
        crate::ast::SpecStmt::For { label, var, iter, body } => match iter {
            crate::ast::SpecForIter::Range { start, end, inclusive } => {
                let (g1, lv) = new_var(g, ClType::I32);
                match gen_expr(ds, g1, start) {
                    Err(m) => Err(m),
                    Ok((g2, sv, _)) => {
                        let g3 = bind(add_inst(g2, Inst::DefVar(lv, sv)), var, plain_entry(lv, SpecType::I32));
                        let (g4, h, b, k, x) = loop_blocks(g3);
                        let g5 = push_loop(add_inst(add_inst(g4, Inst::Jump(h)), Inst::SwitchToBlock(h)), label, x, k);
                        let (g6, cur) = emit_value(g5, Inst::UseVar(lv));
                        match gen_expr(ds, g6, end) {
                            Err(m) => Err(m),
                            Ok((g7, ev, _)) => {
                                let (g8, c) = emit_value(
                                    g7,
                                    Inst::IntCompare(
                                        if inclusive {
                                            IntCond::SignedLessThanOrEqual
                                        } else {
                                            IntCond::SignedLessThan
                                        },
                                        cur,
                                        ev,
                                    ),
                                );
                                match gen_stmts(ds, enter(add_inst(g8, Inst::Brif(c, b, x)), b), body, 0) {
                                    Err(m) => Err(m),
                                    Ok((g9, ended)) => {
                                        let g10 = enter(jump_unless(g9, ended, k), k);
                                        let (g11, cur2) = emit_value(g10, Inst::UseVar(lv));
                                        let (g12, one) = iconst(g11, ClType::I32, 1);
                                        let (g13, next) = emit_value(g12, Inst::Binary(BinInst::Iadd, cur2, one));
                                        let g14 = add_inst(g13, Inst::DefVar(lv, next));
                                        Ok((unbind(close_loop(g14, h, x), var), false))
                                    },
                                }
                            },
                        }
                    },
                }
            },
            crate::ast::SpecForIter::Expr(it) => gen_for_each(ds, g, label, var, it, body),
        },
        crate::ast::SpecStmt::Return(e) => match e {
            Some(e) => match gen_expr(ds, g, e) {
                Err(m) => Err(m),
                Ok((g1, v, _)) => Ok((gen_return_value(g1, Some(v)), true)),
            },
            None => Ok((gen_return_value(g, None), true)),
        },
        crate::ast::SpecStmt::Break(l) => match jump_target(g.breaks, l) {
            Some(b) => Ok((add_inst(g, Inst::Jump(b)), true)),
            None => Ok((g, false)),
        },
        crate::ast::SpecStmt::Continue(l) => match jump_target(g.conts, l) {
            Some(b) => Ok((add_inst(g, Inst::Jump(b)), true)),
            None => Ok((g, false)),
        },
        crate::ast::SpecStmt::Yield(e) => match g.ctx_var {
            Some(cx) => match gen_expr(ds, g, e) {
                Err(m) => Err(m),
                Ok((g1, v, t)) => {
                    let (g2, v64) = if t == SpecType::I32 {
                        emit_value(g1, Inst::Convert(Conv::Sextend, ClType::I64, v))
                    } else {
                        (g1, v)
                    };
                    let (g3, cp) = emit_value(g2, Inst::UseVar(cx));
                    Ok((call_rt(g3, Runtime::YieldI64, seq![cp, v64]).0, false))
                },
            },
            None => Ok((g, false)),
        },
        crate::ast::SpecStmt::Expr(e) => match gen_expr(ds, g, e) {
            Err(m) => Err(m),
            Ok((g1, _, _)) => Ok((g1, false)),
        },
    }
}

/// `for var in it`: over a generator's values where `it` calls a generator, else over an
/// array.
pub open spec fn gen_for_each(
    ds: SpecDecls,
    g: SpecGen,
    label: Option<Seq<char>>,
    var: Seq<char>,
    it: SpecExpr,
    body: Seq<crate::ast::SpecStmt>,
) -> StmtResult
    decreases body, body.len() + 2,
{
    match it {
        SpecExpr::Call { name, .. } => if is_gen_name(ds, name) {
            gen_for_generator(ds, g, label, var, it, body)
        } else {
            gen_for_array(ds, g, label, var, it, body)
        },
        _ => gen_for_array(ds, g, label, var, it, body),
    }
}

/// `for var in f(..)` over the values a generator yields.
pub open spec fn gen_for_generator(
    ds: SpecDecls,
    g: SpecGen,
    label: Option<Seq<char>>,
    var: Seq<char>,
    it: SpecExpr,
    body: Seq<crate::ast::SpecStmt>,
) -> StmtResult
    decreases body, body.len() + 1,
{
    match gen_expr(ds, g, it) {
        Err(m) => Err(m),
        Ok((g1, handle, _)) => {
            let (g2, xv) = new_var(g1, ClType::I64);
            let (g3, dummy) = iconst(g2, ClType::I64, 0);
            let g4 = bind(add_inst(g3, Inst::DefVar(xv, dummy)), var, plain_entry(xv, SpecType::I64));
            let (g5, h) = new_block(g4);
            let (g6, b) = new_block(g5);
            let (g7, x) = new_block(g6);
            let g8 = push_loop(add_inst(add_inst(g7, Inst::Jump(h)), Inst::SwitchToBlock(h)), label, x, h);
            let (g9, ok) = call_rt(g8, Runtime::GenAdvance, seq![handle]);
            let (g10, one) = iconst(g9, ClType::I8, 1);
            let (g11, c) = emit_value(g10, Inst::IntCompare(IntCond::Equal, ok, one));
            let g12 = enter(add_inst(g11, Inst::Brif(c, b, x)), b);
            let (g13, val) = call_rt(g12, Runtime::GenValueI64, seq![handle]);
            let g14 = add_inst(g13, Inst::DefVar(xv, val));
            match gen_stmts(ds, g14, body, 0) {
                Err(m) => Err(m),
                Ok((g15, ended)) => {
                    let g16 = jump_unless(g15, ended, h);
                    Ok((unbind(pop_loop(enter(add_inst(g16, Inst::SealBlock(h)), x)), var), false))
                },
            }
        },
    }
}

/// The start of a loop over an array of `n` elements of type `et` (machine type `ec`) whose
/// address variable is `avar`: the index and element variables, the blocks, the bounds test
/// and the load of the element; with the index variable and the header, back-edge and exit
/// blocks.
pub open spec fn array_loop_head(
    g: SpecGen,
    label: Option<Seq<char>>,
    var: Seq<char>,
    avar: usize,
    n: usize,
    et: SpecType,
    ec: ClType,
) -> Result<(SpecGen, usize, usize, usize, usize), Seq<char>> {
    let (g1, iv) = new_var(g, ClType::I64);
    let (g2, zero) = iconst(g1, ClType::I64, 0);
    let g3 = add_inst(g2, Inst::DefVar(iv, zero));
    let (g4, xv) = new_var(g3, ec);
    match default_value(g4, et) {
        Err(m) => Err(m),
        Ok((g5, dummy)) => {
            let g6 = bind(add_inst(g5, Inst::DefVar(xv, dummy)), var, plain_entry(xv, et));
            let (g7, h, b, k, x) = loop_blocks(g6);
            let g8 = push_loop(add_inst(add_inst(g7, Inst::Jump(h)), Inst::SwitchToBlock(h)), label, x, k);
            let (g9, cur) = emit_value(g8, Inst::UseVar(iv));
            let (g10, limit) = iconst(g9, ClType::I64, n as i64);
            let (g11, c) = emit_value(g10, Inst::IntCompare(IntCond::SignedLessThan, cur, limit));
            let g12 = enter(add_inst(g11, Inst::Brif(c, b, x)), b);
            let (g13, base) = emit_value(g12, Inst::UseVar(avar));
            let (g14, stride) = iconst(g13, ClType::I64, size_of(et) as i64);
            let (g15, now) = emit_value(g14, Inst::UseVar(iv));
            let (g16, off) = emit_value(g15, Inst::Binary(BinInst::Imul, now, stride));
            let (g17, addr) = emit_value(g16, Inst::Binary(BinInst::Iadd, base, off));
            let (g18, elem) = emit_value(g17, Inst::Load(ec, addr));
            Ok((add_inst(g18, Inst::DefVar(xv, elem)), iv, h, k, x))
        },
    }
}

/// The end of a loop over an array: the back edge steps the index, and the loop closes.
pub open spec fn array_loop_tail(g: SpecGen, ended: bool, var: Seq<char>, iv: usize, h: usize, k: usize, x: usize) -> SpecGen {
    let g1 = enter(jump_unless(g, ended, k), k);
    let (g2, old) = emit_value(g1, Inst::UseVar(iv));
    let (g3, one) = iconst(g2, ClType::I64, 1);
    let (g4, next) = emit_value(g3, Inst::Binary(BinInst::Iadd, old, one));
    let g5 = add_inst(g4, Inst::DefVar(iv, next));
    unbind(close_loop(g5, h, x), var)
}

/// `for var in arr` over an array declared with a literal.
pub open spec fn gen_for_array(
    ds: SpecDecls,
    g: SpecGen,
    label: Option<Seq<char>>,
    var: Seq<char>,
    it: SpecExpr,
    body: Seq<crate::ast::SpecStmt>,
) -> StmtResult
    decreases body, body.len() + 1,
{
    match it {
        SpecExpr::Ident(arr) => if !g.vars.contains_key(arr) {
            Err("for-in: unknown array"@)
        } else {
            let entry = g.vars[arr];
            match entry.arr_size {
                None => Err("for-in: array with unknown size"@),
                Some(n) => {
                    let et = match entry.arr_elem_ty {
                        Some(t) => t,
                        None => SpecType::I32,
                    };
                    match cl_type_of(et) {
                        None => Err(void_error()),
                        Some(ec) => match array_loop_head(g, label, var, entry.var, n, et, ec) {
                            Err(m) => Err(m),
                            Ok((g1, iv, h, k, x)) => match gen_stmts(ds, g1, body, 0) {
                                Err(m) => Err(m),
                                Ok((g2, ended)) => Ok((array_loop_tail(g2, ended, var, iv, h, k, x), false)),
                            },
                        },
                    }
                },
            }
        },
        _ => Err("for-in: expected array variable or generator call"@),
    }
}

// ─── Emitting statements ─────────────────────────────────────────────────────

pub open spec fn stmt_matches(r: Result<bool, String>, s: StmtResult, g: SpecGen) -> bool {
    match r {
        Ok(b) => s == Ok::<(SpecGen, bool), Seq<char>>((g, b)),
        Err(m) => s == Err::<(SpecGen, bool), Seq<char>>(m@),
    }
}

fn copy_label(l: &Option<String>) -> (r: Option<String>)
    ensures
        opt_name_view(r) == opt_name_view(*l),
{
    match l {
        Some(s) => Some(s.clone()),
        None => None,
    }
}

fn find_target(stack: &Vec<(Option<String>, usize)>, label: &Option<String>) -> (r: Option<usize>)
    ensures
        r == jump_target(loops_view(stack@), opt_name_view(*label)),
{
    let ghost sv = loops_view(stack@);
    match label {
        Some(l) => {
            let mut n = stack.len();
            while n > 0
                invariant
                    n <= stack@.len(),
                    sv == loops_view(stack@),
                    opt_name_view(*label) == Some(l@),
                    labelled_target(sv, l@, n as int) == labelled_target(sv, l@, stack@.len() as int),
                decreases n,
            {
                assert(sv[n - 1] == (opt_name_view(stack@[n - 1].0), stack@[n - 1].1));
                match &stack[n - 1].0 {
                    Some(m) => {
                        if crate::ast::string_eq(m, l) {
                            return Some(stack[n - 1].1);
                        }
                    },
                    None => {},
                }
                n = n - 1;
            }
            None
        },
        None => {
            if stack.len() > 0 {
                assert(sv.last() == (opt_name_view(stack@.last().0), stack@.last().1));
                Some(stack[stack.len() - 1].1)
            } else {
                None
            }
        },
    }
}

impl CodeGen {
    fn push_loop(&mut self, label: &Option<String>, exit: usize, cont: usize)
        ensures
            final(self)@ == push_loop(old(self)@, opt_name_view(*label), exit, cont),
    {
        self.breaks.push((copy_label(label), exit));
        self.conts.push((copy_label(label), cont));
        assert(self@ =~= push_loop(old(self)@, opt_name_view(*label), exit, cont));
    }

    fn pop_loop(&mut self)
        ensures
            final(self)@ == pop_loop(old(self)@),
    {
        self.breaks.pop();
        self.conts.pop();
        assert(self@ =~= pop_loop(old(self)@));
    }

    pub fn bind(&mut self, name: &String, e: VarEntry)
        ensures
            final(self)@ == bind(old(self)@, name@, e@),
    {
        self.vars.insert(name.clone(), e);
        assert(self@ =~= bind(old(self)@, name@, e@));
    }

    fn unbind(&mut self, name: &String)
        ensures
            final(self)@ == unbind(old(self)@, name@),
    {
        self.vars.remove(name.as_str());
        assert(self@ =~= unbind(old(self)@, name@));
    }

    fn loop_blocks(&mut self) -> (r: (usize, usize, usize, usize))
        requires
            gen_wf(old(self)@),
        ensures
            gen_wf(final(self)@),
            (final(self)@, r.0, r.1, r.2, r.3) == loop_blocks(old(self)@),
    {
        let h = self.new_block();
        let b = self.new_block();
        let k = self.new_block();
        let x = self.new_block();
        (h, b, k, x)
    }

    pub fn enter(&mut self, b: usize)
        requires
            gen_wf(old(self)@),
        ensures
            gen_wf(final(self)@),
            final(self)@ == enter(old(self)@, b),
    {
        self.emit(Inst::SwitchToBlock(b));
        self.emit(Inst::SealBlock(b));
    }

    fn jump_unless(&mut self, ended: bool, b: usize)
        requires
            gen_wf(old(self)@),
        ensures
            gen_wf(final(self)@),
            final(self)@ == jump_unless(old(self)@, ended, b),
    {
        if !ended {
            self.emit(Inst::Jump(b));
        }
    }

    fn close_loop(&mut self, h: usize, x: usize)
        requires
            gen_wf(old(self)@),
        ensures
            gen_wf(final(self)@),
            final(self)@ == close_loop(old(self)@, h, x),
    {
        self.emit(Inst::Jump(h));
        self.emit(Inst::SealBlock(h));
        self.enter(x);
        self.pop_loop();
    }

    fn emit_array_elems(&mut self, ds: &Vec<Decl>, elems: &Vec<Expr>, slot: usize, size: u32) -> (r: Result<(), String>)
        requires
            gen_wf(old(self)@),
            decls_fit(decls_view(ds@)),
            elems@.len() * size <= u32::MAX,
            elems@.len() <= u32::MAX,
        ensures
            gen_wf(final(self)@),
            step_matches(
                r,
                gen_array_elems(decls_view(ds@), old(self)@, exprs_view(elems@), slot, size as int, 0),
                final(self)@,
            ),
    {
        let ghost sds = decls_view(ds@);
        let ghost ev = exprs_view(elems@);
        proof {
            lemma_exprs_view(elems@);
        }
        let mut i: usize = 0;
        while i < elems.len()
            invariant
                gen_wf(self@),
                decls_fit(sds),
                sds == decls_view(ds@),
                ev == exprs_view(elems@),
                ev.len() == elems@.len(),
                forall|k: int| 0 <= k < elems@.len() ==> #[trigger] ev[k] == expr_view(elems@[k]),
                elems@.len() * size <= u32::MAX,
                elems@.len() <= u32::MAX,
                i <= elems@.len(),
                gen_array_elems(sds, old(self)@, ev, slot, size as int, 0) == gen_array_elems(
                    sds,
                    self@,
                    ev,
                    slot,
                    size as int,
                    i as int,
                ),
            decreases elems@.len() - i,
        {
            assert(ev[i as int] == expr_view(elems@[i as int]));
            let (v, _) = match self.emit_expr(ds, &elems[i]) {
                Err(m) => {
                    return Err(m);
                },
                Ok(p) => p,
            };
            assert(i * size <= elems@.len() * size) by (nonlinear_arith)
                requires
                    i < elems@.len(),
            ;
            let off = (i as u32 * size) as i32;
            self.emit(Inst::StackStore(v, slot, off));
            i = i + 1;
        }
        Ok(())
    }

    fn emit_var_decl(&mut self, ds: &Vec<Decl>, vd: &VarDecl) -> (r: Result<(), String>)
        requires
            gen_wf(old(self)@),
            decls_fit(decls_view(ds@)),
        ensures
            gen_wf(final(self)@),
            step_matches(r, gen_var_decl(decls_view(ds@), old(self)@, vd@), final(self)@),
    {
        match &vd.value {
            Expr::Array(elems) => {
                proof {
                    lemma_exprs_view(elems@);
                }
                let et = match &vd.ty {
                    Some(Type::Array(e)) => e.duplicate(),
                    _ => {
                        if elems.len() > 0 {
                            match &elems[0] {
                                Expr::Int(_) => Type::I32,
                                Expr::Float(_) => Type::F64,
                                Expr::Bool(_) => Type::Bool,
                                Expr::Str(_) => Type::Str,
                                _ => Type::I32,
                            }
                        } else {
                            Type::I32
                        }
                    },
                };
                assert(et@ == array_elem_type(opt_type_view(vd.ty), exprs_view(elems@)));
                let size = elem_size(&et);
                let n = elems.len();
                if n > 0xffff_ffff || (n as u64) * (size as u64) > 0xffff_ffff {
                    return Err(String::from_str("array too large"));
                }
                let total = (n as u32) * size;
                let slot = self.new_slot(total, align_shift(size));
                match self.emit_array_elems(ds, elems, slot, size) {
                    Err(m) => {
                        return Err(m);
                    },
                    Ok(_) => {},
                }
                let addr = self.emit(Inst::StackAddr(slot));
                let x = self.new_var(ClType::I64);
                self.emit(Inst::DefVar(x, addr));
                let et2 = et.duplicate();
                self.bind(
                    &vd.name,
                    VarEntry {
                        var: x,
                        ty: Type::Array(Box::new(et)),
                        arr_size: Some(n),
                        arr_elem_ty: Some(et2),
                    },
                );
                Ok(())
            },
            _ => {
                let (v, inferred) = match self.emit_expr(ds, &vd.value) {
                    Err(m) => {
                        return Err(m);
                    },
                    Ok(p) => p,
                };
                let t = match &vd.ty {
                    Some(t) => t.duplicate(),
                    None => inferred,
                };
                if t.is_void() {
                    return Err(void_message());
                }
                let c = cl_type(&t);
                let x = self.new_var(c);
                self.emit(Inst::DefVar(x, v));
                self.bind(&vd.name, VarEntry { var: x, ty: t, arr_size: None, arr_elem_ty: None });
                Ok(())
            },
        }
    }
}

impl CodeGen {
    fn emit_assign(&mut self, ds: &Vec<Decl>, target: &Expr, v: usize) -> (r: Result<(), String>)
        requires
            gen_wf(old(self)@),
            decls_fit(decls_view(ds@)),
        ensures
            gen_wf(final(self)@),
            step_matches(r, gen_assign(decls_view(ds@), old(self)@, target@, v), final(self)@),
    {
        proof {
            reveal_with_fuel(expr_view, 2);
        }
        match target {
            Expr::Ident(name) => {
                let found = match self.vars.get(name.as_str()) {
                    Some(entry) => Some(entry.var),
                    None => None,
                };
                match found {
                    Some(x) => {
                        self.emit(Inst::DefVar(x, v));
                    },
                    None => {},
                }
                Ok(())
            },
            Expr::Field { object, field } => {
                match &**object {
                    Expr::Ident(obj) => {
                        let found: Option<Option<(usize, String)>> = match self.vars.get(obj.as_str()) {
                            Some(entry) => match &entry.ty {
                                Type::Custom(sname) => Some(Some((entry.var, sname.clone()))),
                                _ => Some(None),
                            },
                            None => None,
                        };
                        match found {
                            None => Ok(()),
                            Some(None) => Err(String::from_str("field assign on non-struct")),
                            Some(Some((x, sname))) => {
                                let empty: Vec<(String, Type)> = Vec::new();
                                let fields = match find_struct(ds, sname.as_str()) {
                                    Some(fs) => fs,
                                    None => &empty,
                                };
                                proof {
                                    assert(field_decls_view(empty@) =~= Seq::<(Seq<char>, SpecType)>::empty());
                                }
                                if !has_field(fields, field.as_str()) {
                                    return Err(missing_field_message(field.as_str()));
                                }
                                let (off, _) = field_offset(fields, field.as_str());
                                let base = self.emit(Inst::UseVar(x));
                                let addr = self.emit(Inst::IaddImm(base, off as i64));
                                self.emit(Inst::Store(v, addr));
                                Ok(())
                            },
                        }
                    },
                    _ => Ok(()),
                }
            },
            Expr::Index { array, index } => {
                match &**array {
                    Expr::Ident(arr) => {
                        let found: Option<(usize, Type)> = match self.vars.get(arr.as_str()) {
                            Some(entry) => Some(
                                (
                                    entry.var,
                                    match &entry.arr_elem_ty {
                                        Some(t) => t.duplicate(),
                                        None => Type::I32,
                                    },
                                ),
                            ),
                            None => None,
                        };
                        match found {
                            None => Ok(()),
                            Some((x, et)) => {
                                match self.emit_expr(ds, index) {
                                    Err(m) => Err(m),
                                    Ok((iv, _)) => {
                                        let base = self.emit(Inst::UseVar(x));
                                        let i64v = self.extend_i64(iv, &Type::I32);
                                        let stride = self.iconst(ClType::I64, elem_size(&et) as i64);
                                        let off = self.emit(Inst::Binary(BinInst::Imul, i64v, stride));
                                        let addr = self.emit(Inst::Binary(BinInst::Iadd, base, off));
                                        self.emit(Inst::Store(v, addr));
                                        Ok(())
                                    },
                                }
                            },
                        }
                    },
                    _ => Ok(()),
                }
            },
            _ => Ok(()),
        }
    }

    /// Emits the statements up to the first that ends its block; says whether one did.
    pub fn emit_stmts(&mut self, ds: &Vec<Decl>, ss: &Vec<Stmt>) -> (r: Result<bool, String>)
        requires
            gen_wf(old(self)@),
            decls_fit(decls_view(ds@)),
        ensures
            gen_wf(final(self)@),
            stmt_matches(r, gen_stmts(decls_view(ds@), old(self)@, stmts_view(ss@), 0), final(self)@),
        decreases stmts_view(ss@), 3int,
    {
        let ghost sds = decls_view(ds@);
        let ghost sv = stmts_view(ss@);
        proof {
            lemma_stmts_view(ss@);
        }
        let mut i: usize = 0;
        while i < ss.len()
            invariant
                gen_wf(self@),
                decls_fit(sds),
                sds == decls_view(ds@),
                sv == stmts_view(ss@),
                sv.len() == ss@.len(),
                forall|k: int| 0 <= k < ss@.len() ==> #[trigger] sv[k] == stmt_view(ss@[k]),
                i <= ss@.len(),
                gen_stmts(sds, old(self)@, sv, 0) == gen_stmts(sds, self@, sv, i as int),
            decreases ss@.len() - i,
        {
            assert(sv[i as int] == stmt_view(ss@[i as int]));
            match self.emit_stmt(ds, &ss[i]) {
                Err(m) => {
                    return Err(m);
                },
                Ok(ended) => {
                    if ended {
                        return Ok(true);
                    }
                },
            }
            i = i + 1;
        }
        Ok(false)
    }

    /// Emits one statement; says whether it ends its block.
    #[verifier::rlimit(60)]
    pub fn emit_stmt(&mut self, ds: &Vec<Decl>, s: &Stmt) -> (r: Result<bool, String>)
        requires
            gen_wf(old(self)@),
            decls_fit(decls_view(ds@)),
        ensures
            gen_wf(final(self)@),
            stmt_matches(r, gen_stmt(decls_view(ds@), old(self)@, s@), final(self)@),
        decreases s@, 2int,
    {
        match s {
            Stmt::VarDecl(vd) => {
                match self.emit_var_decl(ds, vd) {
                    Err(m) => Err(m),
                    Ok(_) => Ok(false),
                }
            },
            Stmt::Assign { target, value } => {
                match self.emit_expr(ds, value) {
                    Err(m) => Err(m),
                    Ok((v, _)) => match self.emit_assign(ds, target, v) {
                        Err(m) => Err(m),
                        Ok(_) => Ok(false),
                    },
                }
            },
            Stmt::If { .. } => self.emit_if(ds, s),
            Stmt::While { .. } => self.emit_while(ds, s),
            Stmt::For { iter, .. } => {
                match iter {
                    ForIter::Range { .. } => self.emit_for_range(ds, s),
                    ForIter::Expr(_) => self.emit_for_each(ds, s),
                }
            },
            Stmt::Return(e) => {
                match e {
                    Some(e) => {
                        match self.emit_expr(ds, e) {
                            Err(m) => Err(m),
                            Ok((v, _)) => {
                                self.emit(Inst::Return1(v));
                                Ok(true)
                            },
                        }
                    },
                    None => {
                        if self.is_main {
                            let z = self.iconst(ClType::I32, 0);
                            self.emit(Inst::Return1(z));
                        } else {
                            self.emit(Inst::Return0);
                        }
                        Ok(true)
                    },
                }
            },
            Stmt::Break(l) => {
                match find_target(&self.breaks, l) {
                    Some(b) => {
                        self.emit(Inst::Jump(b));
                        Ok(true)
                    },
                    None => Ok(false),
                }
            },
            Stmt::Continue(l) => {
                match find_target(&self.conts, l) {
                    Some(b) => {
                        self.emit(Inst::Jump(b));
                        Ok(true)
                    },
                    None => Ok(false),
                }
            },
            Stmt::Yield(e) => {
                match self.ctx_var {
                    Some(cx) => {
                        match self.emit_expr(ds, e) {
                            Err(m) => Err(m),
                            Ok((v, t)) => {
                                let v64 = match t {
                                    Type::I32 => self.emit(Inst::Convert(Conv::Sextend, ClType::I64, v)),
                                    _ => v,
                                };
                                let cp = self.emit(Inst::UseVar(cx));
                                self.call_rt2(Runtime::YieldI64, cp, v64);
                                Ok(false)
                            },
                        }
                    },
                    None => Ok(false),
                }
            },
            Stmt::Expr(e) => {
                match self.emit_expr(ds, e) {
                    Err(m) => Err(m),
                    Ok(_) => Ok(false),
                }
            },
        }
    }

    fn emit_if(&mut self, ds: &Vec<Decl>, s: &Stmt) -> (r: Result<bool, String>)
        requires
            gen_wf(old(self)@),
            decls_fit(decls_view(ds@)),
            s is If,
        ensures
            gen_wf(final(self)@),
            stmt_matches(r, gen_stmt(decls_view(ds@), old(self)@, s@), final(self)@),
        decreases s@, 1int,
    {
        match s {
            Stmt::If { cond, then_block, else_block } => {
                let (cv, _) = match self.emit_expr(ds, cond) {
                    Err(m) => {
                        return Err(m);
                    },
                    Ok(p) => p,
                };
                let tb = self.new_block();
                let eb = self.new_block();
                let mb = self.new_block();
                self.emit(Inst::Brif(cv, tb, eb));
                self.enter(tb);
                let t_end = match self.emit_stmts(ds, then_block) {
                    Err(m) => {
                        return Err(m);
                    },
                    Ok(b) => b,
                };
                self.jump_unless(t_end, mb);
                self.enter(eb);
                let e_end = match else_block {
                    Some(es) => match self.emit_stmts(ds, es) {
                        Err(m) => {
                            return Err(m);
                        },
                        Ok(b) => b,
                    },
                    None => false,
                };
                self.jump_unless(e_end, mb);
                self.enter(mb);
                Ok(false)
            },
            _ => Ok(false),
        }
    }

    fn emit_while(&mut self, ds: &Vec<Decl>, s: &Stmt) -> (r: Result<bool, String>)
        requires
            gen_wf(old(self)@),
            decls_fit(decls_view(ds@)),
            s is While,
        ensures
            gen_wf(final(self)@),
            stmt_matches(r, gen_stmt(decls_view(ds@), old(self)@, s@), final(self)@),
        decreases s@, 1int,
    {
        match s {
            Stmt::While { label, cond, body } => {
                let (h, b, k, x) = self.loop_blocks();
                self.emit(Inst::Jump(h));
                self.emit(Inst::SwitchToBlock(h));
                self.push_loop(label, x, k);
                let (cv, _) = match self.emit_expr(ds, cond) {
                    Err(m) => {
                        return Err(m);
                    },
                    Ok(p) => p,
                };
                self.emit(Inst::Brif(cv, b, x));
                self.enter(b);
                let ended = match self.emit_stmts(ds, body) {
                    Err(m) => {
                        return Err(m);
                    },
                    Ok(e) => e,
                };
                self.jump_unless(ended, k);
                self.enter(k);
                self.close_loop(h, x);
                Ok(false)
            },
            _ => Ok(false),
        }
    }

    fn emit_for_range(&mut self, ds: &Vec<Decl>, s: &Stmt) -> (r: Result<bool, String>)
        requires
            gen_wf(old(self)@),
            decls_fit(decls_view(ds@)),
            s matches Stmt::For { iter: ForIter::Range { .. }, .. },
        ensures
            gen_wf(final(self)@),
            stmt_matches(r, gen_stmt(decls_view(ds@), old(self)@, s@), final(self)@),
        decreases s@, 1int,
    {
        match s {
            Stmt::For { label, var, iter, body } => {
                match iter {
                    ForIter::Range { start, end, inclusive } => {
                        let lv = self.new_var(ClType::I32);
                        let (sv, _) = match self.emit_expr(ds, start) {
                            Err(m) => {
                                return Err(m);
                            },
                            Ok(p) => p,
                        };
                        self.emit(Inst::DefVar(lv, sv));
                        self.bind(var, VarEntry { var: lv, ty: Type::I32, arr_size: None, arr_elem_ty: None });
                        let (h, b, k, x) = self.loop_blocks();
                        self.emit(Inst::Jump(h));
                        self.emit(Inst::SwitchToBlock(h));
                        self.push_loop(label, x, k);
                        let cur = self.emit(Inst::UseVar(lv));
                        let (ev, _) = match self.emit_expr(ds, end) {
                            Err(m) => {
                                return Err(m);
                            },
                            Ok(p) => p,
                        };
                        let c = self.emit(
                            Inst::IntCompare(
                                if *inclusive {
                                    IntCond::SignedLessThanOrEqual
                                } else {
                                    IntCond::SignedLessThan
                                },
                                cur,
                                ev,
                            ),
                        );
                        self.emit(Inst::Brif(c, b, x));
                        self.enter(b);
                        let ended = match self.emit_stmts(ds, body) {
                            Err(m) => {
                                return Err(m);
                            },
                            Ok(e) => e,
                        };
                        self.jump_unless(ended, k);
                        self.enter(k);
                        let cur2 = self.emit(Inst::UseVar(lv));
                        let one = self.iconst(ClType::I32, 1);
                        let next = self.emit(Inst::Binary(BinInst::Iadd, cur2, one));
                        self.emit(Inst::DefVar(lv, next));
                        self.close_loop(h, x);
                        self.unbind(var);
                        Ok(false)
                    },
                    _ => Ok(false),
                }
            },
            _ => Ok(false),
        }
    }
}

impl CodeGen {
    #[verifier::rlimit(60)]
    fn emit_for_each(&mut self, ds: &Vec<Decl>, s: &Stmt) -> (r: Result<bool, String>)
        requires
            gen_wf(old(self)@),
            decls_fit(decls_view(ds@)),
            s matches Stmt::For { iter: ForIter::Expr(_), .. },
        ensures
            gen_wf(final(self)@),
            match s@ {
                SpecStmt::For { label, var, iter, body } => match iter {
                    crate::ast::SpecForIter::Expr(it) => stmt_matches(
                        r,
                        gen_for_each(decls_view(ds@), old(self)@, label, var, it, body),
                        final(self)@,
                    ),
                    _ => true,
                },
                _ => true,
            },
        decreases s@, 1int,
    {
        match s {
            Stmt::For { label, var, iter, body } => {
                match iter {
                    ForIter::Expr(it) => {
                        let is_gen = match it {
                            Expr::Call { name, .. } => is_generator(ds, name.as_str()),
                            _ => false,
                        };
                        if is_gen {
                            self.emit_for_generator(ds, s)
                        } else {
                            self.emit_for_array(ds, s)
                        }
                    },
                    _ => Ok(false),
                }
            },
            _ => Ok(false),
        }
    }

    fn emit_for_generator(&mut self, ds: &Vec<Decl>, s: &Stmt) -> (r: Result<bool, String>)
        requires
            gen_wf(old(self)@),
            decls_fit(decls_view(ds@)),
            s matches Stmt::For { iter: ForIter::Expr(_), .. },
        ensures
            gen_wf(final(self)@),
            match s@ {
                SpecStmt::For { label, var, iter, body } => match iter {
                    crate::ast::SpecForIter::Expr(it) => stmt_matches(
                        r,
                        gen_for_generator(decls_view(ds@), old(self)@, label, var, it, body),
                        final(self)@,
                    ),
                    _ => true,
                },
                _ => true,
            },
        decreases s@, 0int,
    {
        match s {
            Stmt::For { label, var, iter, body } => {
                match iter {
                    ForIter::Expr(it) => {
                        let (handle, _) = match self.emit_expr(ds, it) {
                            Err(m) => {
                                return Err(m);
                            },
                            Ok(p) => p,
                        };
                        let xv = self.new_var(ClType::I64);
                        let dummy = self.iconst(ClType::I64, 0);
                        self.emit(Inst::DefVar(xv, dummy));
                        self.bind(var, VarEntry { var: xv, ty: Type::I64, arr_size: None, arr_elem_ty: None });
                        let h = self.new_block();
                        let b = self.new_block();
                        let x = self.new_block();
                        self.emit(Inst::Jump(h));
                        self.emit(Inst::SwitchToBlock(h));
                        self.push_loop(label, x, h);
                        let ok = self.call_rt1(Runtime::GenAdvance, handle);
                        let one = self.iconst(ClType::I8, 1);
                        let c = self.emit(Inst::IntCompare(IntCond::Equal, ok, one));
                        self.emit(Inst::Brif(c, b, x));
                        self.enter(b);
                        let val = self.call_rt1(Runtime::GenValueI64, handle);
                        self.emit(Inst::DefVar(xv, val));
                        let ended = match self.emit_stmts(ds, body) {
                            Err(m) => {
                                return Err(m);
                            },
                            Ok(e) => e,
                        };
                        self.jump_unless(ended, h);
                        self.emit(Inst::SealBlock(h));
                        self.enter(x);
                        self.pop_loop();
                        self.unbind(var);
                        Ok(false)
                    },
                    _ => Ok(false),
                }
            },
            _ => Ok(false),
        }
    }

    fn array_loop_head(&mut self, label: &Option<String>, var: &String, avar: usize, n: usize, et: &Type, ec: ClType) -> (r: Result<(usize, usize, usize, usize), String>)
        requires
            gen_wf(old(self)@),
        ensures
            gen_wf(final(self)@),
            match r {
                Ok((iv, h, k, x)) => array_loop_head(old(self)@, opt_name_view(*label), var@, avar, n, et@, ec)
                    == Ok::<(SpecGen, usize, usize, usize, usize), Seq<char>>((final(self)@, iv, h, k, x)),
                Err(m) => array_loop_head(old(self)@, opt_name_view(*label), var@, avar, n, et@, ec)
                    == Err::<(SpecGen, usize, usize, usize, usize), Seq<char>>(m@),
            },
    {
        let iv = self.new_var(ClType::I64);
        let zero = self.iconst(ClType::I64, 0);
        self.emit(Inst::DefVar(iv, zero));
        let xv = self.new_var(ec);
        let dummy = match self.default_value(et) {
            Err(m) => {
                return Err(m);
            },
            Ok(d) => d,
        };
        self.emit(Inst::DefVar(xv, dummy));
        self.bind(var, VarEntry { var: xv, ty: et.duplicate(), arr_size: None, arr_elem_ty: None });
        let (h, b, k, x) = self.loop_blocks();
        self.emit(Inst::Jump(h));
        self.emit(Inst::SwitchToBlock(h));
        self.push_loop(label, x, k);
        let cur = self.emit(Inst::UseVar(iv));
        let limit = self.iconst(ClType::I64, n as i64);
        let c = self.emit(Inst::IntCompare(IntCond::SignedLessThan, cur, limit));
        self.emit(Inst::Brif(c, b, x));
        self.enter(b);
        let base = self.emit(Inst::UseVar(avar));
        let stride = self.iconst(ClType::I64, elem_size(et) as i64);
        let now = self.emit(Inst::UseVar(iv));
        let off = self.emit(Inst::Binary(BinInst::Imul, now, stride));
        let addr = self.emit(Inst::Binary(BinInst::Iadd, base, off));
        let elem = self.emit(Inst::Load(ec, addr));
        self.emit(Inst::DefVar(xv, elem));
        Ok((iv, h, k, x))
    }

    fn array_loop_tail(&mut self, ended: bool, var: &String, iv: usize, h: usize, k: usize, x: usize)
        requires
            gen_wf(old(self)@),
        ensures
            gen_wf(final(self)@),
            final(self)@ == array_loop_tail(old(self)@, ended, var@, iv, h, k, x),
    {
        self.jump_unless(ended, k);
        self.enter(k);
        let old = self.emit(Inst::UseVar(iv));
        let one = self.iconst(ClType::I64, 1);
        let next = self.emit(Inst::Binary(BinInst::Iadd, old, one));
        self.emit(Inst::DefVar(iv, next));
        self.close_loop(h, x);
        self.unbind(var);
    }

    #[verifier::rlimit(60)]
    fn emit_for_array(&mut self, ds: &Vec<Decl>, s: &Stmt) -> (r: Result<bool, String>)
        requires
            gen_wf(old(self)@),
            decls_fit(decls_view(ds@)),
            s matches Stmt::For { iter: ForIter::Expr(_), .. },
        ensures
            gen_wf(final(self)@),
            match s@ {
                SpecStmt::For { label, var, iter, body } => match iter {
                    crate::ast::SpecForIter::Expr(it) => stmt_matches(
                        r,
                        gen_for_array(decls_view(ds@), old(self)@, label, var, it, body),
                        final(self)@,
                    ),
                    _ => true,
                },
                _ => true,
            },
        decreases s@, 0int,
    {
        match s {
            Stmt::For { label, var, iter, body } => {
                match iter {
                    ForIter::Expr(it) => {
                        let arr = match it {
                            Expr::Ident(a) => a,
                            _ => {
                                return Err(
                                    String::from_str("for-in: expected array variable or generator call"),
                                );
                            },
                        };
                        let found: Option<(usize, Option<usize>, Type)> = match self.vars.get(
                            arr.as_str(),
                        ) {
                            Some(entry) => Some(
                                (
                                    entry.var,
                                    entry.arr_size,
                                    match &entry.arr_elem_ty {
                                        Some(t) => t.duplicate(),
                                        None => Type::I32,
                                    },
                                ),
                            ),
                            None => None,
                        };
                        let (avar, asize, et) = match found {
                            None => {
                                return Err(String::from_str("for-in: unknown array"));
                            },
                            Some(p) => p,
                        };
                        let n = match asize {
                            None => {
                                return Err(String::from_str("for-in: array with unknown size"));
                            },
                            Some(n) => n,
                        };
                        if et.is_void() {
                            return Err(void_message());
                        }
                        let ec = cl_type(&et);
                        let (iv, h, k, x) = match self.array_loop_head(label, var, avar, n, &et, ec) {
                            Err(m) => {
                                return Err(m);
                            },
                            Ok(p) => p,
                        };
                        let ended = match self.emit_stmts(ds, body) {
                            Err(m) => {
                                return Err(m);
                            },
                            Ok(e) => e,
                        };
                        self.array_loop_tail(ended, var, iv, h, k, x);
                        Ok(false)
                    },
                    _ => Ok(false),
                }
            },
            _ => Ok(false),
        }
    }
}

} // verus!
