use vstd::prelude::*;

use crate::ast::{
    Decl, FnDecl, Param, Program, SpecDecl, SpecFnDecl, SpecParam, SpecType, Type, decls_view,
    params_view,
};
use crate::emit::{
    CodeGen, SpecDecls, SpecGen, VarEntry, add_inst, bind, call_rt, decls_fit, emit_value, enter, fn_decl,
    find_fn, gen_stmts, gen_wf, is_gen_name, is_generator, iconst, new_block, new_var, plain_entry,
    stmt_matches, texts_view,
};
use crate::ir::{ClType, Callee, Inst, Runtime, cl_type, cl_type_of, elem_size, layout_fits, size_of};
use crate::table::Table;
use crate::text::string_is;

verus! {

// ─── Functions ───────────────────────────────────────────────────────────────

/// A function's code: what it defines, the machine types of its parameters and results,
/// and the steps that build its body.
pub struct SpecFunction {
    pub callee: Callee,
    pub params: Seq<ClType>,
    pub returns: Seq<ClType>,
    pub insts: Seq<Inst>,
}

pub struct FunctionIr {
    pub callee: Callee,
    pub params: Vec<ClType>,
    pub returns: Vec<ClType>,
    pub insts: Vec<Inst>,
}

impl View for FunctionIr {
    type V = SpecFunction;

    open spec fn view(&self) -> SpecFunction {
        SpecFunction {
            callee: self.callee,
            params: self.params@,
            returns: self.returns@,
            insts: self.insts@,
        }
    }
}

/// The machine types of the parameters that are not `void`.
pub open spec fn param_types(ps: Seq<SpecParam>) -> Seq<ClType>
    decreases ps.len(),
{
    if ps.len() == 0 {
        Seq::empty()
    } else {
        param_types(ps.drop_last()) + match cl_type_of(ps.last().ty) {
            Some(c) => seq![c],
            None => Seq::empty(),
        }
    }
}

/// The machine types a function returns: `main` returns an `i32` status, `void` nothing.
pub open spec fn return_types(is_main: bool, ret: SpecType) -> Seq<ClType> {
    if is_main {
        seq![ClType::I32]
    } else {
        match cl_type_of(ret) {
            Some(c) => seq![c],
            None => Seq::empty(),
        }
    }
}

/// The state at the start of a function: no code, no locals, no loops.
pub open spec fn begin_function(g: SpecGen, is_main: bool, ret: SpecType) -> SpecGen {
    SpecGen {
        insts: Seq::empty(),
        blocks: 0,
        slots: 0,
        var_counter: 0,
        vars: Map::empty(),
        breaks: Seq::empty(),
        conts: Seq::empty(),
        ret_ty: ret,
        is_main,
        ..g
    }
}

/// The entry block, which takes the function's parameters.
pub open spec fn entry_block(g: SpecGen) -> (SpecGen, usize) {
    let (g1, e) = new_block(g);
    (enter(add_inst(g1, Inst::EntryParams(e)), e), e)
}

/// Binds parameters from index `i` to variables, from the entry block's parameters.
pub open spec fn bind_params(g: SpecGen, ps: Seq<SpecParam>, entry: usize, i: int) -> Result<SpecGen, Seq<char>>
    decreases ps.len() - i,
{
    if 0 <= i < ps.len() {
        let (g1, pv) = emit_value(g, Inst::BlockParam(entry, i as usize));
        match cl_type_of(ps[i].ty) {
            None => Err(crate::emit::void_error()),
            Some(c) => {
                let (g2, x) = new_var(g1, c);
                let g3 = bind(add_inst(g2, Inst::DefVar(x, pv)), ps[i].name, plain_entry(x, ps[i].ty));
                bind_params(g3, ps, entry, i + 1)
            },
        }
    } else {
        Ok(g)
    }
}

/// The code of an ordinary function (not a generator), declared at index `k`.
pub open spec fn gen_function(ds: SpecDecls, g: SpecGen, f: SpecFnDecl) -> Result<(SpecGen, SpecFunction), Seq<char>> {
    let is_main = f.name == "main"@;
    let (g1, e) = entry_block(begin_function(g, is_main, f.ret_ty));
    match bind_params(g1, f.params, e, 0) {
        Err(m) => Err(m),
        Ok(g2) => match gen_stmts(ds, g2, f.body, 0) {
            Err(m) => Err(m),
            Ok((g3, ended)) => {
                let g4 = if ended {
                    g3
                } else if is_main {
                    let (g5, z) = iconst(g3, ClType::I32, 0);
                    add_inst(g5, Inst::Return1(z))
                } else if f.ret_ty == SpecType::Void {
                    add_inst(g3, Inst::Return0)
                } else {
                    g3
                };
                Ok(
                    (
                        g4,
                        SpecFunction {
                            callee: Callee::User(fn_decl(ds, f.name).unwrap_or(0) as usize),
                            params: param_types(f.params),
                            returns: return_types(is_main, f.ret_ty),
                            insts: g4.insts,
                        },
                    ),
                )
            },
        },
    }
}

/// The bytes the arguments of a generator take in its context.
pub open spec fn args_size(ps: Seq<SpecParam>) -> int
    decreases ps.len(),
{
    if ps.len() == 0 {
        0
    } else {
        args_size(ps.drop_last()) + size_of(ps.last().ty)
    }
}

/// Stores the parameters from index `i` into the context at `ctx`, after `offset` bytes.
pub open spec fn store_args(g: SpecGen, ps: Seq<SpecParam>, ctx: usize, offset: int, i: int) -> SpecGen
    decreases ps.len() - i,
{
    if 0 <= i < ps.len() {
        let (g1, pv) = emit_value(g, Inst::BlockParam(0, i as usize));
        let (g2, addr) = emit_value(g1, Inst::IaddImm(ctx, offset as i64));
        store_args(add_inst(g2, Inst::Store(pv, addr)), ps, ctx, offset + size_of(ps[i].ty), i + 1)
    } else {
        g
    }
}

/// A generator's wrapper: it allocates the context, copies the arguments into it, starts
/// the body and returns the handle.
pub open spec fn gen_wrapper(ds: SpecDecls, g: SpecGen, f: SpecFnDecl) -> (SpecGen, SpecFunction) {
    let g0 = SpecGen {
        insts: Seq::empty(),
        blocks: 0,
        slots: 0,
        var_counter: 0,
        vars: Map::empty(),
        ..g
    };
    let k = fn_decl(ds, f.name).unwrap_or(0) as usize;
    let (g1, _) = entry_block(g0);
    let (g2, bytes) = iconst(g1, ClType::I64, args_size(f.params) as i64);
    let (g3, ctx) = call_rt(g2, Runtime::GenCtxAlloc, seq![bytes]);
    let g4 = store_args(g3, f.params, ctx, 8, 0);
    let (g5, fp) = emit_value(g4, Inst::FuncAddr(Callee::Body(k)));
    let (g6, handle) = call_rt(g5, Runtime::GenStart, seq![fp, ctx]);
    let g7 = add_inst(g6, Inst::Return1(handle));
    (
        g7,
        SpecFunction {
            callee: Callee::User(k),
            params: param_types(f.params),
            returns: seq![ClType::I64],
            insts: g7.insts,
        },
    )
}

/// Loads the parameters from index `i` from the context at `ctx`, after `offset` bytes.
pub open spec fn load_args(g: SpecGen, ps: Seq<SpecParam>, ctx: usize, offset: int, i: int) -> Result<SpecGen, Seq<char>>
    decreases ps.len() - i,
{
    if 0 <= i < ps.len() {
        let (g1, addr) = emit_value(g, Inst::IaddImm(ctx, offset as i64));
        match cl_type_of(ps[i].ty) {
            None => Err(crate::emit::void_error()),
            Some(c) => {
                let (g2, v) = emit_value(g1, Inst::Load(c, addr));
                let (g3, x) = new_var(g2, c);
                let g4 = bind(add_inst(g3, Inst::DefVar(x, v)), ps[i].name, plain_entry(x, ps[i].ty));
                load_args(g4, ps, ctx, offset + size_of(ps[i].ty), i + 1)
            },
        }
    } else {
        Ok(g)
    }
}

/// A generator's body: it reads the arguments from the context, runs the statements, and
/// ends the generator where they fall off the end.
pub open spec fn gen_body(ds: SpecDecls, g: SpecGen, f: SpecFnDecl) -> Result<(SpecGen, SpecFunction), Seq<char>> {
    let g0 = SpecGen {
        insts: Seq::empty(),
        blocks: 0,
        slots: 0,
        var_counter: 0,
        vars: Map::empty(),
        breaks: Seq::empty(),
        conts: Seq::empty(),
        ret_ty: SpecType::Void,
        ..g
    };
    let k = fn_decl(ds, f.name).unwrap_or(0) as usize;
    let (g1, e) = entry_block(g0);
    let (g2, cp) = emit_value(g1, Inst::BlockParam(e, 0));
    let (g3, cv) = new_var(g2, ClType::I64);
    let g4 = SpecGen { ctx_var: Some(cv), ..add_inst(g3, Inst::DefVar(cv, cp)) };
    match load_args(g4, f.params, cp, 8, 0) {
        Err(m) => Err(m),
        Ok(g5) => match gen_stmts(ds, g5, f.body, 0) {
            Err(m) => Err(m),
            Ok((g6, ended)) => {
                let g7 = if ended {
                    g6
                } else {
                    add_inst(call_rt(g6, Runtime::GenEnd, seq![cp]).0, Inst::Return0)
                };
                let g8 = SpecGen { ctx_var: None, ..g7 };
                Ok(
                    (
                        g8,
                        SpecFunction {
                            callee: Callee::Body(k),
                            params: seq![ClType::I64],
                            returns: Seq::empty(),
                            insts: g7.insts,
                        },
                    ),
                )
            },
        },
    }
}

// ─── Compiling functions ─────────────────────────────────────────────────────

fn param_cl_types(ps: &Vec<Param>) -> (r: Vec<ClType>)
    ensures
        r@ == param_types(params_view(ps@)),
{
    let ghost pv = params_view(ps@);
    let mut r: Vec<ClType> = Vec::new();
    let mut i: usize = 0;
    while i < ps.len()
        invariant
            pv == params_view(ps@),
            i <= ps@.len(),
            r@ == param_types(pv.take(i as int)),
        decreases ps@.len() - i,
    {
        assert(pv.take(i + 1).drop_last() =~= pv.take(i as int));
        assert(pv.take(i + 1).last() == ps@[i as int]@);
        if !ps[i].ty.is_void() {
            r.push(cl_type(&ps[i].ty));
        }
        i = i + 1;
        assert(r@ =~= param_types(pv.take(i as int)));
    }
    assert(pv.take(ps@.len() as int) =~= pv);
    r
}

fn return_cl_types(is_main: bool, ret: &Type) -> (r: Vec<ClType>)
    ensures
        r@ == return_types(is_main, ret@),
{
    let mut r: Vec<ClType> = Vec::new();
    if is_main {
        r.push(ClType::I32);
    } else if !ret.is_void() {
        r.push(cl_type(ret));
    }
    assert(r@ =~= return_types(is_main, ret@));
    r
}

impl CodeGen {
    /// A generator in its start state: no code and empty tables.
    pub fn new() -> (g: Self)
        ensures
            gen_wf(g@),
            g@ == start_state(),
    {
        let g = CodeGen {
            insts: Vec::new(),
            blocks: 0,
            slots: 0,
            var_counter: 0,
            vars: Table::new(),
            breaks: Vec::new(),
            conts: Vec::new(),
            ctx_var: None,
            ret_ty: Type::Void,
            is_main: false,
            strings: Vec::new(),
            floats: Vec::new(),
        };
        assert(g@ =~= start_state());
        g
    }

    fn reset_locals(&mut self)
        ensures
            final(self)@ == (SpecGen {
                insts: Seq::empty(),
                blocks: 0,
                slots: 0,
                var_counter: 0,
                vars: Map::empty(),
                ..old(self)@
            }),
            gen_wf(final(self)@),
    {
        self.insts = Vec::new();
        self.blocks = 0;
        self.slots = 0;
        self.var_counter = 0;
        self.vars = Table::new();
        assert(self@ =~= (SpecGen {
            insts: Seq::empty(),
            blocks: 0,
            slots: 0,
            var_counter: 0,
            vars: Map::empty(),
            ..old(self)@
        }));
    }

    fn clear_loops(&mut self)
        ensures
            final(self)@ == (SpecGen { breaks: Seq::empty(), conts: Seq::empty(), ..old(self)@ }),
    {
        self.breaks = Vec::new();
        self.conts = Vec::new();
        assert(self@ =~= (SpecGen { breaks: Seq::empty(), conts: Seq::empty(), ..old(self)@ }));
    }

    fn entry_block(&mut self) -> (e: usize)
        requires
            gen_wf(old(self)@),
        ensures
            gen_wf(final(self)@),
            (final(self)@, e) == entry_block(old(self)@),
    {
        let e = self.new_block();
        self.emit(Inst::EntryParams(e));
        self.enter(e);
        e
    }

    fn bind_params(&mut self, ps: &Vec<Param>, entry: usize) -> (r: Result<(), String>)
        requires
            gen_wf(old(self)@),
        ensures
            gen_wf(final(self)@),
            crate::emit::step_matches(r, bind_params(old(self)@, params_view(ps@), entry, 0), final(self)@),
    {
        let ghost pv = params_view(ps@);
        let mut i: usize = 0;
        while i < ps.len()
            invariant
                gen_wf(self@),
                pv == params_view(ps@),
                i <= ps@.len(),
                bind_params(old(self)@, pv, entry, 0) == bind_params(self@, pv, entry, i as int),
            decreases ps@.len() - i,
        {
            assert(pv[i as int] == ps@[i as int]@);
            let v = self.emit(Inst::BlockParam(entry, i));
            if ps[i].ty.is_void() {
                return Err(void_text());
            }
            let c = cl_type(&ps[i].ty);
            let x = self.new_var(c);
            self.emit(Inst::DefVar(x, v));
            self.bind(&ps[i].name, VarEntry { var: x, ty: ps[i].ty.duplicate(), arr_size: None, arr_elem_ty: None });
            i = i + 1;
        }
        Ok(())
    }

    /// Compiles an ordinary function.
    pub fn compile_function(&mut self, ds: &Vec<Decl>, f: &FnDecl) -> (r: Result<FunctionIr, String>)
        requires
            gen_wf(old(self)@),
            decls_fit(decls_view(ds@)),
        ensures
            gen_wf(final(self)@),
            match r {
                Ok(fi) => gen_function(decls_view(ds@), old(self)@, f@) == Ok::<(SpecGen, SpecFunction), Seq<char>>(
                    (final(self)@, fi@),
                ),
                Err(m) => gen_function(decls_view(ds@), old(self)@, f@) == Err::<(SpecGen, SpecFunction), Seq<char>>(m@),
            },
    {
        proof {
            reveal_strlit("main");
        }
        let is_main = string_is(f.name.as_str(), "main");
        self.reset_locals();
        self.clear_loops();
        self.ret_ty = f.ret_ty.duplicate();
        self.is_main = is_main;
        let e = self.entry_block();
        match self.bind_params(&f.params, e) {
            Err(m) => {
                return Err(m);
            },
            Ok(_) => {},
        }
        let ended = match self.emit_stmts(ds, &f.body) {
            Err(m) => {
                return Err(m);
            },
            Ok(b) => b,
        };
        if !ended {
            if is_main {
                let z = self.iconst(ClType::I32, 0);
                self.emit(Inst::Return1(z));
            } else if f.ret_ty.is_void() {
                self.emit(Inst::Return0);
            }
        }
        let k = match find_fn(ds, f.name.as_str()) {
            Some(k) => k,
            None => 0,
        };
        Ok(
            FunctionIr {
                callee: Callee::User(k),
                params: param_cl_types(&f.params),
                returns: return_cl_types(is_main, &f.ret_ty),
                insts: self.insts.clone(),
            },
        )
    }
}

fn void_text() -> (m: String)
    ensures
        m@ == crate::emit::void_error(),
{
    String::from_str("void has no machine type")
}

/// The state before the first function: no code, no tables.
pub open spec fn start_state() -> SpecGen {
    SpecGen {
        insts: Seq::empty(),
        blocks: 0,
        slots: 0,
        var_counter: 0,
        vars: Map::empty(),
        breaks: Seq::empty(),
        conts: Seq::empty(),
        ctx_var: None,
        ret_ty: SpecType::Void,
        is_main: false,
        strings: Seq::empty(),
        floats: Seq::empty(),
    }
}

proof fn lemma_args_size(ps: Seq<SpecParam>, i: int)
    requires
        0 <= i <= ps.len(),
    ensures
        0 <= args_size(ps.take(i)) <= 8 * i,
        i < ps.len() ==> args_size(ps.take(i + 1)) == args_size(ps.take(i)) + size_of(ps[i].ty),
    decreases i,
{
    if i > 0 {
        lemma_args_size(ps, i - 1);
        assert(ps.take(i).drop_last() =~= ps.take(i - 1));
    }
    if i < ps.len() {
        assert(ps.take(i + 1).drop_last() =~= ps.take(i));
    }
}

/// A parameter list short enough that its offsets in a generator's context fit an `i64`.
pub open spec fn params_fit(ps: Seq<SpecParam>) -> bool {
    ps.len() < 0x0100_0000_0000_0000
}

impl CodeGen {
    fn store_args(&mut self, ps: &Vec<Param>, ctx: usize)
        requires
            gen_wf(old(self)@),
            params_fit(params_view(ps@)),
        ensures
            gen_wf(final(self)@),
            final(self)@ == store_args(old(self)@, params_view(ps@), ctx, 8, 0),
    {
        let ghost pv = params_view(ps@);
        let mut offset: i64 = 8;
        let mut i: usize = 0;
        while i < ps.len()
            invariant
                gen_wf(self@),
                pv == params_view(ps@),
                params_fit(pv),
                i <= ps@.len(),
                offset == 8 + args_size(pv.take(i as int)),
                store_args(old(self)@, pv, ctx, 8, 0) == store_args(self@, pv, ctx, offset as int, i as int),
            decreases ps@.len() - i,
        {
            proof {
                lemma_args_size(pv, i as int);
            }
            assert(pv[i as int] == ps@[i as int]@);
            let pvv = self.emit(Inst::BlockParam(0, i));
            let addr = self.emit(Inst::IaddImm(ctx, offset));
            self.emit(Inst::Store(pvv, addr));
            offset = offset + elem_size(&ps[i].ty) as i64;
            i = i + 1;
        }
    }

    fn load_args(&mut self, ps: &Vec<Param>, ctx: usize) -> (r: Result<(), String>)
        requires
            gen_wf(old(self)@),
            params_fit(params_view(ps@)),
        ensures
            gen_wf(final(self)@),
            crate::emit::step_matches(r, load_args(old(self)@, params_view(ps@), ctx, 8, 0), final(self)@),
    {
        let ghost pv = params_view(ps@);
        let mut offset: i64 = 8;
        let mut i: usize = 0;
        while i < ps.len()
            invariant
                gen_wf(self@),
                pv == params_view(ps@),
                params_fit(pv),
                i <= ps@.len(),
                offset == 8 + args_size(pv.take(i as int)),
                load_args(old(self)@, pv, ctx, 8, 0) == load_args(self@, pv, ctx, offset as int, i as int),
            decreases ps@.len() - i,
        {
            proof {
                lemma_args_size(pv, i as int);
            }
            assert(pv[i as int] == ps@[i as int]@);
            let addr = self.emit(Inst::IaddImm(ctx, offset));
            if ps[i].ty.is_void() {
                return Err(void_text());
            }
            let c = cl_type(&ps[i].ty);
            let v = self.emit(Inst::Load(c, addr));
            let x = self.new_var(c);
            self.emit(Inst::DefVar(x, v));
            self.bind(&ps[i].name, VarEntry { var: x, ty: ps[i].ty.duplicate(), arr_size: None, arr_elem_ty: None });
            offset = offset + elem_size(&ps[i].ty) as i64;
            i = i + 1;
        }
        Ok(())
    }

    /// Compiles a generator's wrapper.
    pub fn compile_wrapper(&mut self, ds: &Vec<Decl>, f: &FnDecl) -> (fi: FunctionIr)
        requires
            gen_wf(old(self)@),
            params_fit(params_view(f.params@)),
        ensures
            gen_wf(final(self)@),
            gen_wrapper(decls_view(ds@), old(self)@, f@) == (final(self)@, fi@),
    {
        let ghost pv = params_view(f.params@);
        self.reset_locals();
        let k = match find_fn(ds, f.name.as_str()) {
            Some(k) => k,
            None => 0,
        };
        self.entry_block();
        let mut size: i64 = 0;
        let mut i: usize = 0;
        while i < f.params.len()
            invariant
                pv == params_view(f.params@),
                params_fit(pv),
                i <= f.params@.len(),
                size == args_size(pv.take(i as int)),
            decreases f.params@.len() - i,
        {
            proof {
                lemma_args_size(pv, i as int);
            }
            assert(pv[i as int] == f.params@[i as int]@);
            size = size + elem_size(&f.params[i].ty) as i64;
            i = i + 1;
        }
        assert(pv.take(f.params@.len() as int) =~= pv);
        let bytes = self.iconst(ClType::I64, size);
        let ctx = self.call_rt1(Runtime::GenCtxAlloc, bytes);
        self.store_args(&f.params, ctx);
        let fp = self.emit(Inst::FuncAddr(Callee::Body(k)));
        let handle = self.call_rt2(Runtime::GenStart, fp, ctx);
        self.emit(Inst::Return1(handle));
        let mut rets: Vec<ClType> = Vec::new();
        rets.push(ClType::I64);
        assert(rets@ =~= seq![ClType::I64]);
        FunctionIr {
            callee: Callee::User(k),
            params: param_cl_types(&f.params),
            returns: rets,
            insts: self.insts.clone(),
        }
    }

    /// Compiles a generator's body.
    pub fn compile_body(&mut self, ds: &Vec<Decl>, f: &FnDecl) -> (r: Result<FunctionIr, String>)
        requires
            gen_wf(old(self)@),
            decls_fit(decls_view(ds@)),
            params_fit(params_view(f.params@)),
        ensures
            gen_wf(final(self)@),
            match r {
                Ok(fi) => gen_body(decls_view(ds@), old(self)@, f@) == Ok::<(SpecGen, SpecFunction), Seq<char>>(
                    (final(self)@, fi@),
                ),
                Err(m) => gen_body(decls_view(ds@), old(self)@, f@) == Err::<(SpecGen, SpecFunction), Seq<char>>(m@),
            },
    {
        self.reset_locals();
        self.clear_loops();
        self.ret_ty = Type::Void;
        let k = match find_fn(ds, f.name.as_str()) {
            Some(k) => k,
            None => 0,
        };
        let e = self.entry_block();
        let cp = self.emit(Inst::BlockParam(e, 0));
        let cv = self.new_var(ClType::I64);
        self.emit(Inst::DefVar(cv, cp));
        self.ctx_var = Some(cv);
        match self.load_args(&f.params, cp) {
            Err(m) => {
                return Err(m);
            },
            Ok(_) => {},
        }
        let ended = match self.emit_stmts(ds, &f.body) {
            Err(m) => {
                return Err(m);
            },
            Ok(b) => b,
        };
        if !ended {
            self.call_rt1(Runtime::GenEnd, cp);
            self.emit(Inst::Return0);
        }
        let insts = self.insts.clone();
        self.ctx_var = None;
        let mut ps: Vec<ClType> = Vec::new();
        ps.push(ClType::I64);
        assert(ps@ =~= seq![ClType::I64]);
        let rets: Vec<ClType> = Vec::new();
        assert(rets@ =~= Seq::<ClType>::empty());
        Ok(FunctionIr { callee: Callee::Body(k), params: ps, returns: rets, insts })
    }
}

// ─── The module ──────────────────────────────────────────────────────────────

/// How a function is visible: inside the module, exported from it, or imported into it.
#[derive(Debug, Clone, Copy, PartialEq, Eq, Structural)]
pub enum Linkage {
    Local,
    Export,
    Import,
}

/// A function the module declares: what calls name it by, its symbol, visibility and
/// machine signature.
pub struct SpecDeclaration {
    pub callee: Callee,
    pub name: Seq<char>,
    pub linkage: Linkage,
    pub params: Seq<ClType>,
    pub returns: Seq<ClType>,
}

pub struct Declaration {
    pub callee: Callee,
    pub name: String,
    pub linkage: Linkage,
    pub params: Vec<ClType>,
    pub returns: Vec<ClType>,
}

impl View for Declaration {
    type V = SpecDeclaration;

    open spec fn view(&self) -> SpecDeclaration {
        SpecDeclaration {
            callee: self.callee,
            name: self.name@,
            linkage: self.linkage,
            params: self.params@,
            returns: self.returns@,
        }
    }
}

/// The declarations for the function declared at index `k`: a generator's wrapper and
/// body, or the function itself (`main` exported and returning a status).
pub open spec fn fn_declarations(ds: SpecDecls, k: int, f: SpecFnDecl) -> Seq<SpecDeclaration> {
    if is_gen_name(ds, f.name) {
        seq![
            SpecDeclaration {
                callee: Callee::User(k as usize),
                name: f.name,
                linkage: Linkage::Local,
                params: param_types(f.params),
                returns: seq![ClType::I64],
            },
            SpecDeclaration {
                callee: Callee::Body(k as usize),
                name: crate::emit::body_name(f.name),
                linkage: Linkage::Local,
                params: seq![ClType::I64],
                returns: Seq::empty(),
            },
        ]
    } else {
        let is_main = f.name == "main"@;
        seq![
            SpecDeclaration {
                callee: Callee::User(k as usize),
                name: f.name,
                linkage: if is_main {
                    Linkage::Export
                } else {
                    Linkage::Local
                },
                params: param_types(f.params),
                returns: return_types(is_main, f.ret_ty),
            },
        ]
    }
}

/// The declarations for the first `n` declarations: one set per function name, for the
/// last function declared with it.
pub open spec fn declarations_upto(ds: SpecDecls, n: int) -> Seq<SpecDeclaration>
    decreases n,
{
    if n <= 0 || n > ds.len() {
        Seq::empty()
    } else {
        declarations_upto(ds, n - 1) + match ds[n - 1] {
            SpecDecl::Fn(f) => if fn_decl(ds, f.name) == Some(n - 1) {
                fn_declarations(ds, n - 1, f)
            } else {
                Seq::empty()
            },
            SpecDecl::Struct(_) => Seq::empty(),
        }
    }
}

/// The code of the functions declared from index `i`, after `done`: a generator gives its
/// wrapper then its body.
pub open spec fn functions_from(ds: SpecDecls, g: SpecGen, i: int, done: Seq<SpecFunction>) -> Result<(SpecGen, Seq<SpecFunction>), Seq<char>>
    decreases ds.len() - i,
{
    if 0 <= i < ds.len() {
        match ds[i] {
            SpecDecl::Fn(f) => if f.is_gen {
                let (g1, w) = gen_wrapper(ds, g, f);
                match gen_body(ds, g1, f) {
                    Err(m) => Err(m),
                    Ok((g2, b)) => functions_from(ds, g2, i + 1, done.push(w).push(b)),
                }
            } else {
                match gen_function(ds, g, f) {
                    Err(m) => Err(m),
                    Ok((g1, fi)) => functions_from(ds, g1, i + 1, done.push(fi)),
                }
            },
            SpecDecl::Struct(_) => functions_from(ds, g, i + 1, done),
        }
    } else {
        Ok((g, done))
    }
}

/// A compiled program: its declarations, the code of its functions, and the texts and
/// float literals that the code refers to by index.
pub struct SpecModule {
    pub declarations: Seq<SpecDeclaration>,
    pub functions: Seq<SpecFunction>,
    pub strings: Seq<Seq<char>>,
    pub floats: Seq<Seq<char>>,
}

pub struct ModuleIr {
    pub declarations: Vec<Declaration>,
    pub functions: Vec<FunctionIr>,
    pub strings: Vec<String>,
    pub floats: Vec<String>,
}

impl View for ModuleIr {
    type V = SpecModule;

    open spec fn view(&self) -> SpecModule {
        SpecModule {
            declarations: self.declarations@.map_values(|d: Declaration| d@),
            functions: self.functions@.map_values(|f: FunctionIr| f@),
            strings: texts_view(self.strings@),
            floats: texts_view(self.floats@),
        }
    }
}

/// Every function's parameters fit a generator's context.
pub open spec fn all_params_fit(ds: SpecDecls) -> bool {
    forall|i: int|
        0 <= i < ds.len() ==> match #[trigger] ds[i] {
            SpecDecl::Fn(f) => params_fit(f.params),
            SpecDecl::Struct(_) => true,
        }
}

/// The compiled program, or the error that stops compilation.
pub open spec fn gen_module(ds: SpecDecls) -> Result<SpecModule, Seq<char>> {
    if !decls_fit(ds) {
        Err("struct too large"@)
    } else if !all_params_fit(ds) {
        Err("too many parameters"@)
    } else {
        match functions_from(ds, start_state(), 0, Seq::empty()) {
            Err(m) => Err(m),
            Ok((g, fs)) => Ok(
                SpecModule {
                    declarations: declarations_upto(ds, ds.len() as int),
                    functions: fs,
                    strings: g.strings,
                    floats: g.floats,
                },
            ),
        }
    }
}

pub open spec fn declarations_view(v: Seq<Declaration>) -> Seq<SpecDeclaration> {
    v.map_values(|d: Declaration| d@)
}

pub open spec fn functions_view(v: Seq<FunctionIr>) -> Seq<SpecFunction> {
    v.map_values(|f: FunctionIr| f@)
}

fn push_fn_declarations(out: &mut Vec<Declaration>, ds: &Vec<Decl>, k: usize, f: &FnDecl)
    ensures
        declarations_view(final(out)@) == declarations_view(old(out)@) + fn_declarations(
            decls_view(ds@),
            k as int,
            f@,
        ),
{
    let ghost before = declarations_view(out@);
    if is_generator(ds, f.name.as_str()) {
        let mut w_rets: Vec<ClType> = Vec::new();
        w_rets.push(ClType::I64);
        assert(w_rets@ =~= seq![ClType::I64]);
        out.push(
            Declaration {
                callee: Callee::User(k),
                name: f.name.clone(),
                linkage: Linkage::Local,
                params: param_cl_types(&f.params),
                returns: w_rets,
            },
        );
        let mut b_params: Vec<ClType> = Vec::new();
        b_params.push(ClType::I64);
        assert(b_params@ =~= seq![ClType::I64]);
        let b_rets: Vec<ClType> = Vec::new();
        assert(b_rets@ =~= Seq::<ClType>::empty());
        let mut bname = String::from_str("__");
        bname.append(f.name.as_str());
        bname.append("_body");
        out.push(
            Declaration {
                callee: Callee::Body(k),
                name: bname,
                linkage: Linkage::Local,
                params: b_params,
                returns: b_rets,
            },
        );
    } else {
        proof {
            reveal_strlit("main");
        }
        let is_main = string_is(f.name.as_str(), "main");
        out.push(
            Declaration {
                callee: Callee::User(k),
                name: f.name.clone(),
                linkage: if is_main {
                    Linkage::Export
                } else {
                    Linkage::Local
                },
                params: param_cl_types(&f.params),
                returns: return_cl_types(is_main, &f.ret_ty),
            },
        );
    }
    assert(declarations_view(out@) =~= before + fn_declarations(decls_view(ds@), k as int, f@));
}

/// The functions the module declares: for each function name, the last function declared
/// with it (a generator as its wrapper and its body).
pub fn module_declarations(ds: &Vec<Decl>) -> (out: Vec<Declaration>)
    ensures
        declarations_view(out@) == declarations_upto(decls_view(ds@), ds@.len() as int),
{
    let ghost sds = decls_view(ds@);
    let mut out: Vec<Declaration> = Vec::new();
    let mut i: usize = 0;
    assert(declarations_view(out@) =~= Seq::<SpecDeclaration>::empty());
    while i < ds.len()
        invariant
            sds == decls_view(ds@),
            i <= ds@.len(),
            declarations_view(out@) == declarations_upto(sds, i as int),
        decreases ds@.len() - i,
    {
        assert(sds[i as int] == ds@[i as int]@);
        match &ds[i] {
            Decl::Fn(f) => {
                match find_fn(ds, f.name.as_str()) {
                    Some(k) => {
                        if k == i {
                            push_fn_declarations(&mut out, ds, i, f);
                        } else {
                            assert(declarations_view(out@) + Seq::<SpecDeclaration>::empty()
                                =~= declarations_view(out@));
                        }
                    },
                    None => {
                        assert(declarations_view(out@) + Seq::<SpecDeclaration>::empty()
                            =~= declarations_view(out@));
                    },
                }
            },
            Decl::Struct(_) => {
                assert(declarations_view(out@) + Seq::<SpecDeclaration>::empty()
                    =~= declarations_view(out@));
            },
        }
        i = i + 1;
    }
    out
}

fn check_decls(ds: &Vec<Decl>) -> (r: Result<(), String>)
    ensures
        match r {
            Ok(_) => decls_fit(decls_view(ds@)) && all_params_fit(decls_view(ds@)),
            Err(m) => if !decls_fit(decls_view(ds@)) {
                m@ == "struct too large"@
            } else {
                !all_params_fit(decls_view(ds@)) && m@ == "too many parameters"@
            },
        },
{
    let ghost sds = decls_view(ds@);
    let mut i: usize = 0;
    while i < ds.len()
        invariant
            sds == decls_view(ds@),
            i <= ds@.len(),
            forall|k: int|
                0 <= k < i ==> match #[trigger] sds[k] {
                    SpecDecl::Struct(sd) => crate::ir::layout_fits(sd.fields),
                    SpecDecl::Fn(_) => true,
                },
        decreases ds@.len() - i,
    {
        assert(sds[i as int] == ds@[i as int]@);
        match &ds[i] {
            Decl::Struct(sd) => {
                if !crate::ir::layout_fits_of(&sd.fields) {
                    return Err(String::from_str("struct too large"));
                }
            },
            Decl::Fn(_) => {},
        }
        i = i + 1;
    }
    let mut i: usize = 0;
    while i < ds.len()
        invariant
            sds == decls_view(ds@),
            decls_fit(sds),
            i <= ds@.len(),
            forall|k: int|
                0 <= k < i ==> match #[trigger] sds[k] {
                    SpecDecl::Fn(f) => params_fit(f.params),
                    SpecDecl::Struct(_) => true,
                },
        decreases ds@.len() - i,
    {
        assert(sds[i as int] == ds@[i as int]@);
        match &ds[i] {
            Decl::Fn(f) => {
                if f.params.len() as u64 >= 0x0100_0000_0000_0000u64 {
                    return Err(String::from_str("too many parameters"));
                }
            },
            Decl::Struct(_) => {},
        }
        i = i + 1;
    }
    Ok(())
}

impl CodeGen {
    /// Compiles a program: the functions it declares and the code of each of its functions,
    /// in the order they are declared, or the error that stops compilation.
    pub fn generate(program: &Program) -> (r: Result<ModuleIr, String>)
        ensures
            match r {
                Ok(m) => gen_module(program@.decls) == Ok::<SpecModule, Seq<char>>(m@),
                Err(e) => gen_module(program@.decls) == Err::<SpecModule, Seq<char>>(e@),
            },
    {
        let ds = &program.decls;
        let ghost sds = decls_view(ds@);
        match check_decls(ds) {
            Err(m) => {
                return Err(m);
            },
            Ok(_) => {},
        }
        let mut g = CodeGen::new();
        let mut fs: Vec<FunctionIr> = Vec::new();
        let mut i: usize = 0;
        assert(functions_view(fs@) =~= Seq::<SpecFunction>::empty());
        while i < ds.len()
            invariant
                sds == decls_view(ds@),
                sds == program@.decls,
                decls_fit(sds),
                all_params_fit(sds),
                gen_wf(g@),
                i <= ds@.len(),
                functions_from(sds, start_state(), 0, Seq::empty()) == functions_from(
                    sds,
                    g@,
                    i as int,
                    functions_view(fs@),
                ),
            decreases ds@.len() - i,
        {
            assert(sds[i as int] == ds@[i as int]@);
            match &ds[i] {
                Decl::Fn(f) => {
                    if f.is_gen {
                        assert(sds[i as int] == SpecDecl::Fn(f@));
                        let w = g.compile_wrapper(ds, f);
                        let b = match g.compile_body(ds, f) {
                            Err(m) => {
                                return Err(m);
                            },
                            Ok(b) => b,
                        };
                        let ghost before = functions_view(fs@);
                        fs.push(w);
                        fs.push(b);
                        assert(functions_view(fs@) =~= before.push(w@).push(b@));
                    } else {
                        assert(sds[i as int] == SpecDecl::Fn(f@));
                        let fi = match g.compile_function(ds, f) {
                            Err(m) => {
                                return Err(m);
                            },
                            Ok(fi) => fi,
                        };
                        let ghost before = functions_view(fs@);
                        fs.push(fi);
                        assert(functions_view(fs@) =~= before.push(fi@));
                    }
                },
                Decl::Struct(_) => {},
            }
            i = i + 1;
        }
        let decls = module_declarations(ds);
        Ok(ModuleIr { declarations: decls, functions: fs, strings: g.strings, floats: g.floats })
    }
}

} // verus!
