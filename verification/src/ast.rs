use vstd::prelude::*;

verus! {

/// A Vyrn type.
#[derive(Debug)]
pub enum Type {
    I32,
    I64,
    F32,
    F64,
    Str,
    Bool,
    Void,
    U32,
    Array(Box<Type>),
    Custom(String),
}

#[derive(Debug, Clone, Copy, PartialEq, Eq, Structural)]
pub enum BinaryOp {
    Add,
    Sub,
    Mul,
    Div,
    Mod,
    Eq,
    NotEq,
    Lt,
    Le,
    Gt,
    Ge,
    And,
    Or,
    BitAnd,
    BitOr,
    BitXor,
    Shl,
    Shr,
}

#[derive(Debug, Clone, Copy, PartialEq, Eq, Structural)]
pub enum UnaryOp {
    Neg,
    Not,
}

/// An expression. A float literal keeps its decimal text, which denotes the nearest `f64`.
#[derive(Debug)]
pub enum Expr {
    Int(i64),
    Float(String),
    Str(String),
    FStr(String),
    Bool(bool),
    Ident(String),
    Binary { left: Box<Expr>, op: BinaryOp, right: Box<Expr> },
    Unary { op: UnaryOp, expr: Box<Expr> },
    Call { name: String, args: Vec<Expr> },
    Index { array: Box<Expr>, index: Box<Expr> },
    Field { object: Box<Expr>, field: String },
    Array(Vec<Expr>),
    StructLit { name: String, fields: Vec<(String, Expr)> },
}

/// `let [mut] name [: ty] = value;`
#[derive(Debug)]
pub struct VarDecl {
    pub name: String,
    pub ty: Option<Type>,
    pub value: Expr,
    pub mutable: bool,
}

/// What a `for` loop walks: a range, or an array or generator.
#[derive(Debug)]
pub enum ForIter {
    Range { start: Expr, end: Expr, inclusive: bool },
    Expr(Expr),
}

#[derive(Debug)]
pub enum Stmt {
    VarDecl(VarDecl),
    Assign { target: Expr, value: Expr },
    If { cond: Expr, then_block: Vec<Stmt>, else_block: Option<Vec<Stmt>> },
    For { label: Option<String>, var: String, iter: ForIter, body: Vec<Stmt> },
    While { label: Option<String>, cond: Expr, body: Vec<Stmt> },
    Return(Option<Expr>),
    Break(Option<String>),
    Continue(Option<String>),
    Yield(Expr),
    Expr(Expr),
}

#[derive(Debug)]
pub struct Param {
    pub name: String,
    pub ty: Type,
}

/// A function declaration; `is_gen` marks a generator (`gen fn`).
#[derive(Debug)]
pub struct FnDecl {
    pub name: String,
    pub params: Vec<Param>,
    pub ret_ty: Type,
    pub body: Vec<Stmt>,
    pub is_gen: bool,
}

#[derive(Debug)]
pub struct StructDecl {
    pub name: String,
    pub fields: Vec<(String, Type)>,
}

#[derive(Debug)]
pub enum Decl {
    Fn(FnDecl),
    Struct(StructDecl),
}

#[derive(Debug)]
pub struct Program {
    pub decls: Vec<Decl>,
}

// ─── The mathematical syntax tree ────────────────────────────────────────────

pub enum SpecType {
    I32,
    I64,
    F32,
    F64,
    Str,
    Bool,
    Void,
    U32,
    Array(Box<SpecType>),
    Custom(Seq<char>),
}

pub enum SpecExpr {
    Int(i64),
    Float(Seq<char>),
    Str(Seq<char>),
    FStr(Seq<char>),
    Bool(bool),
    Ident(Seq<char>),
    Binary { left: Box<SpecExpr>, op: BinaryOp, right: Box<SpecExpr> },
    Unary { op: UnaryOp, expr: Box<SpecExpr> },
    Call { name: Seq<char>, args: Seq<SpecExpr> },
    Index { array: Box<SpecExpr>, index: Box<SpecExpr> },
    Field { object: Box<SpecExpr>, field: Seq<char> },
    Array(Seq<SpecExpr>),
    StructLit { name: Seq<char>, fields: Seq<(Seq<char>, SpecExpr)> },
}

pub struct SpecVarDecl {
    pub name: Seq<char>,
    pub ty: Option<SpecType>,
    pub value: SpecExpr,
    pub mutable: bool,
}

pub enum SpecForIter {
    Range { start: SpecExpr, end: SpecExpr, inclusive: bool },
    Expr(SpecExpr),
}

pub enum SpecStmt {
    VarDecl(SpecVarDecl),
    Assign { target: SpecExpr, value: SpecExpr },
    If { cond: SpecExpr, then_block: Seq<SpecStmt>, else_block: Option<Seq<SpecStmt>> },
    For { label: Option<Seq<char>>, var: Seq<char>, iter: SpecForIter, body: Seq<SpecStmt> },
    While { label: Option<Seq<char>>, cond: SpecExpr, body: Seq<SpecStmt> },
    Return(Option<SpecExpr>),
    Break(Option<Seq<char>>),
    Continue(Option<Seq<char>>),
    Yield(SpecExpr),
    Expr(SpecExpr),
}

pub struct SpecParam {
    pub name: Seq<char>,
    pub ty: SpecType,
}

pub struct SpecFnDecl {
    pub name: Seq<char>,
    pub params: Seq<SpecParam>,
    pub ret_ty: SpecType,
    pub body: Seq<SpecStmt>,
    pub is_gen: bool,
}

pub struct SpecStructDecl {
    pub name: Seq<char>,
    pub fields: Seq<(Seq<char>, SpecType)>,
}

pub enum SpecDecl {
    Fn(SpecFnDecl),
    Struct(SpecStructDecl),
}

pub struct SpecProgram {
    pub decls: Seq<SpecDecl>,
}

// ─── Views ───────────────────────────────────────────────────────────────────

pub open spec fn type_view(t: Type) -> SpecType
    decreases t,
{
    match t {
        Type::I32 => SpecType::I32,
        Type::I64 => SpecType::I64,
        Type::F32 => SpecType::F32,
        Type::F64 => SpecType::F64,
        Type::Str => SpecType::Str,
        Type::Bool => SpecType::Bool,
        Type::Void => SpecType::Void,
        Type::U32 => SpecType::U32,
        Type::Array(e) => SpecType::Array(Box::new(type_view(*e))),
        Type::Custom(n) => SpecType::Custom(n@),
    }
}

impl View for Type {
    type V = SpecType;

    open spec fn view(&self) -> SpecType {
        type_view(*self)
    }
}

pub open spec fn opt_type_view(t: Option<Type>) -> Option<SpecType> {
    match t {
        Some(t) => Some(t@),
        None => None,
    }
}

pub open spec fn opt_name_view(n: Option<String>) -> Option<Seq<char>> {
    match n {
        Some(n) => Some(n@),
        None => None,
    }
}

pub open spec fn expr_view(e: Expr) -> SpecExpr
    decreases e, 0int,
{
    match e {
        Expr::Int(n) => SpecExpr::Int(n),
        Expr::Float(s) => SpecExpr::Float(s@),
        Expr::Str(s) => SpecExpr::Str(s@),
        Expr::FStr(s) => SpecExpr::FStr(s@),
        Expr::Bool(b) => SpecExpr::Bool(b),
        Expr::Ident(s) => SpecExpr::Ident(s@),
        Expr::Binary { left, op, right } => SpecExpr::Binary {
            left: Box::new(expr_view(*left)),
            op,
            right: Box::new(expr_view(*right)),
        },
        Expr::Unary { op, expr } => SpecExpr::Unary { op, expr: Box::new(expr_view(*expr)) },
        Expr::Call { name, args } => SpecExpr::Call { name: name@, args: exprs_view(args@) },
        Expr::Index { array, index } => SpecExpr::Index {
            array: Box::new(expr_view(*array)),
            index: Box::new(expr_view(*index)),
        },
        Expr::Field { object, field } => SpecExpr::Field {
            object: Box::new(expr_view(*object)),
            field: field@,
        },
        Expr::Array(es) => SpecExpr::Array(exprs_view(es@)),
        Expr::StructLit { name, fields } => SpecExpr::StructLit {
            name: name@,
            fields: field_inits_view(fields@),
        },
    }
}

pub open spec fn exprs_view(es: Seq<Expr>) -> Seq<SpecExpr>
    decreases es, 1int,
{
    if es.len() == 0 {
        Seq::empty()
    } else {
        exprs_view(es.drop_last()).push(expr_view(es.last()))
    }
}

pub open spec fn field_inits_view(fs: Seq<(String, Expr)>) -> Seq<(Seq<char>, SpecExpr)>
    decreases fs, 1int,
{
    if fs.len() == 0 {
        Seq::empty()
    } else {
        field_inits_view(fs.drop_last()).push((fs.last().0@, expr_view(fs.last().1)))
    }
}

impl View for Expr {
    type V = SpecExpr;

    open spec fn view(&self) -> SpecExpr {
        expr_view(*self)
    }
}

pub open spec fn opt_expr_view(e: Option<Expr>) -> Option<SpecExpr> {
    match e {
        Some(e) => Some(e@),
        None => None,
    }
}

pub open spec fn for_iter_view(it: ForIter) -> SpecForIter {
    match it {
        ForIter::Range { start, end, inclusive } => SpecForIter::Range {
            start: start@,
            end: end@,
            inclusive,
        },
        ForIter::Expr(e) => SpecForIter::Expr(e@),
    }
}

impl View for ForIter {
    type V = SpecForIter;

    open spec fn view(&self) -> SpecForIter {
        for_iter_view(*self)
    }
}

impl View for VarDecl {
    type V = SpecVarDecl;

    open spec fn view(&self) -> SpecVarDecl {
        SpecVarDecl {
            name: self.name@,
            ty: opt_type_view(self.ty),
            value: self.value@,
            mutable: self.mutable,
        }
    }
}

pub open spec fn stmt_view(s: Stmt) -> SpecStmt
    decreases s, 0int,
{
    match s {
        Stmt::VarDecl(vd) => SpecStmt::VarDecl(vd@),
        Stmt::Assign { target, value } => SpecStmt::Assign { target: target@, value: value@ },
        Stmt::If { cond, then_block, else_block } => SpecStmt::If {
            cond: cond@,
            then_block: stmts_view(then_block@),
            else_block: match else_block {
                Some(b) => Some(stmts_view(b@)),
                None => None,
            },
        },
        Stmt::For { label, var, iter, body } => SpecStmt::For {
            label: opt_name_view(label),
            var: var@,
            iter: iter@,
            body: stmts_view(body@),
        },
        Stmt::While { label, cond, body } => SpecStmt::While {
            label: opt_name_view(label),
            cond: cond@,
            body: stmts_view(body@),
        },
        Stmt::Return(e) => SpecStmt::Return(opt_expr_view(e)),
        Stmt::Break(l) => SpecStmt::Break(opt_name_view(l)),
        Stmt::Continue(l) => SpecStmt::Continue(opt_name_view(l)),
        Stmt::Yield(e) => SpecStmt::Yield(e@),
        Stmt::Expr(e) => SpecStmt::Expr(e@),
    }
}

pub open spec fn stmts_view(ss: Seq<Stmt>) -> Seq<SpecStmt>
    decreases ss, 1int,
{
    if ss.len() == 0 {
        Seq::empty()
    } else {
        stmts_view(ss.drop_last()).push(stmt_view(ss.last()))
    }
}

impl View for Stmt {
    type V = SpecStmt;

    open spec fn view(&self) -> SpecStmt {
        stmt_view(*self)
    }
}

impl View for Param {
    type V = SpecParam;

    open spec fn view(&self) -> SpecParam {
        SpecParam { name: self.name@, ty: self.ty@ }
    }
}

pub open spec fn params_view(ps: Seq<Param>) -> Seq<SpecParam> {
    ps.map_values(|p: Param| p@)
}

pub open spec fn field_decls_view(fs: Seq<(String, Type)>) -> Seq<(Seq<char>, SpecType)> {
    fs.map_values(|f: (String, Type)| (f.0@, f.1@))
}

impl View for FnDecl {
    type V = SpecFnDecl;

    open spec fn view(&self) -> SpecFnDecl {
        SpecFnDecl {
            name: self.name@,
            params: params_view(self.params@),
            ret_ty: self.ret_ty@,
            body: stmts_view(self.body@),
            is_gen: self.is_gen,
        }
    }
}

impl View for StructDecl {
    type V = SpecStructDecl;

    open spec fn view(&self) -> SpecStructDecl {
        SpecStructDecl { name: self.name@, fields: field_decls_view(self.fields@) }
    }
}

impl View for Decl {
    type V = SpecDecl;

    open spec fn view(&self) -> SpecDecl {
        match self {
            Decl::Fn(f) => SpecDecl::Fn(f@),
            Decl::Struct(s) => SpecDecl::Struct(s@),
        }
    }
}

pub open spec fn decls_view(ds: Seq<Decl>) -> Seq<SpecDecl> {
    ds.map_values(|d: Decl| d@)
}

impl View for Program {
    type V = SpecProgram;

    open spec fn view(&self) -> SpecProgram {
        SpecProgram { decls: decls_view(self.decls@) }
    }
}

// ─── Rendering types ─────────────────────────────────────────────────────────

/// How a type is written in Vyrn source.
pub open spec fn type_text(t: SpecType) -> Seq<char>
    decreases t,
{
    match t {
        SpecType::I32 => "i32"@,
        SpecType::I64 => "i64"@,
        SpecType::F32 => "f32"@,
        SpecType::F64 => "f64"@,
        SpecType::Str => "str"@,
        SpecType::Bool => "bool"@,
        SpecType::Void => "void"@,
        SpecType::U32 => "u32"@,
        SpecType::Array(e) => "["@ + type_text(*e) + "]"@,
        SpecType::Custom(n) => n,
    }
}

impl Type {
    /// The type as written in Vyrn source, e.g. `[i32]`.
    pub fn to_text(&self) -> (s: String)
        ensures
            s@ == type_text(self@),
        decreases self,
    {
        match self {
            Type::I32 => String::from_str("i32"),
            Type::I64 => String::from_str("i64"),
            Type::F32 => String::from_str("f32"),
            Type::F64 => String::from_str("f64"),
            Type::Str => String::from_str("str"),
            Type::Bool => String::from_str("bool"),
            Type::Void => String::from_str("void"),
            Type::U32 => String::from_str("u32"),
            Type::Array(e) => {
                let inner = e.to_text();
                let mut s = String::from_str("[");
                s.append(inner.as_str());
                s.append("]");
                s
            },
            Type::Custom(n) => n.clone(),
        }
    }

    /// Whether this is `void`.
    pub fn is_void(&self) -> (r: bool)
        ensures
            r == (self@ == SpecType::Void),
    {
        match self {
            Type::Void => true,
            _ => false,
        }
    }

    /// A copy of the type.
    pub fn duplicate(&self) -> (t: Type)
        ensures
            t@ == self@,
        decreases self,
    {
        match self {
            Type::I32 => Type::I32,
            Type::I64 => Type::I64,
            Type::F32 => Type::F32,
            Type::F64 => Type::F64,
            Type::Str => Type::Str,
            Type::Bool => Type::Bool,
            Type::Void => Type::Void,
            Type::U32 => Type::U32,
            Type::Array(e) => Type::Array(Box::new(e.duplicate())),
            Type::Custom(n) => Type::Custom(n.clone()),
        }
    }

    /// Whether the two types are the same.
    pub fn same_as(&self, other: &Type) -> (r: bool)
        ensures
            r == (self@ == other@),
        decreases self,
    {
        match (self, other) {
            (Type::I32, Type::I32) => true,
            (Type::I64, Type::I64) => true,
            (Type::F32, Type::F32) => true,
            (Type::F64, Type::F64) => true,
            (Type::Str, Type::Str) => true,
            (Type::Bool, Type::Bool) => true,
            (Type::Void, Type::Void) => true,
            (Type::U32, Type::U32) => true,
            (Type::Array(a), Type::Array(b)) => a.same_as(b),
            (Type::Custom(a), Type::Custom(b)) => string_eq(a, b),
            _ => false,
        }
    }
}

impl Clone for Type {
    fn clone(&self) -> (t: Self)
        ensures
            t@ == self@,
    {
        self.duplicate()
    }
}

/// Whether two strings hold the same characters.
pub fn string_eq(a: &String, b: &String) -> (r: bool)
    ensures
        r == (a@ == b@),
{
    a.eq(b)
}

/// The views of a list of expressions are the views of its elements.
pub proof fn lemma_exprs_view(es: Seq<Expr>)
    ensures
        exprs_view(es).len() == es.len(),
        forall|i: int| 0 <= i < es.len() ==> #[trigger] exprs_view(es)[i] == expr_view(es[i]),
    decreases es.len(),
{
    if es.len() > 0 {
        lemma_exprs_view(es.drop_last());
        assert forall|i: int| 0 <= i < es.len() implies #[trigger] exprs_view(es)[i] == expr_view(
            es[i],
        ) by {
            if i < es.len() - 1 {
                assert(es.drop_last()[i] == es[i]);
            }
        }
    }
}

/// The views of a list of field initialisers are the views of its elements.
pub proof fn lemma_field_inits_view(fs: Seq<(String, Expr)>)
    ensures
        field_inits_view(fs).len() == fs.len(),
        forall|i: int|
            0 <= i < fs.len() ==> #[trigger] field_inits_view(fs)[i] == (fs[i].0@, expr_view(fs[i].1)),
    decreases fs.len(),
{
    if fs.len() > 0 {
        lemma_field_inits_view(fs.drop_last());
        assert forall|i: int| 0 <= i < fs.len() implies #[trigger] field_inits_view(fs)[i] == (
            fs[i].0@,
            expr_view(fs[i].1),
        ) by {
            if i < fs.len() - 1 {
                assert(fs.drop_last()[i] == fs[i]);
            }
        }
    }
}

/// The views of a list of statements are the views of its elements.
pub proof fn lemma_stmts_view(ss: Seq<Stmt>)
    ensures
        stmts_view(ss).len() == ss.len(),
        forall|i: int| 0 <= i < ss.len() ==> #[trigger] stmts_view(ss)[i] == stmt_view(ss[i]),
    decreases ss.len(),
{
    if ss.len() > 0 {
        lemma_stmts_view(ss.drop_last());
        assert forall|i: int| 0 <= i < ss.len() implies #[trigger] stmts_view(ss)[i] == stmt_view(
            ss[i],
        ) by {
            if i < ss.len() - 1 {
                assert(ss.drop_last()[i] == ss[i]);
            }
        }
    }
}

} // verus!
