use vyrn::ast::{BinaryOp, Decl, Expr, ForIter, Program, Stmt, Type, UnaryOp};
use vyrn::lexer::Lexer;
use vyrn::parser::{ParseError, Parser};

fn parse(src: &str) -> Result<Program, ParseError> {
    let mut l = Lexer::new(src);
    let ts = l.tokenize().ok().expect("source should lex");
    let mut p = Parser::new(ts);
    p.parse()
}

fn parse_ok(src: &str) -> Program {
    match parse(src) {
        Ok(p) => p,
        Err(e) => panic!("unexpected parse error: {}", e.describe()),
    }
}

fn body_of(p: &Program, k: usize) -> &Vec<Stmt> {
    match &p.decls[k] {
        Decl::Fn(f) => &f.body,
        _ => panic!("not a function"),
    }
}

#[test]
fn function_signature_and_struct() {
    let p = parse_ok("struct P { x: i32, y: f64 }\ngen fn count(n: i64, xs: [u32]) -> i64 { }");
    assert_eq!(p.decls.len(), 2);
    match &p.decls[0] {
        Decl::Struct(s) => {
            assert_eq!(s.name, "P");
            assert_eq!(s.fields.len(), 2);
            assert_eq!(s.fields[0].0, "x");
            assert_eq!(s.fields[0].1.to_text(), "i32");
            assert_eq!(s.fields[1].1.to_text(), "f64");
        },
        _ => panic!("expected a struct"),
    }
    match &p.decls[1] {
        Decl::Fn(f) => {
            assert_eq!(f.name, "count");
            assert!(f.is_gen);
            assert_eq!(f.params.len(), 2);
            assert_eq!(f.params[1].ty.to_text(), "[u32]");
            assert_eq!(f.ret_ty.to_text(), "i64");
        },
        _ => panic!("expected a function"),
    }
}

#[test]
fn missing_return_type_is_void() {
    let p = parse_ok("fn main() { }");
    match &p.decls[0] {
        Decl::Fn(f) => {
            assert!(f.ret_ty.is_void());
            assert!(!f.is_gen);
        },
        _ => panic!("expected a function"),
    }
}

#[test]
fn precedence_of_binary_operators() {
    let p = parse_ok("fn main() { let a = 1 + 2 * 3 == 7 && !b; }");
    match &body_of(&p, 0)[0] {
        Stmt::VarDecl(vd) => {
            assert_eq!(vd.name, "a");
            assert!(!vd.mutable);
            match &vd.value {
                Expr::Binary { left, op, right } => {
                    assert_eq!(*op, BinaryOp::And);
                    match &**right {
                        Expr::Unary { op, .. } => assert_eq!(*op, UnaryOp::Not),
                        _ => panic!("expected a negation"),
                    }
                    match &**left {
                        Expr::Binary { op, left, .. } => {
                            assert_eq!(*op, BinaryOp::Eq);
                            match &**left {
                                Expr::Binary { op, right, .. } => {
                                    assert_eq!(*op, BinaryOp::Add);
                                    match &**right {
                                        Expr::Binary { op, .. } => assert_eq!(*op, BinaryOp::Mul),
                                        _ => panic!("expected a product"),
                                    }
                                },
                                _ => panic!("expected a sum"),
                            }
                        },
                        _ => panic!("expected a comparison"),
                    }
                },
                _ => panic!("expected a binary expression"),
            }
        },
        _ => panic!("expected a declaration"),
    }
}

#[test]
fn loops_with_labels_and_jumps() {
    let p = parse_ok("fn main() { 'outer: for i in 0..=3 { while true { break 'outer; continue; } } for x in (xs) { } }");
    let body = body_of(&p, 0);
    match &body[0] {
        Stmt::For { label, var, iter, body } => {
            assert_eq!(label.as_deref(), Some("outer"));
            assert_eq!(var, "i");
            match iter {
                ForIter::Range { inclusive, .. } => assert!(*inclusive),
                _ => panic!("expected a range"),
            }
            match &body[0] {
                Stmt::While { label, body, .. } => {
                    assert!(label.is_none());
                    match &body[0] {
                        Stmt::Break(l) => assert_eq!(l.as_deref(), Some("outer")),
                        _ => panic!("expected break"),
                    }
                    match &body[1] {
                        Stmt::Continue(l) => assert!(l.is_none()),
                        _ => panic!("expected continue"),
                    }
                },
                _ => panic!("expected while"),
            }
        },
        _ => panic!("expected for"),
    }
    match &body[1] {
        Stmt::For { iter: ForIter::Expr(Expr::Ident(n)), .. } => assert_eq!(n, "xs"),
        _ => panic!("expected a for over an array"),
    }
}

#[test]
fn loop_headers_and_conditions_take_no_struct_literal() {
    let p = parse_ok(
        "fn main() { let arr = [1, 2, 3]; for x in arr { println(x); } let n = 3; let mut i = 0; while i < n { i = i + 1; } if ok { } for k in 0..n { } let s = P { x: 1 }; if (P { x: 1 }).x == 1 { } }",
    );
    let body = body_of(&p, 0);
    match &body[1] {
        Stmt::For { label, var, iter: ForIter::Expr(Expr::Ident(a)), body } => {
            assert!(label.is_none());
            assert_eq!(var, "x");
            assert_eq!(a, "arr");
            assert_eq!(body.len(), 1);
            match &body[0] {
                Stmt::Expr(Expr::Call { name, args }) => {
                    assert_eq!(name, "println");
                    assert!(matches!(&args[0], Expr::Ident(v) if v == "x"));
                },
                _ => panic!("expected a call"),
            }
        },
        _ => panic!("expected a for over an array"),
    }
    match &body[4] {
        Stmt::While { label, cond: Expr::Binary { left, op: BinaryOp::Lt, right }, body } => {
            assert!(label.is_none());
            assert!(matches!(&**left, Expr::Ident(v) if v == "i"));
            assert!(matches!(&**right, Expr::Ident(v) if v == "n"));
            match &body[0] {
                Stmt::Assign { target: Expr::Ident(t), value: Expr::Binary { op: BinaryOp::Add, .. } } => {
                    assert_eq!(t, "i")
                },
                _ => panic!("expected an assignment"),
            }
        },
        _ => panic!("expected a while"),
    }
    assert!(matches!(&body[5], Stmt::If { cond: Expr::Ident(c), .. } if c == "ok"));
    match &body[6] {
        Stmt::For { iter: ForIter::Range { end: Expr::Ident(e), inclusive, .. }, .. } => {
            assert_eq!(e, "n");
            assert!(!*inclusive);
        },
        _ => panic!("expected a range loop"),
    }
    assert!(matches!(&body[7], Stmt::VarDecl(_)));
    assert!(matches!(&body[8], Stmt::If { cond: Expr::Binary { .. }, .. }));
}

#[test]
fn calls_fields_indexes_and_struct_literals() {
    let p = parse_ok("fn main() { p.x = q[2]; let s = P { x: f(1, 2), y: 3.5 }; yield s; return; }");
    let body = body_of(&p, 0);
    match &body[0] {
        Stmt::Assign { target: Expr::Field { field, .. }, value: Expr::Index { .. } } => assert_eq!(field, "x"),
        _ => panic!("expected a field assignment"),
    }
    match &body[1] {
        Stmt::VarDecl(vd) => match &vd.value {
            Expr::StructLit { name, fields } => {
                assert_eq!(name, "P");
                assert_eq!(fields.len(), 2);
                match &fields[0].1 {
                    Expr::Call { name, args } => {
                        assert_eq!(name, "f");
                        assert_eq!(args.len(), 2);
                    },
                    _ => panic!("expected a call"),
                }
                match &fields[1].1 {
                    Expr::Float(t) => assert_eq!(t, "3.5"),
                    _ => panic!("expected a float"),
                }
            },
            _ => panic!("expected a struct literal"),
        },
        _ => panic!("expected a declaration"),
    }
    assert!(matches!(body[2], Stmt::Yield(_)));
    assert!(matches!(body[3], Stmt::Return(None)));
}

#[test]
fn typed_mutable_declaration() {
    let p = parse_ok("fn main() { let mut v: [i32] = [1, 2, 3]; }");
    match &body_of(&p, 0)[0] {
        Stmt::VarDecl(vd) => {
            assert!(vd.mutable);
            assert_eq!(vd.ty.as_ref().map(|t| t.to_text()), Some("[i32]".to_string()));
            match &vd.value {
                Expr::Array(es) => assert_eq!(es.len(), 3),
                _ => panic!("expected an array"),
            }
        },
        _ => panic!("expected a declaration"),
    }
}

fn error_of(src: &str) -> (String, usize, usize) {
    match parse(src) {
        Ok(_) => panic!("expected a parse error"),
        Err(e) => (e.message, e.line, e.col),
    }
}

#[test]
fn parse_errors_name_what_was_expected() {
    assert_eq!(
        error_of("fn main( { }"),
        ("Expected Identifier, found LBrace ('{')".to_string(), 1, 10)
    );
    assert_eq!(
        error_of("let x = 1;"),
        ("Expected 'fn' or 'struct', found 'let'".to_string(), 1, 1)
    );
    assert_eq!(
        error_of("gen struct S { }"),
        ("Cannot use 'gen' with struct declaration".to_string(), 1, 5)
    );
    assert_eq!(
        error_of("fn f(x: 5) { }"),
        ("Expected type, found '5'".to_string(), 1, 9)
    );
    assert_eq!(
        error_of("fn f() { let x = ; }"),
        ("Unexpected token ';' in expression".to_string(), 1, 18)
    );
    assert_eq!(
        error_of("fn f() { 'a: x = 1; }"),
        ("Loop label can only be used with 'while' or 'for'".to_string(), 1, 14)
    );
}

#[test]
fn parse_error_text() {
    match parse("fn") {
        Err(e) => assert_eq!(e.describe(), "Parse error at line 1, col 3: Expected Identifier, found Eof ('')"),
        Ok(_) => panic!("expected a parse error"),
    }
}

#[test]
fn type_text_round_trip() {
    let t = Type::Array(Box::new(Type::Custom("Point".to_string())));
    assert_eq!(t.to_text(), "[Point]");
    assert!(t.same_as(&t.duplicate()));
    assert!(!t.same_as(&Type::I32));
}

#[test]
fn a_parse_error_stands_at_a_token() {
    let src = "fn main() {\n    while x { let = 1; }\n}";
    let mut l = Lexer::new(src);
    let ts = l.tokenize().ok().expect("source should lex");
    let positions: Vec<(usize, usize)> = ts.iter().map(|t| (t.line, t.col)).collect();
    match parse(src) {
        Err(e) => {
            assert_eq!((e.line, e.col), (2, 19));
            assert!(positions.contains(&(e.line, e.col)));
        },
        Ok(_) => panic!("expected a parse error"),
    }
}
