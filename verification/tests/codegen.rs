use vyrn::ast::{Program, Type};
use vyrn::compile::{Linkage, ModuleIr};
use vyrn::emit::CodeGen;
use vyrn::ir::{
    align_shift, cl_type, elem_size, field_offset, runtime_functions, struct_size, BinInst, Callee,
    ClType, Conv, Inst, IntCond, Runtime,
};
use vyrn::lexer::Lexer;
use vyrn::parser::Parser;

fn program(src: &str) -> Program {
    let ts = Lexer::new(src).tokenize().ok().expect("source should lex");
    Parser::new(ts).parse().ok().expect("source should parse")
}

fn compile(src: &str) -> ModuleIr {
    match CodeGen::generate(&program(src)) {
        Ok(m) => m,
        Err(e) => panic!("unexpected codegen error: {}", e),
    }
}

fn codegen_error(src: &str) -> String {
    match CodeGen::generate(&program(src)) {
        Ok(_) => panic!("expected a codegen error"),
        Err(e) => e,
    }
}

#[test]
fn main_returning_a_status() {
    let m = compile("fn main() { return 1; }");
    assert_eq!(m.declarations.len(), 1);
    let d = &m.declarations[0];
    assert_eq!(d.callee, Callee::User(0));
    assert_eq!(d.name, "main");
    assert_eq!(d.linkage, Linkage::Export);
    assert_eq!(d.params, Vec::<ClType>::new());
    assert_eq!(d.returns, vec![ClType::I32]);
    assert_eq!(m.functions.len(), 1);
    let f = &m.functions[0];
    assert_eq!(f.callee, Callee::User(0));
    assert_eq!(f.returns, vec![ClType::I32]);
    assert_eq!(
        f.insts,
        vec![
            Inst::CreateBlock,
            Inst::EntryParams(0),
            Inst::SwitchToBlock(0),
            Inst::SealBlock(0),
            Inst::Iconst(ClType::I32, 1),
            Inst::Return1(4),
        ]
    );
}

#[test]
fn main_falls_off_the_end_with_status_zero() {
    let m = compile("fn main() { }");
    assert_eq!(
        m.functions[0].insts,
        vec![
            Inst::CreateBlock,
            Inst::EntryParams(0),
            Inst::SwitchToBlock(0),
            Inst::SealBlock(0),
            Inst::Iconst(ClType::I32, 0),
            Inst::Return1(4),
        ]
    );
}

#[test]
fn parameters_arithmetic_and_calls() {
    let m = compile("fn add(a: i32, b: i32) -> i32 { return a + b; }\nfn main() { println(add(1, 2)); }");
    assert_eq!(m.declarations[0].name, "add");
    assert_eq!(m.declarations[0].linkage, Linkage::Local);
    assert_eq!(m.declarations[0].params, vec![ClType::I32, ClType::I32]);
    assert_eq!(
        m.functions[0].insts,
        vec![
            Inst::CreateBlock,
            Inst::EntryParams(0),
            Inst::SwitchToBlock(0),
            Inst::SealBlock(0),
            Inst::BlockParam(0, 0),
            Inst::DeclareVar(0, ClType::I32),
            Inst::DefVar(0, 4),
            Inst::BlockParam(0, 1),
            Inst::DeclareVar(1, ClType::I32),
            Inst::DefVar(1, 7),
            Inst::UseVar(0),
            Inst::UseVar(1),
            Inst::Binary(BinInst::Iadd, 10, 11),
            Inst::Return1(12),
        ]
    );
    assert_eq!(
        m.functions[1].insts,
        vec![
            Inst::CreateBlock,
            Inst::EntryParams(0),
            Inst::SwitchToBlock(0),
            Inst::SealBlock(0),
            Inst::Iconst(ClType::I32, 1),
            Inst::Iconst(ClType::I32, 2),
            Inst::CallArg(4),
            Inst::CallArg(5),
            Inst::Call(Callee::User(0), 2),
            Inst::CallArg(8),
            Inst::Call(Callee::Runtime(Runtime::PrintlnI32), 1),
            Inst::Iconst(ClType::I32, 0),
            Inst::Iconst(ClType::I32, 0),
            Inst::Return1(12),
        ]
    );
}

#[test]
fn texts_and_floats_go_to_tables() {
    let m = compile("fn main() { println(\"hi\"); let x = 2.5; print(f\"v{x}!\"); }");
    assert_eq!(m.strings, vec!["hi".to_string(), "v".to_string(), "!".to_string(), "".to_string()]);
    assert_eq!(m.floats, vec!["2.5".to_string()]);
}

#[test]
fn while_loop_blocks() {
    let m = compile("fn main() { while true { break; } }");
    let insts = &m.functions[0].insts;
    assert_eq!(insts[4..9].to_vec(), vec![Inst::CreateBlock; 4].into_iter().chain(vec![Inst::Jump(1)]).collect::<Vec<_>>());
    assert!(insts.contains(&Inst::Jump(4)));
    assert!(insts.contains(&Inst::SealBlock(1)));
}

#[test]
fn a_loop_leaves_the_break_targets_as_it_found_them() {
    let m = compile("fn main() { while true { while true { break; } break; } }");
    let jumps: Vec<usize> = m.functions[0]
        .insts
        .iter()
        .filter_map(|i| if let Inst::Jump(b) = i { Some(*b) } else { None })
        .collect();
    // Outer loop: blocks 1..=4; inner loop: blocks 5..=8. The inner break leaves by block 8,
    // and the break after the inner loop by the outer exit, block 4.
    assert_eq!(jumps, vec![1, 5, 8, 5, 4, 1]);
}

#[test]
fn library_builtins_call_the_runtime() {
    let m = compile("fn main() -> i32 { return min(3, 5) + max(3, 5); }");
    let insts = &m.functions[0].insts;
    assert!(insts.contains(&Inst::Call(Callee::Runtime(Runtime::MinI32), 2)));
    assert!(insts.contains(&Inst::Call(Callee::Runtime(Runtime::MaxI32), 2)));
    let m = compile(
        "fn main() { let a = clamp(2.5, 0, 1); let b = floor(2.5); let s = input(); let n = str_len(s); let k = parse_int(s); let t = str_concat(s, s); let e = str_eq(s, t); let f = parse_float(s); let x = int(2.5); let y = float(3); let z = to_i64(7); }",
    );
    let insts = &m.functions[0].insts;
    for r in [
        Runtime::ClampF64,
        Runtime::FloorF64,
        Runtime::InputLine,
        Runtime::StrLen,
        Runtime::ParseI32,
        Runtime::StrConcat,
        Runtime::StrEq,
        Runtime::ParseF64,
    ] {
        assert!(insts.iter().any(|i| matches!(i, Inst::Call(Callee::Runtime(q), _) if *q == r)), "{:?}", r);
    }
    assert!(insts.iter().any(|i| matches!(i, Inst::Convert(Conv::FcvtToSintSat, ClType::I32, _))));
    assert!(insts.iter().any(|i| matches!(i, Inst::Convert(Conv::FcvtFromSint, ClType::F64, _))));
    assert!(insts.iter().any(|i| matches!(i, Inst::Convert(Conv::Sextend, ClType::I64, _))));
    assert_eq!(codegen_error("fn main() { let s = \"a\"; let x = int(s); }"), "int() expects a number or a bool");
}

#[test]
fn generators_get_a_wrapper_and_a_body() {
    let m = compile("gen fn g() -> i64 { yield 1; }\nfn main() { for v in g() { println(v); } }");
    let names: Vec<(String, Callee, Linkage)> =
        m.declarations.iter().map(|d| (d.name.clone(), d.callee, d.linkage)).collect();
    assert_eq!(
        names,
        vec![
            ("g".to_string(), Callee::User(0), Linkage::Local),
            ("__g_body".to_string(), Callee::Body(0), Linkage::Local),
            ("main".to_string(), Callee::User(1), Linkage::Export),
        ]
    );
    assert_eq!(m.functions.len(), 3);
    assert_eq!(m.functions[0].callee, Callee::User(0));
    assert_eq!(m.functions[0].returns, vec![ClType::I64]);
    assert!(m.functions[0].insts.contains(&Inst::FuncAddr(Callee::Body(0))));
    assert_eq!(m.functions[1].callee, Callee::Body(0));
    assert_eq!(m.functions[1].params, vec![ClType::I64]);
    assert!(m.functions[1].insts.contains(&Inst::Call(Callee::Runtime(Runtime::YieldI64), 2)));
    assert!(m.functions[1].insts.contains(&Inst::Call(Callee::Runtime(Runtime::GenEnd), 1)));
    assert!(m.functions[2].insts.contains(&Inst::Call(Callee::Runtime(Runtime::GenAdvance), 1)));
    assert!(m.functions[2]
        .insts
        .iter()
        .any(|i| matches!(i, Inst::IntCompare(IntCond::Equal, _, _))));
}

#[test]
fn codegen_errors() {
    assert_eq!(codegen_error("fn main() { let a = 1; a.f = 2; }"), "field assign on non-struct");
    assert_eq!(
        codegen_error("struct P { x: i32 }\nfn main() { let p = P { x: 1 }; let q = p.y; }"),
        "field 'y' not found in struct"
    );
    assert_eq!(codegen_error("fn main() { let a = 1; for x in (a) { } }"), "for-in: array with unknown size");
    assert_eq!(codegen_error("fn main() { for x in (b) { } }"), "for-in: unknown array");
    assert_eq!(codegen_error("fn main() { for x in 1 + 2 { } }"), "for-in: expected array variable or generator call");
    assert_eq!(codegen_error("fn main() { println([1]); }"), "Array literal must appear as VarDecl value");
    assert_eq!(codegen_error("fn f() { }\nfn main() { let v = f(); }"), "void has no machine type");
}

#[test]
fn struct_layout_uses_natural_alignment() {
    let fields = vec![
        ("a".to_string(), Type::Bool),
        ("b".to_string(), Type::I32),
        ("c".to_string(), Type::I64),
        ("d".to_string(), Type::Bool),
    ];
    assert_eq!(field_offset(&fields, "a").0, 0);
    assert_eq!(field_offset(&fields, "b").0, 4);
    assert_eq!(field_offset(&fields, "c").0, 8);
    assert_eq!(field_offset(&fields, "d").0, 16);
    assert!(field_offset(&fields, "c").1.same_as(&Type::I64));
    assert_eq!(struct_size(&fields), 17);
    assert_eq!(align_shift(8), 3);
    assert_eq!(align_shift(1), 0);
}

#[test]
fn machine_types_and_sizes() {
    assert_eq!(cl_type(&Type::Bool), ClType::I8);
    assert_eq!(cl_type(&Type::U32), ClType::I32);
    assert_eq!(cl_type(&Type::Custom("P".to_string())), ClType::I64);
    assert_eq!(elem_size(&Type::F32), 4);
    assert_eq!(elem_size(&Type::Void), 0);
    let rts = runtime_functions();
    assert_eq!(rts.len(), 44);
    assert_eq!(rts[0].name(), "vyrn_println_i32");
    assert_eq!(Runtime::PowF64.params(), vec![ClType::F64, ClType::F64]);
    assert_eq!(Runtime::GenAdvance.ret(), Some(ClType::I8));
}
