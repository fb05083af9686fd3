//! What the operators, escapes, definitions and reference counts mean, stated apart from
//! the rules that compute them.

use vstd::prelude::*;

use crate::ast::{BinaryOp, SpecType};
use crate::emit::{SpecGen, add_inst, binary_inst, next_value};
use crate::ir::{FloatCond, Inst, IntCond, spec_is_float, spec_is_unsigned};
use crate::lexer::{prepend_text, string_body};
use crate::lsp::{SpecSymbolDef, SymbolKind};
use crate::parser::level_op;
use crate::queries::{from_one, last_local_at, other_uses};
use crate::token::{SpecToken, TokenType};

verus! {

// ─── Comparisons ─────────────────────────────────────────────────────────────

/// What a Vyrn comparison operator says of two numbers.
pub open spec fn compares(op: BinaryOp, a: int, b: int) -> bool {
    match op {
        BinaryOp::Eq => a == b,
        BinaryOp::NotEq => a != b,
        BinaryOp::Lt => a < b,
        BinaryOp::Le => a <= b,
        BinaryOp::Gt => a > b,
        BinaryOp::Ge => a >= b,
        _ => false,
    }
}

pub open spec fn is_comparison(op: BinaryOp) -> bool {
    op == BinaryOp::Eq || op == BinaryOp::NotEq || op == BinaryOp::Lt || op == BinaryOp::Le
        || op == BinaryOp::Gt || op == BinaryOp::Ge
}

/// When an integer comparison code holds of two operands, read as signed numbers: the
/// equalities and the signed orderings.
pub open spec fn signed_holds(c: IntCond, a: int, b: int) -> bool {
    match c {
        IntCond::Equal => a == b,
        IntCond::NotEqual => a != b,
        IntCond::SignedLessThan => a < b,
        IntCond::SignedLessThanOrEqual => a <= b,
        IntCond::SignedGreaterThan => a > b,
        IntCond::SignedGreaterThanOrEqual => a >= b,
        _ => false,
    }
}

/// When an integer comparison code holds of two operands, read as unsigned numbers: the
/// equalities and the unsigned orderings.
pub open spec fn unsigned_holds(c: IntCond, a: nat, b: nat) -> bool {
    match c {
        IntCond::Equal => a == b,
        IntCond::NotEqual => a != b,
        IntCond::UnsignedLessThan => a < b,
        IntCond::UnsignedLessThanOrEqual => a <= b,
        IntCond::UnsignedGreaterThan => a > b,
        IntCond::UnsignedGreaterThanOrEqual => a >= b,
        _ => false,
    }
}

/// When an ordered floating-point comparison code holds of two (non-NaN) operands.
pub open spec fn float_holds(c: FloatCond, a: int, b: int) -> bool {
    match c {
        FloatCond::Equal => a == b,
        FloatCond::NotEqual => a != b,
        FloatCond::LessThan => a < b,
        FloatCond::LessThanOrEqual => a <= b,
        FloatCond::GreaterThan => a > b,
        FloatCond::GreaterThanOrEqual => a >= b,
    }
}

/// A comparison `lv op rv` is one comparison instruction on the two operands, yielding a
/// bool, whose condition holds exactly when `op` does: for floats an ordered float
/// comparison, for `u32` an unsigned one, and otherwise a signed one. In particular `x <= x`
/// is true and `x < x` false.
pub proof fn lemma_comparison_meaning(g: SpecGen, op: BinaryOp, lv: usize, rv: usize, lt: SpecType)
    requires
        is_comparison(op),
    ensures
        ({
            let (g2, v, t) = binary_inst(g, op, lv, rv, lt);
            &&& t == SpecType::Bool
            &&& v == next_value(g)
            &&& g2 == add_inst(g, g2.insts.last())
            &&& if spec_is_float(lt) {
                g2.insts.last() matches Inst::FloatCompare(c, l, r) && l == lv && r == rv
                    && forall|a: int, b: int| float_holds(c, a, b) == compares(op, a, b)
            } else if spec_is_unsigned(lt) {
                g2.insts.last() matches Inst::IntCompare(c, l, r) && l == lv && r == rv
                    && forall|a: nat, b: nat| unsigned_holds(c, a, b) == compares(op, a as int, b as int)
            } else {
                g2.insts.last() matches Inst::IntCompare(c, l, r) && l == lv && r == rv
                    && forall|a: int, b: int| signed_holds(c, a, b) == compares(op, a, b)
            }
        }),
{
    let (g2, v, t) = binary_inst(g, op, lv, rv, lt);
    assert(g2.insts.last() == g2.insts[g.insts.len() as int]);
    assert(g2 == add_inst(g, g2.insts.last()));
}

// ─── Operator tokens ─────────────────────────────────────────────────────────

/// The binary operator that each operator token stands for.
pub open spec fn operator_of(ty: TokenType) -> Option<BinaryOp> {
    match ty {
        TokenType::OrOr => Some(BinaryOp::Or),
        TokenType::AndAnd => Some(BinaryOp::And),
        TokenType::Pipe => Some(BinaryOp::BitOr),
        TokenType::Caret => Some(BinaryOp::BitXor),
        TokenType::Ampersand => Some(BinaryOp::BitAnd),
        TokenType::EqEq => Some(BinaryOp::Eq),
        TokenType::BangEq => Some(BinaryOp::NotEq),
        TokenType::Lt => Some(BinaryOp::Lt),
        TokenType::LtEq => Some(BinaryOp::Le),
        TokenType::Gt => Some(BinaryOp::Gt),
        TokenType::GtEq => Some(BinaryOp::Ge),
        TokenType::LtLt => Some(BinaryOp::Shl),
        TokenType::GtGt => Some(BinaryOp::Shr),
        TokenType::Plus => Some(BinaryOp::Add),
        TokenType::Minus => Some(BinaryOp::Sub),
        TokenType::Star => Some(BinaryOp::Mul),
        TokenType::Slash => Some(BinaryOp::Div),
        TokenType::Percent => Some(BinaryOp::Mod),
        _ => None,
    }
}

/// How tightly an operator binds, from 0 (`||`, loosest) to 9 (`*`, `/`, `%`).
pub open spec fn binding(op: BinaryOp) -> int {
    match op {
        BinaryOp::Or => 0,
        BinaryOp::And => 1,
        BinaryOp::BitOr => 2,
        BinaryOp::BitXor => 3,
        BinaryOp::BitAnd => 4,
        BinaryOp::Eq | BinaryOp::NotEq => 5,
        BinaryOp::Lt | BinaryOp::Le | BinaryOp::Gt | BinaryOp::Ge => 6,
        BinaryOp::Shl | BinaryOp::Shr => 7,
        BinaryOp::Add | BinaryOp::Sub => 8,
        BinaryOp::Mul | BinaryOp::Div | BinaryOp::Mod => 9,
    }
}

/// At each precedence level the parser takes exactly the operator tokens that bind at that
/// level, each as the operator it stands for: `%` is `Mod`, `/` is `Div`, and so on.
pub proof fn lemma_operator_tokens(k: int, ty: TokenType)
    ensures
        level_op(k, ty) == (match operator_of(ty) {
            Some(op) => if binding(op) == k {
                Some(op)
            } else {
                None
            },
            None => None,
        }),
{
}

// ─── Escapes ─────────────────────────────────────────────────────────────────

/// The character that an escape `\c` in a string literal stands for: `\n` newline, `\t`
/// tab, `\r` carriage return, `\\` backslash, `\"` quote.
pub open spec fn escaped(c: char) -> Option<char> {
    if c == 'n' {
        Some('\n')
    } else if c == 't' {
        Some('\t')
    } else if c == 'r' {
        Some('\r')
    } else if c == '\\' {
        Some('\\')
    } else if c == '"' {
        Some('"')
    } else {
        None
    }
}

/// In a string literal, a backslash and the character after it read as the one character
/// that the escape stands for, or, for any other character, as the backslash and that
/// character; the rest of the literal is read on after the two.
pub proof fn lemma_string_escape(s: Seq<char>, p: int)
    requires
        0 <= p,
        p + 1 < s.len(),
        s[p] == '\\',
    ensures
        string_body(s, p) == prepend_text(
            match escaped(s[p + 1]) {
                Some(e) => seq![e],
                None => seq!['\\', s[p + 1]],
            },
            string_body(s, p + 2),
        ),
{
}

// ─── Go to definition of a local ─────────────────────────────────────────────

/// A variable or parameter named `w`.
pub open spec fn local_named(d: SpecSymbolDef, w: Seq<char>) -> bool {
    d.name == w && (d.kind == SymbolKind::Variable || d.kind == SymbolKind::Parameter)
}

/// `d` stands at or before the position (`line`, `col`).
pub open spec fn at_or_before(d: SpecSymbolDef, line: int, col: int) -> bool {
    d.line < line || (d.line == line && d.col <= col)
}

/// Among the first `n` definitions, the local that a name resolves to is a variable or
/// parameter of that name at or before the cursor, and no later one of the first `n`
/// is; when there is none, no variable or parameter of that name stands at or before the
/// cursor.
pub proof fn lemma_local_definition(ds: Seq<SpecSymbolDef>, w: Seq<char>, line: int, col: int, n: int)
    requires
        0 <= n <= ds.len(),
    ensures
        match last_local_at(ds, w, line, col, n) {
            Some(d) => exists|j: int|
                0 <= j < n && #[trigger] ds[j] == d && local_named(d, w) && at_or_before(d, line, col)
                    && forall|k: int|
                    j < k < n ==> !(local_named(#[trigger] ds[k], w) && at_or_before(ds[k], line, col)),
            None => forall|k: int|
                0 <= k < n ==> !(local_named(#[trigger] ds[k], w) && at_or_before(ds[k], line, col)),
        },
    decreases n,
{
    if n > 0 {
        let d = ds[n - 1];
        if !(local_named(d, w) && at_or_before(d, line, col)) {
            lemma_local_definition(ds, w, line, col, n - 1);
            match last_local_at(ds, w, line, col, n - 1) {
                Some(d2) => {
                    let j = choose|j: int|
                        0 <= j < n - 1 && #[trigger] ds[j] == d2 && local_named(d2, w) && at_or_before(
                            d2,
                            line,
                            col,
                        ) && forall|k: int|
                            j < k < n - 1 ==> !(local_named(#[trigger] ds[k], w) && at_or_before(
                                ds[k],
                                line,
                                col,
                            ));
                    assert(ds[j] == d2);
                },
                None => {},
            }
        } else {
            assert(ds[n - 1] == d);
        }
    }
}

// ─── Reference counts ────────────────────────────────────────────────────────

/// How many of the first `n` tokens `pick` accepts.
pub open spec fn count_tokens(ts: Seq<SpecToken>, n: int, pick: spec_fn(SpecToken) -> bool) -> nat
    decreases n,
{
    if n <= 0 || n > ts.len() {
        0
    } else {
        count_tokens(ts, n - 1, pick) + if pick(ts[n - 1]) {
            1nat
        } else {
            0nat
        }
    }
}

/// An identifier token that names `d`.
pub open spec fn names(t: SpecToken, d: SpecSymbolDef) -> bool {
    t.ty == TokenType::Identifier && t.value == d.name
}

/// A token at the (0-based) position of definition `d`.
pub open spec fn at_definition(t: SpecToken, d: SpecSymbolDef) -> bool {
    from_one(t.line) == d.line && from_one(t.col) == d.col
}

/// The reference count of a definition is the number of identifier tokens with its name,
/// wherever they stand in the document, before or after it, less those at the definition
/// itself.
pub proof fn lemma_reference_count(ts: Seq<SpecToken>, d: SpecSymbolDef, n: int)
    requires
        0 <= n <= ts.len(),
    ensures
        other_uses(ts, d, n) + count_tokens(ts, n, |t: SpecToken| names(t, d) && at_definition(t, d))
            == count_tokens(ts, n, |t: SpecToken| names(t, d)),
    decreases n,
{
    if n > 0 {
        lemma_reference_count(ts, d, n - 1);
    }
}

// ─── Arithmetic and bitwise operators ────────────────────────────────────────

/// The integer instruction that an arithmetic or bitwise operator stands for, on unsigned
/// operands where `unsigned` (division, remainder and right shift differ), signed otherwise.
pub open spec fn int_instruction(op: BinaryOp, unsigned: bool) -> Option<crate::ir::BinInst> {
    match op {
        BinaryOp::Add => Some(crate::ir::BinInst::Iadd),
        BinaryOp::Sub => Some(crate::ir::BinInst::Isub),
        BinaryOp::Mul => Some(crate::ir::BinInst::Imul),
        BinaryOp::Div => Some(if unsigned { crate::ir::BinInst::Udiv } else { crate::ir::BinInst::Sdiv }),
        BinaryOp::Mod => Some(if unsigned { crate::ir::BinInst::Urem } else { crate::ir::BinInst::Srem }),
        BinaryOp::BitAnd => Some(crate::ir::BinInst::Band),
        BinaryOp::BitOr => Some(crate::ir::BinInst::Bor),
        BinaryOp::BitXor => Some(crate::ir::BinInst::Bxor),
        BinaryOp::Shl => Some(crate::ir::BinInst::Ishl),
        BinaryOp::Shr => Some(if unsigned { crate::ir::BinInst::Ushr } else { crate::ir::BinInst::Sshr }),
        _ => None,
    }
}

/// The float instruction that an arithmetic operator stands for (`%` on floats calls the
/// runtime instead).
pub open spec fn float_instruction(op: BinaryOp) -> Option<crate::ir::BinInst> {
    match op {
        BinaryOp::Add => Some(crate::ir::BinInst::Fadd),
        BinaryOp::Sub => Some(crate::ir::BinInst::Fsub),
        BinaryOp::Mul => Some(crate::ir::BinInst::Fmul),
        BinaryOp::Div => Some(crate::ir::BinInst::Fdiv),
        _ => None,
    }
}

/// An arithmetic or bitwise operator on integer operands is the one instruction it stands
/// for, on the two operands, keeping the operands' type; `+ - * /` on floats likewise.
pub proof fn lemma_arithmetic_meaning(g: SpecGen, op: BinaryOp, lv: usize, rv: usize, lt: SpecType)
    ensures
        !spec_is_float(lt) && int_instruction(op, spec_is_unsigned(lt)) is Some ==> binary_inst(
            g,
            op,
            lv,
            rv,
            lt,
        ) == (add_inst(g, Inst::Binary(int_instruction(op, spec_is_unsigned(lt))->0, lv, rv)), next_value(g), lt),
        spec_is_float(lt) && float_instruction(op) is Some ==> binary_inst(g, op, lv, rv, lt) == (
        add_inst(g, Inst::Binary(float_instruction(op)->0, lv, rv)), next_value(g), lt),
{
}

} // verus!
