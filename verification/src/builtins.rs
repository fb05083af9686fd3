//! The built-in functions that call the runtime library: `min`, `max`, `clamp`, the
//! roundings, the string functions, `input`, the parsers and the conversions.

use vstd::prelude::*;

use crate::ast::{SpecType, Type};
use crate::emit::{CodeGen, ExprResult, SpecGen, call_rt, coerce_f64, emit_value, expr_matches, gen_wf};
use crate::ir::{Callee, ClType, Conv, Inst, Runtime, is_float, spec_is_float};
use crate::text::string_is;

verus! {

/// The values and types of evaluated arguments.
pub open spec fn typed_view(a: Seq<(usize, Type)>) -> Seq<(usize, SpecType)> {
    a.map_values(|p: (usize, Type)| (p.0, p.1@))
}

/// The number of arguments of a built-in function that calls the runtime library: `min`,
/// `max`, `clamp`, the roundings, the string functions, `input`, the parsers and the
/// conversions.
#[verifier::opaque]
pub open spec fn lib_arity(name: Seq<char>) -> Option<nat> {
    if name == "min"@ || name == "max"@ || name == "str_concat"@ || name == "str_eq"@ {
        Some(2)
    } else if name == "clamp"@ {
        Some(3)
    } else if name == "floor"@ || name == "ceil"@ || name == "round"@ || name == "str_len"@
        || name == "parse_int"@ || name == "parse_float"@ || name == "int"@ || name == "float"@
        || name == "to_i64"@ {
        Some(1)
    } else if name == "input"@ {
        Some(0)
    } else {
        None
    }
}

/// Some argument is a float.
pub open spec fn any_float(a: Seq<(usize, SpecType)>) -> bool {
    exists|i: int| 0 <= i < a.len() && spec_is_float(#[trigger] a[i].1)
}

/// The first `n` arguments, each converted to `f64`.
pub open spec fn all_f64(g: SpecGen, a: Seq<(usize, SpecType)>, n: int) -> (SpecGen, Seq<usize>)
    decreases n,
{
    if n <= 0 || n > a.len() {
        (g, Seq::empty())
    } else {
        let (g1, ds) = all_f64(g, a, n - 1);
        let (g2, d) = coerce_f64(g1, a[n - 1].0, a[n - 1].1);
        (g2, ds.push(d))
    }
}

/// The values of the arguments.
pub open spec fn raw_vals(a: Seq<(usize, SpecType)>) -> Seq<usize> {
    Seq::new(a.len(), |i: int| a[i].0)
}

/// `int(x)`: a float truncated toward zero (saturating), an `i64` cut to 32 bits, a bool as
/// 0 or 1.
pub open spec fn to_int(g: SpecGen, v: usize, t: SpecType) -> ExprResult {
    match t {
        SpecType::F32 | SpecType::F64 => {
            let (g1, r) = emit_value(g, Inst::Convert(Conv::FcvtToSintSat, ClType::I32, v));
            Ok((g1, r, SpecType::I32))
        },
        SpecType::I64 => {
            let (g1, r) = emit_value(g, Inst::Convert(Conv::Ireduce, ClType::I32, v));
            Ok((g1, r, SpecType::I32))
        },
        SpecType::Bool => {
            let (g1, r) = emit_value(g, Inst::Convert(Conv::Uextend, ClType::I32, v));
            Ok((g1, r, SpecType::I32))
        },
        SpecType::I32 | SpecType::U32 => Ok((g, v, SpecType::I32)),
        _ => Err("int() expects a number or a bool"@),
    }
}

/// `float(x)`: a number or a bool as `f64`.
pub open spec fn to_float(g: SpecGen, v: usize, t: SpecType) -> ExprResult {
    match t {
        SpecType::F64 => Ok((g, v, SpecType::F64)),
        SpecType::F32 | SpecType::I32 | SpecType::U32 | SpecType::I64 => {
            let (g1, r) = coerce_f64(g, v, t);
            Ok((g1, r, SpecType::F64))
        },
        SpecType::Bool => {
            let (g1, w) = emit_value(g, Inst::Convert(Conv::Uextend, ClType::I32, v));
            let (g2, r) = emit_value(g1, Inst::Convert(Conv::FcvtFromSint, ClType::F64, w));
            Ok((g2, r, SpecType::F64))
        },
        _ => Err("float() expects a number or a bool"@),
    }
}

/// `to_i64(x)`: integers extended (`i32` with its sign), a float truncated toward zero
/// (saturating), a bool as 0 or 1.
pub open spec fn to_long(g: SpecGen, v: usize, t: SpecType) -> ExprResult {
    match t {
        SpecType::I64 => Ok((g, v, SpecType::I64)),
        SpecType::I32 => {
            let (g1, r) = emit_value(g, Inst::Convert(Conv::Sextend, ClType::I64, v));
            Ok((g1, r, SpecType::I64))
        },
        SpecType::U32 | SpecType::Bool => {
            let (g1, r) = emit_value(g, Inst::Convert(Conv::Uextend, ClType::I64, v));
            Ok((g1, r, SpecType::I64))
        },
        SpecType::F32 | SpecType::F64 => {
            let (g1, r) = emit_value(g, Inst::Convert(Conv::FcvtToSintSat, ClType::I64, v));
            Ok((g1, r, SpecType::I64))
        },
        _ => Err("to_i64() expects a number or a bool"@),
    }
}

/// The runtime function of `min`, `max` or `clamp`, on floats or on `i32`.
pub open spec fn pick_rt(name: Seq<char>, float: bool) -> Runtime {
    if name == "min"@ {
        if float { Runtime::MinF64 } else { Runtime::MinI32 }
    } else if name == "max"@ {
        if float { Runtime::MaxF64 } else { Runtime::MaxI32 }
    } else {
        if float { Runtime::ClampF64 } else { Runtime::ClampI32 }
    }
}

/// The runtime function of a built-in with one string argument or none, or of a rounding.
pub open spec fn simple_rt(name: Seq<char>) -> Runtime {
    if name == "floor"@ {
        Runtime::FloorF64
    } else if name == "ceil"@ {
        Runtime::CeilF64
    } else if name == "round"@ {
        Runtime::RoundF64
    } else if name == "str_len"@ {
        Runtime::StrLen
    } else if name == "str_concat"@ {
        Runtime::StrConcat
    } else if name == "str_eq"@ {
        Runtime::StrEq
    } else if name == "input"@ {
        Runtime::InputLine
    } else if name == "parse_int"@ {
        Runtime::ParseI32
    } else {
        Runtime::ParseF64
    }
}

/// The result type of a built-in with one string argument or none, or of a rounding.
pub open spec fn simple_ret(name: Seq<char>) -> SpecType {
    if name == "str_len"@ || name == "parse_int"@ {
        SpecType::I32
    } else if name == "str_concat"@ || name == "input"@ {
        SpecType::Str
    } else if name == "str_eq"@ {
        SpecType::Bool
    } else {
        SpecType::F64
    }
}

/// The call of library built-in `name` on the evaluated arguments `a` (as many as
/// `lib_arity(name)`). `min`, `max` and `clamp` work on `f64` where an argument is a float
/// and on `i32` otherwise; the roundings convert their argument to `f64`.
#[verifier::opaque]
pub open spec fn lib_call(g: SpecGen, name: Seq<char>, a: Seq<(usize, SpecType)>) -> ExprResult {
    if name == "min"@ || name == "max"@ || name == "clamp"@ {
        if any_float(a) {
            let (g1, ds) = all_f64(g, a, a.len() as int);
            let (g2, v) = call_rt(g1, pick_rt(name, true), ds);
            Ok((g2, v, SpecType::F64))
        } else {
            let (g1, v) = call_rt(g, pick_rt(name, false), raw_vals(a));
            Ok((g1, v, SpecType::I32))
        }
    } else if name == "floor"@ || name == "ceil"@ || name == "round"@ {
        let (g1, d) = coerce_f64(g, a[0].0, a[0].1);
        let (g2, v) = call_rt(g1, simple_rt(name), seq![d]);
        Ok((g2, v, SpecType::F64))
    } else if name == "int"@ {
        to_int(g, a[0].0, a[0].1)
    } else if name == "float"@ {
        to_float(g, a[0].0, a[0].1)
    } else if name == "to_i64"@ {
        to_long(g, a[0].0, a[0].1)
    } else {
        let (g1, v) = call_rt(g, simple_rt(name), raw_vals(a));
        Ok((g1, v, simple_ret(name)))
    }
}

/// The number of arguments of library built-in `name` (see `lib_arity`).
pub fn lib_arity_of(name: &str) -> (r: Option<usize>)
    ensures
        match r {
            Some(k) => lib_arity(name@) == Some(k as nat),
            None => lib_arity(name@) is None,
        },
{
    reveal(lib_arity);
    if string_is(name, "min") || string_is(name, "max") || string_is(name, "str_concat")
        || string_is(name, "str_eq") {
        Some(2)
    } else if string_is(name, "clamp") {
        Some(3)
    } else if string_is(name, "floor") || string_is(name, "ceil") || string_is(name, "round")
        || string_is(name, "str_len") || string_is(name, "parse_int") || string_is(
        name,
        "parse_float",
    ) || string_is(name, "int") || string_is(name, "float") || string_is(name, "to_i64") {
        Some(1)
    } else if string_is(name, "input") {
        Some(0)
    } else {
        None
    }
}

impl CodeGen {
    /// `int(x)` on value `v` of type `t`.
    fn to_int(&mut self, v: usize, t: &Type) -> (r: Result<(usize, Type), String>)
        requires
            gen_wf(old(self)@),
        ensures
            gen_wf(final(self)@),
            expr_matches(r, to_int(old(self)@, v, t@), final(self)@),
    {
        match t {
            Type::F32 | Type::F64 => Ok((self.emit(Inst::Convert(Conv::FcvtToSintSat, ClType::I32, v)), Type::I32)),
            Type::I64 => Ok((self.emit(Inst::Convert(Conv::Ireduce, ClType::I32, v)), Type::I32)),
            Type::Bool => Ok((self.emit(Inst::Convert(Conv::Uextend, ClType::I32, v)), Type::I32)),
            Type::I32 | Type::U32 => Ok((v, Type::I32)),
            _ => Err(String::from_str("int() expects a number or a bool")),
        }
    }

    /// `float(x)` on value `v` of type `t`.
    fn to_float(&mut self, v: usize, t: &Type) -> (r: Result<(usize, Type), String>)
        requires
            gen_wf(old(self)@),
        ensures
            gen_wf(final(self)@),
            expr_matches(r, to_float(old(self)@, v, t@), final(self)@),
    {
        match t {
            Type::F64 => Ok((v, Type::F64)),
            Type::F32 | Type::I32 | Type::U32 | Type::I64 => Ok((self.coerce_f64(v, t), Type::F64)),
            Type::Bool => {
                let w = self.emit(Inst::Convert(Conv::Uextend, ClType::I32, v));
                Ok((self.emit(Inst::Convert(Conv::FcvtFromSint, ClType::F64, w)), Type::F64))
            },
            _ => Err(String::from_str("float() expects a number or a bool")),
        }
    }

    /// `to_i64(x)` on value `v` of type `t`.
    fn to_long(&mut self, v: usize, t: &Type) -> (r: Result<(usize, Type), String>)
        requires
            gen_wf(old(self)@),
        ensures
            gen_wf(final(self)@),
            expr_matches(r, to_long(old(self)@, v, t@), final(self)@),
    {
        match t {
            Type::I64 => Ok((v, Type::I64)),
            Type::I32 => Ok((self.emit(Inst::Convert(Conv::Sextend, ClType::I64, v)), Type::I64)),
            Type::U32 | Type::Bool => Ok((self.emit(Inst::Convert(Conv::Uextend, ClType::I64, v)), Type::I64)),
            Type::F32 | Type::F64 => Ok((self.emit(Inst::Convert(Conv::FcvtToSintSat, ClType::I64, v)), Type::I64)),
            _ => Err(String::from_str("to_i64() expects a number or a bool")),
        }
    }

    /// The call of library built-in `name` on the evaluated arguments `a`.
    pub fn lib_call(&mut self, name: &str, a: &Vec<(usize, Type)>) -> (r: Result<(usize, Type), String>)
        requires
            gen_wf(old(self)@),
            lib_arity(name@) == Some(a@.len()),
        ensures
            gen_wf(final(self)@),
            expr_matches(r, lib_call(old(self)@, name@, typed_view(a@)), final(self)@),
    {
        let ghost ta = typed_view(a@);
        proof {
            reveal(lib_call);
            reveal(lib_arity);
            reveal_strlit("min");
            reveal_strlit("max");
            reveal_strlit("clamp");
            reveal_strlit("floor");
            reveal_strlit("ceil");
            reveal_strlit("round");
            reveal_strlit("int");
            reveal_strlit("float");
            reveal_strlit("to_i64");
            reveal_strlit("str_len");
            reveal_strlit("str_concat");
            reveal_strlit("str_eq");
            reveal_strlit("input");
            reveal_strlit("parse_int");
            reveal_strlit("parse_float");
            assert(ta.len() == a@.len());
            assert(forall|k: int| 0 <= k < a@.len() ==> #[trigger] ta[k] == (a@[k].0, a@[k].1@));
        }
        if string_is(name, "min") || string_is(name, "max") || string_is(name, "clamp") {
            let mut fl = false;
            let mut i: usize = 0;
            while i < a.len()
                invariant
                    i <= a@.len(),
                    ta == typed_view(a@),
                    ta.len() == a@.len(),
                    forall|k: int| 0 <= k < a@.len() ==> #[trigger] ta[k] == (a@[k].0, a@[k].1@),
                    fl == exists|k: int| 0 <= k < i && spec_is_float(#[trigger] ta[k].1),
                decreases a@.len() - i,
            {
                if is_float(&a[i].1) {
                    fl = true;
                }
                proof {
                    assert(ta[i as int].1 == a@[i as int].1@);
                }
                i = i + 1;
            }
            let rt = if string_is(name, "min") {
                if fl { Runtime::MinF64 } else { Runtime::MinI32 }
            } else if string_is(name, "max") {
                if fl { Runtime::MaxF64 } else { Runtime::MaxI32 }
            } else {
                if fl { Runtime::ClampF64 } else { Runtime::ClampI32 }
            };
            let mut vals: Vec<usize> = Vec::new();
            let mut j: usize = 0;
            if fl {
                while j < a.len()
                    invariant
                        gen_wf(self@),
                        j <= a@.len(),
                        ta == typed_view(a@),
                        ta.len() == a@.len(),
                        forall|k: int| 0 <= k < a@.len() ==> #[trigger] ta[k] == (a@[k].0, a@[k].1@),
                        (self@, vals@) == all_f64(old(self)@, ta, j as int),
                    decreases a@.len() - j,
                {
                    let d = self.coerce_f64(a[j].0, &a[j].1);
                    vals.push(d);
                    j = j + 1;
                }
                let v = self.call(Callee::Runtime(rt), &vals);
                assert(any_float(ta));
                assert(rt == pick_rt(name@, true));
                Ok((v, Type::F64))
            } else {
                while j < a.len()
                    invariant
                        j <= a@.len(),
                        ta == typed_view(a@),
                        ta.len() == a@.len(),
                        forall|k: int| 0 <= k < a@.len() ==> #[trigger] ta[k] == (a@[k].0, a@[k].1@),
                        vals@.len() == j,
                        forall|k: int| 0 <= k < j ==> #[trigger] vals@[k] == ta[k].0,
                    decreases a@.len() - j,
                {
                    vals.push(a[j].0);
                    j = j + 1;
                }
                assert(vals@ =~= raw_vals(ta));
                assert(!any_float(ta));
                assert(rt == pick_rt(name@, false));
                let v = self.call(Callee::Runtime(rt), &vals);
                Ok((v, Type::I32))
            }
        } else if string_is(name, "floor") || string_is(name, "ceil") || string_is(name, "round") {
            let d = self.coerce_f64(a[0].0, &a[0].1);
            let rt = if string_is(name, "floor") {
                Runtime::FloorF64
            } else if string_is(name, "ceil") {
                Runtime::CeilF64
            } else {
                Runtime::RoundF64
            };
            assert(rt == simple_rt(name@));
            let v = self.call_rt1(rt, d);
            Ok((v, Type::F64))
        } else if string_is(name, "int") {
            self.to_int(a[0].0, &a[0].1)
        } else if string_is(name, "float") {
            self.to_float(a[0].0, &a[0].1)
        } else if string_is(name, "to_i64") {
            self.to_long(a[0].0, &a[0].1)
        } else {
            let rt = if string_is(name, "str_len") {
                Runtime::StrLen
            } else if string_is(name, "str_concat") {
                Runtime::StrConcat
            } else if string_is(name, "str_eq") {
                Runtime::StrEq
            } else if string_is(name, "input") {
                Runtime::InputLine
            } else if string_is(name, "parse_int") {
                Runtime::ParseI32
            } else {
                Runtime::ParseF64
            };
            let ret = if string_is(name, "str_len") || string_is(name, "parse_int") {
                Type::I32
            } else if string_is(name, "str_concat") || string_is(name, "input") {
                Type::Str
            } else if string_is(name, "str_eq") {
                Type::Bool
            } else {
                Type::F64
            };
            let mut vals: Vec<usize> = Vec::new();
            let mut j: usize = 0;
            while j < a.len()
                invariant
                    j <= a@.len(),
                    ta == typed_view(a@),
                    ta.len() == a@.len(),
                    forall|k: int| 0 <= k < a@.len() ==> #[trigger] ta[k] == (a@[k].0, a@[k].1@),
                    vals@.len() == j,
                    forall|k: int| 0 <= k < j ==> #[trigger] vals@[k] == ta[k].0,
                decreases a@.len() - j,
            {
                vals.push(a[j].0);
                j = j + 1;
            }
            assert(vals@ =~= raw_vals(ta));
            assert(rt == simple_rt(name@));
            assert(ret@ == simple_ret(name@));
            let v = self.call(Callee::Runtime(rt), &vals);
            Ok((v, ret))
        }
    }

}

} // verus!
