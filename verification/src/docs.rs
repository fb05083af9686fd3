use vstd::prelude::*;

verus! {

/// A built-in function of Vyrn: its name, its signature and its documentation.
pub struct Builtin {
    pub name: &'static str,
    pub sig: &'static str,
    pub doc: &'static str,
}

pub struct SpecBuiltin {
    pub name: Seq<char>,
    pub sig: Seq<char>,
    pub doc: Seq<char>,
}

impl View for Builtin {
    type V = SpecBuiltin;

    open spec fn view(&self) -> SpecBuiltin {
        SpecBuiltin { name: self.name@, sig: self.sig@, doc: self.doc@ }
    }
}

/// The built-in functions, in the order the editor lists them.
pub open spec fn builtin_table() -> Seq<SpecBuiltin> {
    seq![
        SpecBuiltin { name: "println"@, sig: "println(value)"@, doc: "Print a value followed by a newline."@ },
        SpecBuiltin { name: "print"@, sig: "print(value)"@, doc: "Print a value without a trailing newline."@ },
        SpecBuiltin { name: "len"@, sig: "len(arr: [T]) -> i32"@, doc: "Return the number of elements in a fixed-size array (compile-time constant)."@ },
        SpecBuiltin { name: "abs"@, sig: "abs(x) -> same"@, doc: "Absolute value. Works for i32 and f64."@ },
        SpecBuiltin { name: "sqrt"@, sig: "sqrt(x: f64) -> f64"@, doc: "Square root."@ },
        SpecBuiltin { name: "pow"@, sig: "pow(base: f64, exp: f64) -> f64"@, doc: "Raise `base` to the power `exp`."@ },
        SpecBuiltin { name: "to_string"@, sig: "to_string(v) -> str"@, doc: "Convert a numeric or bool value to its string representation."@ },
        SpecBuiltin { name: "min"@, sig: "min(a, b) -> same"@, doc: "Return the smaller of two values. Accepts i32 or f64."@ },
        SpecBuiltin { name: "max"@, sig: "max(a, b) -> same"@, doc: "Return the larger of two values. Accepts i32 or f64."@ },
        SpecBuiltin { name: "floor"@, sig: "floor(x: f64) -> f64"@, doc: "Round down to the nearest integer (returns f64)."@ },
        SpecBuiltin { name: "ceil"@, sig: "ceil(x: f64) -> f64"@, doc: "Round up to the nearest integer (returns f64)."@ },
        SpecBuiltin { name: "round"@, sig: "round(x: f64) -> f64"@, doc: "Round to the nearest integer (returns f64)."@ },
        SpecBuiltin { name: "clamp"@, sig: "clamp(val, lo, hi) -> same"@, doc: "Clamp a value to the inclusive range [lo, hi]."@ },
        SpecBuiltin { name: "str_len"@, sig: "str_len(s: str) -> i32"@, doc: "Return the byte length of a string (not character count)."@ },
        SpecBuiltin { name: "str_concat"@, sig: "str_concat(a: str, b: str) -> str"@, doc: "Concatenate two strings and return a new string."@ },
        SpecBuiltin { name: "str_eq"@, sig: "str_eq(a: str, b: str) -> bool"@, doc: "Compare two strings for equality."@ },
        SpecBuiltin { name: "input"@, sig: "input() -> str"@, doc: "Read one line from standard input (newline stripped)."@ },
        SpecBuiltin { name: "parse_int"@, sig: "parse_int(s: str) -> i32"@, doc: "Parse a decimal string as a 32-bit integer. Returns 0 on failure."@ },
        SpecBuiltin { name: "parse_float"@, sig: "parse_float(s: str) -> f64"@, doc: "Parse a decimal string as a 64-bit float. Returns 0.0 on failure."@ },
        SpecBuiltin { name: "int"@, sig: "int(x) -> i32"@, doc: "Convert a value to i32 (truncates floats toward zero)."@ },
        SpecBuiltin { name: "float"@, sig: "float(x) -> f64"@, doc: "Convert a value to f64."@ },
        SpecBuiltin { name: "to_i64"@, sig: "to_i64(x) -> i64"@, doc: "Convert a value to i64 (sign-extends integers)."@ },
    ]
}

/// The documentation of each keyword.
pub open spec fn keyword_table() -> Seq<(Seq<char>, Seq<char>)> {
    seq![
        ("let"@, "Variable declaration. Immutable by convention; use `let mut` for a mutable variable."@),
        ("mut"@, "Marks a variable as mutable: `let mut x = 0;`"@),
        ("fn"@, "Function declaration: `fn name(param: type) -> ret_type { ... }`"@),
        ("gen"@, "Generator function prefix. The body may use `yield` to lazily produce values: `gen fn name() -> T { yield v; }`"@),
        ("if"@, "Conditional branch: `if cond { ... } else { ... }`"@),
        ("else"@, "Else branch of an `if` expression."@),
        ("for"@, "For loop.\n- Range: `for i in 0..10 { ... }` (exclusive)\n- Inclusive range: `for i in 0..=9 { ... }`\n- Array iteration: `for x in arr { ... }`\n- Generator iteration: `for v in gen_fn() { ... }`"@),
        ("while"@, "While loop: `while cond { ... }`"@),
        ("return"@, "Return a value from the current function: `return expr;`"@),
        ("break"@, "Exit the innermost loop, or a specific labeled loop: `break;` / `break 'outer;`"@),
        ("continue"@, "Skip to the next loop iteration: `continue;` / `continue 'outer;`"@),
        ("yield"@, "Yield a value from a generator function. Suspends execution until the caller advances the generator."@),
        ("in"@, "Used in `for x in expr` iteration syntax."@),
        ("struct"@, "Define a named aggregate type:\n```vyrn\nstruct Point { x: f64, y: f64 }\n```"@),
        ("true"@, "Boolean literal `true`."@),
        ("false"@, "Boolean literal `false`."@),
        ("i32"@, "Signed 32-bit integer type. Default type for integer literals."@),
        ("i64"@, "Signed 64-bit integer type."@),
        ("f32"@, "32-bit single-precision floating-point type."@),
        ("f64"@, "64-bit double-precision floating-point type. Default type for float literals."@),
        ("str"@, "String type — a pointer to a null-terminated C string. String literals are `\"text\"`."@),
        ("bool"@, "Boolean type. Values: `true` or `false`."@),
        ("void"@, "Unit/void return type. Used when a function returns nothing."@),
        ("u32"@, "Unsigned 32-bit integer type. Division and comparison use unsigned semantics."@),
    ]
}

pub open spec fn builtins_view(v: Seq<Builtin>) -> Seq<SpecBuiltin> {
    v.map_values(|b: Builtin| b@)
}

pub open spec fn keywords_view(v: Seq<(&'static str, &'static str)>) -> Seq<(Seq<char>, Seq<char>)> {
    v.map_values(|k: (&'static str, &'static str)| (k.0@, k.1@))
}

/// The built-in functions.
pub fn builtins() -> (v: Vec<Builtin>)
    ensures
        builtins_view(v@) == builtin_table(),
{
    let mut v: Vec<Builtin> = Vec::new();
    v.push(Builtin { name: "println", sig: "println(value)", doc: "Print a value followed by a newline." });
    v.push(Builtin { name: "print", sig: "print(value)", doc: "Print a value without a trailing newline." });
    v.push(Builtin { name: "len", sig: "len(arr: [T]) -> i32", doc: "Return the number of elements in a fixed-size array (compile-time constant)." });
    v.push(Builtin { name: "abs", sig: "abs(x) -> same", doc: "Absolute value. Works for i32 and f64." });
    v.push(Builtin { name: "sqrt", sig: "sqrt(x: f64) -> f64", doc: "Square root." });
    v.push(Builtin { name: "pow", sig: "pow(base: f64, exp: f64) -> f64", doc: "Raise `base` to the power `exp`." });
    v.push(Builtin { name: "to_string", sig: "to_string(v) -> str", doc: "Convert a numeric or bool value to its string representation." });
    v.push(Builtin { name: "min", sig: "min(a, b) -> same", doc: "Return the smaller of two values. Accepts i32 or f64." });
    v.push(Builtin { name: "max", sig: "max(a, b) -> same", doc: "Return the larger of two values. Accepts i32 or f64." });
    v.push(Builtin { name: "floor", sig: "floor(x: f64) -> f64", doc: "Round down to the nearest integer (returns f64)." });
    v.push(Builtin { name: "ceil", sig: "ceil(x: f64) -> f64", doc: "Round up to the nearest integer (returns f64)." });
    v.push(Builtin { name: "round", sig: "round(x: f64) -> f64", doc: "Round to the nearest integer (returns f64)." });
    v.push(Builtin { name: "clamp", sig: "clamp(val, lo, hi) -> same", doc: "Clamp a value to the inclusive range [lo, hi]." });
    v.push(Builtin { name: "str_len", sig: "str_len(s: str) -> i32", doc: "Return the byte length of a string (not character count)." });
    v.push(Builtin { name: "str_concat", sig: "str_concat(a: str, b: str) -> str", doc: "Concatenate two strings and return a new string." });
    v.push(Builtin { name: "str_eq", sig: "str_eq(a: str, b: str) -> bool", doc: "Compare two strings for equality." });
    v.push(Builtin { name: "input", sig: "input() -> str", doc: "Read one line from standard input (newline stripped)." });
    v.push(Builtin { name: "parse_int", sig: "parse_int(s: str) -> i32", doc: "Parse a decimal string as a 32-bit integer. Returns 0 on failure." });
    v.push(Builtin { name: "parse_float", sig: "parse_float(s: str) -> f64", doc: "Parse a decimal string as a 64-bit float. Returns 0.0 on failure." });
    v.push(Builtin { name: "int", sig: "int(x) -> i32", doc: "Convert a value to i32 (truncates floats toward zero)." });
    v.push(Builtin { name: "float", sig: "float(x) -> f64", doc: "Convert a value to f64." });
    v.push(Builtin { name: "to_i64", sig: "to_i64(x) -> i64", doc: "Convert a value to i64 (sign-extends integers)." });
    assert(builtins_view(v@) =~= builtin_table());
    v
}

/// The keywords with their documentation.
pub fn keyword_docs() -> (v: Vec<(&'static str, &'static str)>)
    ensures
        keywords_view(v@) == keyword_table(),
{
    let mut v: Vec<(&'static str, &'static str)> = Vec::new();
    v.push(("let", "Variable declaration. Immutable by convention; use `let mut` for a mutable variable."));
    v.push(("mut", "Marks a variable as mutable: `let mut x = 0;`"));
    v.push(("fn", "Function declaration: `fn name(param: type) -> ret_type { ... }`"));
    v.push(("gen", "Generator function prefix. The body may use `yield` to lazily produce values: `gen fn name() -> T { yield v; }`"));
    v.push(("if", "Conditional branch: `if cond { ... } else { ... }`"));
    v.push(("else", "Else branch of an `if` expression."));
    v.push(("for", "For loop.\n- Range: `for i in 0..10 { ... }` (exclusive)\n- Inclusive range: `for i in 0..=9 { ... }`\n- Array iteration: `for x in arr { ... }`\n- Generator iteration: `for v in gen_fn() { ... }`"));
    v.push(("while", "While loop: `while cond { ... }`"));
    v.push(("return", "Return a value from the current function: `return expr;`"));
    v.push(("break", "Exit the innermost loop, or a specific labeled loop: `break;` / `break 'outer;`"));
    v.push(("continue", "Skip to the next loop iteration: `continue;` / `continue 'outer;`"));
    v.push(("yield", "Yield a value from a generator function. Suspends execution until the caller advances the generator."));
    v.push(("in", "Used in `for x in expr` iteration syntax."));
    v.push(("struct", "Define a named aggregate type:\n```vyrn\nstruct Point { x: f64, y: f64 }\n```"));
    v.push(("true", "Boolean literal `true`."));
    v.push(("false", "Boolean literal `false`."));
    v.push(("i32", "Signed 32-bit integer type. Default type for integer literals."));
    v.push(("i64", "Signed 64-bit integer type."));
    v.push(("f32", "32-bit single-precision floating-point type."));
    v.push(("f64", "64-bit double-precision floating-point type. Default type for float literals."));
    v.push(("str", "String type — a pointer to a null-terminated C string. String literals are `\"text\"`."));
    v.push(("bool", "Boolean type. Values: `true` or `false`."));
    v.push(("void", "Unit/void return type. Used when a function returns nothing."));
    v.push(("u32", "Unsigned 32-bit integer type. Division and comparison use unsigned semantics."));
    assert(keywords_view(v@) =~= keyword_table());
    v
}

} // verus!
