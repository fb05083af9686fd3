use vstd::prelude::*;

use crate::ast::{SpecType, Type, field_decls_view};

verus! {

// ─── Machine types ───────────────────────────────────────────────────────────

/// The machine types that Vyrn values take in generated code.
#[derive(Debug, Clone, Copy, PartialEq, Eq, Structural)]
pub enum ClType {
    I8,
    I32,
    I64,
    F32,
    F64,
}

/// The machine type of a Vyrn type: `bool` is a byte, text, arrays and structs are
/// addresses, and `void` has none.
pub open spec fn cl_type_of(t: SpecType) -> Option<ClType> {
    match t {
        SpecType::I32 | SpecType::U32 => Some(ClType::I32),
        SpecType::I64 => Some(ClType::I64),
        SpecType::F32 => Some(ClType::F32),
        SpecType::F64 => Some(ClType::F64),
        SpecType::Bool => Some(ClType::I8),
        SpecType::Str | SpecType::Array(_) | SpecType::Custom(_) => Some(ClType::I64),
        SpecType::Void => None,
    }
}

/// The machine type of `t`, which must not be `void`.
pub fn cl_type(t: &Type) -> (c: ClType)
    requires
        cl_type_of(t@) is Some,
    ensures
        cl_type_of(t@) == Some(c),
{
    match t {
        Type::I32 | Type::U32 => ClType::I32,
        Type::I64 => ClType::I64,
        Type::F32 => ClType::F32,
        Type::F64 => ClType::F64,
        Type::Bool => ClType::I8,
        Type::Str | Type::Array(_) | Type::Custom(_) => ClType::I64,
        Type::Void => ClType::I64,
    }
}

/// The number of bytes a value of type `t` takes in memory.
pub open spec fn size_of(t: SpecType) -> int {
    match t {
        SpecType::I32 | SpecType::U32 | SpecType::F32 => 4,
        SpecType::I64 | SpecType::F64 => 8,
        SpecType::Bool => 1,
        SpecType::Str | SpecType::Array(_) | SpecType::Custom(_) => 8,
        SpecType::Void => 0,
    }
}

/// The number of bytes a value of type `t` takes in memory.
pub fn elem_size(t: &Type) -> (n: u32)
    ensures
        n == size_of(t@),
{
    match t {
        Type::I32 | Type::U32 | Type::F32 => 4,
        Type::I64 | Type::F64 => 8,
        Type::Bool => 1,
        Type::Str | Type::Array(_) | Type::Custom(_) => 8,
        Type::Void => 0,
    }
}

pub open spec fn spec_is_float(t: SpecType) -> bool {
    t == SpecType::F32 || t == SpecType::F64
}

pub fn is_float(t: &Type) -> (r: bool)
    ensures
        r == spec_is_float(t@),
{
    match t {
        Type::F32 | Type::F64 => true,
        _ => false,
    }
}

pub open spec fn spec_is_unsigned(t: SpecType) -> bool {
    t == SpecType::U32
}

pub fn is_unsigned(t: &Type) -> (r: bool)
    ensures
        r == spec_is_unsigned(t@),
{
    match t {
        Type::U32 => true,
        _ => false,
    }
}

// ─── Struct layout ───────────────────────────────────────────────────────────

/// `off` rounded up to a multiple of `size` (for the sizes that values take).
pub open spec fn align_up(off: int, size: int) -> int {
    if size > 0 {
        ((off + size - 1) / size) * size
    } else {
        off
    }
}

/// Where the first `n` fields end: each field starts at the next multiple of its own size.
pub open spec fn fields_end(fields: Seq<(Seq<char>, SpecType)>, n: int) -> int
    decreases n,
{
    if n <= 0 {
        0
    } else {
        align_up(fields_end(fields, n - 1), size_of(fields[n - 1].1)) + size_of(fields[n - 1].1)
    }
}

/// Where field `k` starts.
pub open spec fn field_start(fields: Seq<(Seq<char>, SpecType)>, k: int) -> int {
    align_up(fields_end(fields, k), size_of(fields[k].1))
}

/// The size of a struct with these fields.
pub open spec fn struct_size_of(fields: Seq<(Seq<char>, SpecType)>) -> int {
    fields_end(fields, fields.len() as int)
}

/// The index of the first field at or after `i` named `name`.
pub open spec fn field_index(fields: Seq<(Seq<char>, SpecType)>, name: Seq<char>, i: int) -> Option<int>
    decreases fields.len() - i,
{
    if 0 <= i < fields.len() {
        if fields[i].0 == name {
            Some(i)
        } else {
            field_index(fields, name, i + 1)
        }
    } else {
        None
    }
}

/// A struct small enough that its offsets and size fit an `i32`.
pub open spec fn layout_fits(fields: Seq<(Seq<char>, SpecType)>) -> bool {
    struct_size_of(fields) < 0x8000_0000
}

/// Within a struct that fits, field `i` starts at or after where the fields before it end,
/// and ends within the struct.
proof fn lemma_step_fits(fields: Seq<(Seq<char>, SpecType)>, i: int)
    requires
        0 <= i < fields.len(),
        layout_fits(fields),
    ensures
        0 <= fields_end(fields, i) <= field_start(fields, i),
        field_start(fields, i) + size_of(fields[i].1) == fields_end(fields, i + 1),
        fields_end(fields, i + 1) < 0x8000_0000,
        size_of(fields[i].1) == 0 || size_of(fields[i].1) == 1 || size_of(fields[i].1) == 4
            || size_of(fields[i].1) == 8,
{
    lemma_end_nonneg(fields, i);
    lemma_start_aligned(fields, i);
    lemma_end_grows(fields, i + 1, fields.len() as int);
    lemma_size_cases(fields[i].1);
}

/// Whether a struct with these fields fits (see `layout_fits`).
pub fn layout_fits_of(fields: &Vec<(String, Type)>) -> (r: bool)
    ensures
        r == layout_fits(field_decls_view(fields@)),
{
    let ghost fs = field_decls_view(fields@);
    let mut off: u32 = 0;
    let mut i: usize = 0;
    proof {
        lemma_end_grows(fs, 0, fs.len() as int);
    }
    while i < fields.len()
        invariant
            fs == field_decls_view(fields@),
            i <= fields@.len(),
            off == fields_end(fs, i as int),
            off < 0x8000_0000,
        decreases fields@.len() - i,
    {
        assert(fs[i as int] == (fields@[i as int].0@, fields@[i as int].1@));
        proof {
            lemma_end_nonneg(fs, i as int);
            lemma_start_aligned(fs, i as int);
            lemma_size_cases(fs[i as int].1);
        }
        let sz = elem_size(&fields[i].1);
        proof {
            lemma_align(off, sz);
        }
        let aligned: u32 = if sz > 0 {
            (off + sz - 1) & !(sz - 1)
        } else {
            off
        };
        let next: u64 = aligned as u64 + sz as u64;
        if next >= 0x8000_0000 {
            proof {
                lemma_end_grows(fs, i as int + 1, fs.len() as int);
            }
            return false;
        }
        off = next as u32;
        i = i + 1;
    }
    true
}

proof fn lemma_align(off: u32, size: u32)
    requires
        size == 0 || size == 1 || size == 4 || size == 8,
        off < 0x8000_0000,
    ensures
        (if size > 0 {
            (off + size - 1) as u32 & !((size - 1) as u32)
        } else {
            off
        }) == align_up(off as int, size as int),
{
    if size == 1 {
        assert((off + 1 - 1) as u32 & !((1 - 1) as u32) == off) by (bit_vector)
            requires
                off < 0x8000_0000u32,
        ;
    } else if size == 4 {
        assert((off + 4 - 1) as u32 & !((4 - 1) as u32) == ((off + 3) / 4) * 4) by (bit_vector)
            requires
                off < 0x8000_0000u32,
        ;
    } else if size == 8 {
        assert((off + 8 - 1) as u32 & !((8 - 1) as u32) == ((off + 7) / 8) * 8) by (bit_vector)
            requires
                off < 0x8000_0000u32,
        ;
    }
}

/// The offset and type of the field `name` (its first occurrence).
pub fn field_offset(fields: &Vec<(String, Type)>, name: &str) -> (r: (i32, Type))
    requires
        layout_fits(field_decls_view(fields@)),
        field_index(field_decls_view(fields@), name@, 0) is Some,
    ensures
        ({
            let fs = field_decls_view(fields@);
            let k = field_index(fs, name@, 0)->0;
            r.0 == field_start(fs, k) && r.1@ == fs[k].1
        }),
{
    let ghost fs = field_decls_view(fields@);
    let mut off: u32 = 0;
    let mut i: usize = 0;
    while i < fields.len()
        invariant
            fs == field_decls_view(fields@),
            layout_fits(fs),
            i <= fields@.len(),
            off == fields_end(fs, i as int),
            field_index(fs, name@, i as int) == field_index(fs, name@, 0),
            field_index(fs, name@, 0) is Some,
        decreases fields@.len() - i,
    {
        assert(fs[i as int] == (fields@[i as int].0@, fields@[i as int].1@));
        proof {
            lemma_step_fits(fs, i as int);
        }
        let sz = elem_size(&fields[i].1);
        proof {
            lemma_align(off, sz);
        }
        if sz > 0 {
            off = (off + sz - 1) & !(sz - 1);
        }
        if string_is_at(&fields[i].0, name) {
            return (off as i32, fields[i].1.duplicate());
        }
        off = off + sz;
        i = i + 1;
    }
    (0, Type::Void)
}

fn string_is_at(s: &String, name: &str) -> (r: bool)
    ensures
        r == (s@ == name@),
{
    crate::text::string_is(s.as_str(), name)
}

/// The size of a struct with these fields.
pub fn struct_size(fields: &Vec<(String, Type)>) -> (n: u32)
    requires
        layout_fits(field_decls_view(fields@)),
    ensures
        n == struct_size_of(field_decls_view(fields@)),
{
    let ghost fs = field_decls_view(fields@);
    let mut off: u32 = 0;
    let mut i: usize = 0;
    while i < fields.len()
        invariant
            fs == field_decls_view(fields@),
            layout_fits(fs),
            i <= fields@.len(),
            off == fields_end(fs, i as int),
        decreases fields@.len() - i,
    {
        assert(fs[i as int] == (fields@[i as int].0@, fields@[i as int].1@));
        proof {
            lemma_step_fits(fs, i as int);
        }
        let sz = elem_size(&fields[i].1);
        proof {
            lemma_align(off, sz);
        }
        if sz > 0 {
            off = (off + sz - 1) & !(sz - 1);
        }
        off = off + sz;
        i = i + 1;
    }
    off
}

/// The alignment, as a power of two, of a slot whose elements take `size` bytes.
pub open spec fn align_shift_of(size: int) -> int {
    if size <= 1 {
        0
    } else if size <= 2 {
        1
    } else if size <= 4 {
        2
    } else {
        3
    }
}

/// `size.max(1).trailing_zeros()` for the sizes that values take.
pub fn align_shift(size: u32) -> (s: u8)
    requires
        size == 0 || size == 1 || size == 4 || size == 8,
    ensures
        s == align_shift_of(size as int),
{
    if size <= 1 {
        0
    } else if size <= 4 {
        2
    } else {
        3
    }
}

/// The largest field size, or 4 for a struct with no fields.
pub open spec fn max_field_size(fields: Seq<(Seq<char>, SpecType)>, n: int) -> int
    decreases n,
{
    if n <= 0 {
        4
    } else if n == 1 {
        size_of(fields[0].1)
    } else {
        let m = max_field_size(fields, n - 1);
        if size_of(fields[n - 1].1) > m {
            size_of(fields[n - 1].1)
        } else {
            m
        }
    }
}

pub fn largest_field(fields: &Vec<(String, Type)>) -> (m: u32)
    ensures
        m == max_field_size(field_decls_view(fields@), fields@.len() as int),
        m == 0 || m == 1 || m == 4 || m == 8,
{
    let ghost fs = field_decls_view(fields@);
    if fields.len() == 0 {
        return 4;
    }
    let mut m = elem_size(&fields[0].1);
    assert(fs[0] == (fields@[0].0@, fields@[0].1@));
    let mut i: usize = 1;
    while i < fields.len()
        invariant
            fs == field_decls_view(fields@),
            1 <= i <= fields@.len(),
            m == max_field_size(fs, i as int),
            m == 0 || m == 1 || m == 4 || m == 8,
        decreases fields@.len() - i,
    {
        assert(fs[i as int] == (fields@[i as int].0@, fields@[i as int].1@));
        let sz = elem_size(&fields[i].1);
        if sz > m {
            m = sz;
        }
        i = i + 1;
    }
    m
}

/// Every field of a struct starts at a multiple of its own size, and fields follow one
/// another without overlapping, inside the struct.
pub proof fn lemma_layout_aligned(fields: Seq<(Seq<char>, SpecType)>, j: int, k: int)
    requires
        0 <= j <= k < fields.len(),
    ensures
        size_of(fields[k].1) > 0 ==> field_start(fields, k) % size_of(fields[k].1) == 0,
        j < k ==> field_start(fields, j) + size_of(fields[j].1) <= field_start(fields, k),
        field_start(fields, k) + size_of(fields[k].1) <= struct_size_of(fields),
{
    lemma_start_aligned(fields, j);
    lemma_start_aligned(fields, k);
    if j < k {
        lemma_end_grows(fields, j + 1, k);
    }
    lemma_end_grows(fields, k + 1, fields.len() as int);
}

proof fn lemma_align_up(x: int, size: int)
    requires
        x >= 0,
        size == 0 || size == 1 || size == 4 || size == 8,
    ensures
        x <= align_up(x, size),
        size > 0 ==> align_up(x, size) % size == 0,
{
    if size == 4 {
        assert(((x + 3) / 4) * 4 >= x && (((x + 3) / 4) * 4) % 4 == 0) by (nonlinear_arith)
            requires
                x >= 0,
        ;
    } else if size == 8 {
        assert(((x + 7) / 8) * 8 >= x && (((x + 7) / 8) * 8) % 8 == 0) by (nonlinear_arith)
            requires
                x >= 0,
        ;
    }
}

proof fn lemma_size_cases(t: SpecType)
    ensures
        size_of(t) == 0 || size_of(t) == 1 || size_of(t) == 4 || size_of(t) == 8,
{
}

proof fn lemma_end_nonneg(fields: Seq<(Seq<char>, SpecType)>, n: int)
    requires
        0 <= n <= fields.len(),
    ensures
        fields_end(fields, n) >= 0,
    decreases n,
{
    if n > 0 {
        lemma_end_nonneg(fields, n - 1);
        lemma_size_cases(fields[n - 1].1);
        lemma_align_up(fields_end(fields, n - 1), size_of(fields[n - 1].1));
    }
}

proof fn lemma_start_aligned(fields: Seq<(Seq<char>, SpecType)>, k: int)
    requires
        0 <= k < fields.len(),
    ensures
        size_of(fields[k].1) > 0 ==> field_start(fields, k) % size_of(fields[k].1) == 0,
        fields_end(fields, k) <= field_start(fields, k),
        field_start(fields, k) + size_of(fields[k].1) == fields_end(fields, k + 1),
{
    lemma_end_nonneg(fields, k);
    lemma_size_cases(fields[k].1);
    lemma_align_up(fields_end(fields, k), size_of(fields[k].1));
}

proof fn lemma_end_grows(fields: Seq<(Seq<char>, SpecType)>, a: int, b: int)
    requires
        0 <= a <= b <= fields.len(),
    ensures
        fields_end(fields, a) <= fields_end(fields, b),
    decreases b - a,
{
    if a < b {
        lemma_end_grows(fields, a, b - 1);
        lemma_start_aligned(fields, b - 1);
    }
}

// ─── The runtime library ─────────────────────────────────────────────────────

/// The functions of the Vyrn runtime that generated code calls.
#[derive(Debug, Clone, Copy, PartialEq, Eq, Hash, Structural)]
pub enum Runtime {
    PrintlnI32,
    PrintlnU32,
    PrintlnI64,
    PrintlnF64,
    PrintlnF32,
    PrintlnBool,
    PrintlnStr,
    PrintlnNewline,
    PrintI32,
    PrintU32,
    PrintI64,
    PrintF64,
    PrintF32,
    PrintBool,
    PrintStr,
    AbsI32,
    AbsF64,
    SqrtF64,
    PowF64,
    I32ToString,
    F64ToString,
    BoolToString,
    FmodF64,
    GenCtxAlloc,
    GenStart,
    GenAdvance,
    GenValueI64,
    YieldI64,
    GenEnd,
    MinI32,
    MaxI32,
    MinF64,
    MaxF64,
    FloorF64,
    CeilF64,
    RoundF64,
    ClampI32,
    ClampF64,
    StrLen,
    StrConcat,
    StrEq,
    InputLine,
    ParseI32,
    ParseF64,
}

/// The symbol of a runtime function.
pub open spec fn runtime_name(r: Runtime) -> Seq<char> {
    match r {
        Runtime::PrintlnI32 => "vyrn_println_i32"@,
        Runtime::PrintlnU32 => "vyrn_println_u32"@,
        Runtime::PrintlnI64 => "vyrn_println_i64"@,
        Runtime::PrintlnF64 => "vyrn_println_f64"@,
        Runtime::PrintlnF32 => "vyrn_println_f32"@,
        Runtime::PrintlnBool => "vyrn_println_bool"@,
        Runtime::PrintlnStr => "vyrn_println_str"@,
        Runtime::PrintlnNewline => "vyrn_println_newline"@,
        Runtime::PrintI32 => "vyrn_print_i32"@,
        Runtime::PrintU32 => "vyrn_print_u32"@,
        Runtime::PrintI64 => "vyrn_print_i64"@,
        Runtime::PrintF64 => "vyrn_print_f64"@,
        Runtime::PrintF32 => "vyrn_print_f32"@,
        Runtime::PrintBool => "vyrn_print_bool"@,
        Runtime::PrintStr => "vyrn_print_str"@,
        Runtime::AbsI32 => "vyrn_abs_i32"@,
        Runtime::AbsF64 => "vyrn_abs_f64"@,
        Runtime::SqrtF64 => "vyrn_sqrt_f64"@,
        Runtime::PowF64 => "vyrn_pow_f64"@,
        Runtime::I32ToString => "vyrn_i32_to_string"@,
        Runtime::F64ToString => "vyrn_f64_to_string"@,
        Runtime::BoolToString => "vyrn_bool_to_string"@,
        Runtime::FmodF64 => "vyrn_fmod_f64"@,
        Runtime::GenCtxAlloc => "vyrn_gen_ctx_alloc"@,
        Runtime::GenStart => "vyrn_gen_start"@,
        Runtime::GenAdvance => "vyrn_gen_advance"@,
        Runtime::GenValueI64 => "vyrn_gen_value_i64"@,
        Runtime::YieldI64 => "vyrn_yield_i64"@,
        Runtime::GenEnd => "vyrn_gen_end"@,
        Runtime::MinI32 => "vyrn_min_i32"@,
        Runtime::MaxI32 => "vyrn_max_i32"@,
        Runtime::MinF64 => "vyrn_min_f64"@,
        Runtime::MaxF64 => "vyrn_max_f64"@,
        Runtime::FloorF64 => "vyrn_floor_f64"@,
        Runtime::CeilF64 => "vyrn_ceil_f64"@,
        Runtime::RoundF64 => "vyrn_round_f64"@,
        Runtime::ClampI32 => "vyrn_clamp_i32"@,
        Runtime::ClampF64 => "vyrn_clamp_f64"@,
        Runtime::StrLen => "vyrn_str_len"@,
        Runtime::StrConcat => "vyrn_str_concat"@,
        Runtime::StrEq => "vyrn_str_eq"@,
        Runtime::InputLine => "vyrn_input_line"@,
        Runtime::ParseI32 => "vyrn_parse_i32"@,
        Runtime::ParseF64 => "vyrn_parse_f64"@,
    }
}

/// The machine types of a runtime function's parameters.
pub open spec fn runtime_params(r: Runtime) -> Seq<ClType> {
    match r {
        Runtime::PrintlnI32 => seq![ClType::I32],
        Runtime::PrintlnU32 => seq![ClType::I32],
        Runtime::PrintlnI64 => seq![ClType::I64],
        Runtime::PrintlnF64 => seq![ClType::F64],
        Runtime::PrintlnF32 => seq![ClType::F32],
        Runtime::PrintlnBool => seq![ClType::I8],
        Runtime::PrintlnStr => seq![ClType::I64],
        Runtime::PrintlnNewline => Seq::empty(),
        Runtime::PrintI32 => seq![ClType::I32],
        Runtime::PrintU32 => seq![ClType::I32],
        Runtime::PrintI64 => seq![ClType::I64],
        Runtime::PrintF64 => seq![ClType::F64],
        Runtime::PrintF32 => seq![ClType::F32],
        Runtime::PrintBool => seq![ClType::I8],
        Runtime::PrintStr => seq![ClType::I64],
        Runtime::AbsI32 => seq![ClType::I32],
        Runtime::AbsF64 => seq![ClType::F64],
        Runtime::SqrtF64 => seq![ClType::F64],
        Runtime::PowF64 => seq![ClType::F64, ClType::F64],
        Runtime::I32ToString => seq![ClType::I32],
        Runtime::F64ToString => seq![ClType::F64],
        Runtime::BoolToString => seq![ClType::I8],
        Runtime::FmodF64 => seq![ClType::F64, ClType::F64],
        Runtime::GenCtxAlloc => seq![ClType::I64],
        Runtime::GenStart => seq![ClType::I64, ClType::I64],
        Runtime::GenAdvance => seq![ClType::I64],
        Runtime::GenValueI64 => seq![ClType::I64],
        Runtime::YieldI64 => seq![ClType::I64, ClType::I64],
        Runtime::GenEnd => seq![ClType::I64],
        Runtime::MinI32 => seq![ClType::I32, ClType::I32],
        Runtime::MaxI32 => seq![ClType::I32, ClType::I32],
        Runtime::MinF64 => seq![ClType::F64, ClType::F64],
        Runtime::MaxF64 => seq![ClType::F64, ClType::F64],
        Runtime::FloorF64 => seq![ClType::F64],
        Runtime::CeilF64 => seq![ClType::F64],
        Runtime::RoundF64 => seq![ClType::F64],
        Runtime::ClampI32 => seq![ClType::I32, ClType::I32, ClType::I32],
        Runtime::ClampF64 => seq![ClType::F64, ClType::F64, ClType::F64],
        Runtime::StrLen => seq![ClType::I64],
        Runtime::StrConcat => seq![ClType::I64, ClType::I64],
        Runtime::StrEq => seq![ClType::I64, ClType::I64],
        Runtime::InputLine => Seq::empty(),
        Runtime::ParseI32 => seq![ClType::I64],
        Runtime::ParseF64 => seq![ClType::I64],
    }
}

/// The machine type of a runtime function's result, if it has one.
pub open spec fn runtime_ret(r: Runtime) -> Option<ClType> {
    match r {
        Runtime::PrintlnI32 => None,
        Runtime::PrintlnU32 => None,
        Runtime::PrintlnI64 => None,
        Runtime::PrintlnF64 => None,
        Runtime::PrintlnF32 => None,
        Runtime::PrintlnBool => None,
        Runtime::PrintlnStr => None,
        Runtime::PrintlnNewline => None,
        Runtime::PrintI32 => None,
        Runtime::PrintU32 => None,
        Runtime::PrintI64 => None,
        Runtime::PrintF64 => None,
        Runtime::PrintF32 => None,
        Runtime::PrintBool => None,
        Runtime::PrintStr => None,
        Runtime::AbsI32 => Some(ClType::I32),
        Runtime::AbsF64 => Some(ClType::F64),
        Runtime::SqrtF64 => Some(ClType::F64),
        Runtime::PowF64 => Some(ClType::F64),
        Runtime::I32ToString => Some(ClType::I64),
        Runtime::F64ToString => Some(ClType::I64),
        Runtime::BoolToString => Some(ClType::I64),
        Runtime::FmodF64 => Some(ClType::F64),
        Runtime::GenCtxAlloc => Some(ClType::I64),
        Runtime::GenStart => Some(ClType::I64),
        Runtime::GenAdvance => Some(ClType::I8),
        Runtime::GenValueI64 => Some(ClType::I64),
        Runtime::YieldI64 => None,
        Runtime::GenEnd => None,
        Runtime::MinI32 => Some(ClType::I32),
        Runtime::MaxI32 => Some(ClType::I32),
        Runtime::MinF64 => Some(ClType::F64),
        Runtime::MaxF64 => Some(ClType::F64),
        Runtime::FloorF64 => Some(ClType::F64),
        Runtime::CeilF64 => Some(ClType::F64),
        Runtime::RoundF64 => Some(ClType::F64),
        Runtime::ClampI32 => Some(ClType::I32),
        Runtime::ClampF64 => Some(ClType::F64),
        Runtime::StrLen => Some(ClType::I32),
        Runtime::StrConcat => Some(ClType::I64),
        Runtime::StrEq => Some(ClType::I8),
        Runtime::InputLine => Some(ClType::I64),
        Runtime::ParseI32 => Some(ClType::I32),
        Runtime::ParseF64 => Some(ClType::F64),
    }
}

/// The runtime functions, in the order they are imported.
pub open spec fn runtime_table() -> Seq<Runtime> {
    seq![
        Runtime::PrintlnI32,
        Runtime::PrintlnU32,
        Runtime::PrintlnI64,
        Runtime::PrintlnF64,
        Runtime::PrintlnF32,
        Runtime::PrintlnBool,
        Runtime::PrintlnStr,
        Runtime::PrintlnNewline,
        Runtime::PrintI32,
        Runtime::PrintU32,
        Runtime::PrintI64,
        Runtime::PrintF64,
        Runtime::PrintF32,
        Runtime::PrintBool,
        Runtime::PrintStr,
        Runtime::AbsI32,
        Runtime::AbsF64,
        Runtime::SqrtF64,
        Runtime::PowF64,
        Runtime::I32ToString,
        Runtime::F64ToString,
        Runtime::BoolToString,
        Runtime::FmodF64,
        Runtime::GenCtxAlloc,
        Runtime::GenStart,
        Runtime::GenAdvance,
        Runtime::GenValueI64,
        Runtime::YieldI64,
        Runtime::GenEnd,
        Runtime::MinI32,
        Runtime::MaxI32,
        Runtime::MinF64,
        Runtime::MaxF64,
        Runtime::FloorF64,
        Runtime::CeilF64,
        Runtime::RoundF64,
        Runtime::ClampI32,
        Runtime::ClampF64,
        Runtime::StrLen,
        Runtime::StrConcat,
        Runtime::StrEq,
        Runtime::InputLine,
        Runtime::ParseI32,
        Runtime::ParseF64,
    ]
}

impl Runtime {
    pub fn name(self) -> (s: &'static str)
        ensures
            s@ == runtime_name(self),
    {
        match self {
            Runtime::PrintlnI32 => "vyrn_println_i32",
            Runtime::PrintlnU32 => "vyrn_println_u32",
            Runtime::PrintlnI64 => "vyrn_println_i64",
            Runtime::PrintlnF64 => "vyrn_println_f64",
            Runtime::PrintlnF32 => "vyrn_println_f32",
            Runtime::PrintlnBool => "vyrn_println_bool",
            Runtime::PrintlnStr => "vyrn_println_str",
            Runtime::PrintlnNewline => "vyrn_println_newline",
            Runtime::PrintI32 => "vyrn_print_i32",
            Runtime::PrintU32 => "vyrn_print_u32",
            Runtime::PrintI64 => "vyrn_print_i64",
            Runtime::PrintF64 => "vyrn_print_f64",
            Runtime::PrintF32 => "vyrn_print_f32",
            Runtime::PrintBool => "vyrn_print_bool",
            Runtime::PrintStr => "vyrn_print_str",
            Runtime::AbsI32 => "vyrn_abs_i32",
            Runtime::AbsF64 => "vyrn_abs_f64",
            Runtime::SqrtF64 => "vyrn_sqrt_f64",
            Runtime::PowF64 => "vyrn_pow_f64",
            Runtime::I32ToString => "vyrn_i32_to_string",
            Runtime::F64ToString => "vyrn_f64_to_string",
            Runtime::BoolToString => "vyrn_bool_to_string",
            Runtime::FmodF64 => "vyrn_fmod_f64",
            Runtime::GenCtxAlloc => "vyrn_gen_ctx_alloc",
            Runtime::GenStart => "vyrn_gen_start",
            Runtime::GenAdvance => "vyrn_gen_advance",
            Runtime::GenValueI64 => "vyrn_gen_value_i64",
            Runtime::YieldI64 => "vyrn_yield_i64",
            Runtime::GenEnd => "vyrn_gen_end",
            Runtime::MinI32 => "vyrn_min_i32",
            Runtime::MaxI32 => "vyrn_max_i32",
            Runtime::MinF64 => "vyrn_min_f64",
            Runtime::MaxF64 => "vyrn_max_f64",
            Runtime::FloorF64 => "vyrn_floor_f64",
            Runtime::CeilF64 => "vyrn_ceil_f64",
            Runtime::RoundF64 => "vyrn_round_f64",
            Runtime::ClampI32 => "vyrn_clamp_i32",
            Runtime::ClampF64 => "vyrn_clamp_f64",
            Runtime::StrLen => "vyrn_str_len",
            Runtime::StrConcat => "vyrn_str_concat",
            Runtime::StrEq => "vyrn_str_eq",
            Runtime::InputLine => "vyrn_input_line",
            Runtime::ParseI32 => "vyrn_parse_i32",
            Runtime::ParseF64 => "vyrn_parse_f64",
        }
    }

    pub fn params(self) -> (v: Vec<ClType>)
        ensures
            v@ == runtime_params(self),
    {
        match self {
            Runtime::PrintlnI32 => {
                let mut v: Vec<ClType> = Vec::new();
                v.push(ClType::I32);
                v
            },
            Runtime::PrintlnU32 => {
                let mut v: Vec<ClType> = Vec::new();
                v.push(ClType::I32);
                v
            },
            Runtime::PrintlnI64 => {
                let mut v: Vec<ClType> = Vec::new();
                v.push(ClType::I64);
                v
            },
            Runtime::PrintlnF64 => {
                let mut v: Vec<ClType> = Vec::new();
                v.push(ClType::F64);
                v
            },
            Runtime::PrintlnF32 => {
                let mut v: Vec<ClType> = Vec::new();
                v.push(ClType::F32);
                v
            },
            Runtime::PrintlnBool => {
                let mut v: Vec<ClType> = Vec::new();
                v.push(ClType::I8);
                v
            },
            Runtime::PrintlnStr => {
                let mut v: Vec<ClType> = Vec::new();
                v.push(ClType::I64);
                v
            },
            Runtime::PrintlnNewline => {
                let mut v: Vec<ClType> = Vec::new();
                v
            },
            Runtime::PrintI32 => {
                let mut v: Vec<ClType> = Vec::new();
                v.push(ClType::I32);
                v
            },
            Runtime::PrintU32 => {
                let mut v: Vec<ClType> = Vec::new();
                v.push(ClType::I32);
                v
            },
            Runtime::PrintI64 => {
                let mut v: Vec<ClType> = Vec::new();
                v.push(ClType::I64);
                v
            },
            Runtime::PrintF64 => {
                let mut v: Vec<ClType> = Vec::new();
                v.push(ClType::F64);
                v
            },
            Runtime::PrintF32 => {
                let mut v: Vec<ClType> = Vec::new();
                v.push(ClType::F32);
                v
            },
            Runtime::PrintBool => {
                let mut v: Vec<ClType> = Vec::new();
                v.push(ClType::I8);
                v
            },
            Runtime::PrintStr => {
                let mut v: Vec<ClType> = Vec::new();
                v.push(ClType::I64);
                v
            },
            Runtime::AbsI32 => {
                let mut v: Vec<ClType> = Vec::new();
                v.push(ClType::I32);
                v
            },
            Runtime::AbsF64 => {
                let mut v: Vec<ClType> = Vec::new();
                v.push(ClType::F64);
                v
            },
            Runtime::SqrtF64 => {
                let mut v: Vec<ClType> = Vec::new();
                v.push(ClType::F64);
                v
            },
            Runtime::PowF64 => {
                let mut v: Vec<ClType> = Vec::new();
                v.push(ClType::F64);
                v.push(ClType::F64);
                v
            },
            Runtime::I32ToString => {
                let mut v: Vec<ClType> = Vec::new();
                v.push(ClType::I32);
                v
            },
            Runtime::F64ToString => {
                let mut v: Vec<ClType> = Vec::new();
                v.push(ClType::F64);
                v
            },
            Runtime::BoolToString => {
                let mut v: Vec<ClType> = Vec::new();
                v.push(ClType::I8);
                v
            },
            Runtime::FmodF64 => {
                let mut v: Vec<ClType> = Vec::new();
                v.push(ClType::F64);
                v.push(ClType::F64);
                v
            },
            Runtime::GenCtxAlloc => {
                let mut v: Vec<ClType> = Vec::new();
                v.push(ClType::I64);
                v
            },
            Runtime::GenStart => {
                let mut v: Vec<ClType> = Vec::new();
                v.push(ClType::I64);
                v.push(ClType::I64);
                v
            },
            Runtime::GenAdvance => {
                let mut v: Vec<ClType> = Vec::new();
                v.push(ClType::I64);
                v
            },
            Runtime::GenValueI64 => {
                let mut v: Vec<ClType> = Vec::new();
                v.push(ClType::I64);
                v
            },
            Runtime::YieldI64 => {
                let mut v: Vec<ClType> = Vec::new();
                v.push(ClType::I64);
                v.push(ClType::I64);
                v
            },
            Runtime::GenEnd => {
                let mut v: Vec<ClType> = Vec::new();
                v.push(ClType::I64);
                v
            },
            Runtime::MinI32 => {
                let mut v: Vec<ClType> = Vec::new();
                v.push(ClType::I32);
                v.push(ClType::I32);
                v
            },
            Runtime::MaxI32 => {
                let mut v: Vec<ClType> = Vec::new();
                v.push(ClType::I32);
                v.push(ClType::I32);
                v
            },
            Runtime::MinF64 => {
                let mut v: Vec<ClType> = Vec::new();
                v.push(ClType::F64);
                v.push(ClType::F64);
                v
            },
            Runtime::MaxF64 => {
                let mut v: Vec<ClType> = Vec::new();
                v.push(ClType::F64);
                v.push(ClType::F64);
                v
            },
            Runtime::FloorF64 => {
                let mut v: Vec<ClType> = Vec::new();
                v.push(ClType::F64);
                v
            },
            Runtime::CeilF64 => {
                let mut v: Vec<ClType> = Vec::new();
                v.push(ClType::F64);
                v
            },
            Runtime::RoundF64 => {
                let mut v: Vec<ClType> = Vec::new();
                v.push(ClType::F64);
                v
            },
            Runtime::ClampI32 => {
                let mut v: Vec<ClType> = Vec::new();
                v.push(ClType::I32);
                v.push(ClType::I32);
                v.push(ClType::I32);
                v
            },
            Runtime::ClampF64 => {
                let mut v: Vec<ClType> = Vec::new();
                v.push(ClType::F64);
                v.push(ClType::F64);
                v.push(ClType::F64);
                v
            },
            Runtime::StrLen => {
                let mut v: Vec<ClType> = Vec::new();
                v.push(ClType::I64);
                v
            },
            Runtime::StrConcat => {
                let mut v: Vec<ClType> = Vec::new();
                v.push(ClType::I64);
                v.push(ClType::I64);
                v
            },
            Runtime::StrEq => {
                let mut v: Vec<ClType> = Vec::new();
                v.push(ClType::I64);
                v.push(ClType::I64);
                v
            },
            Runtime::InputLine => {
                let v: Vec<ClType> = Vec::new();
                v
            },
            Runtime::ParseI32 => {
                let mut v: Vec<ClType> = Vec::new();
                v.push(ClType::I64);
                v
            },
            Runtime::ParseF64 => {
                let mut v: Vec<ClType> = Vec::new();
                v.push(ClType::I64);
                v
            },
        }
    }

    pub fn ret(self) -> (r: Option<ClType>)
        ensures
            r == runtime_ret(self),
    {
        match self {
            Runtime::PrintlnI32 => None,
            Runtime::PrintlnU32 => None,
            Runtime::PrintlnI64 => None,
            Runtime::PrintlnF64 => None,
            Runtime::PrintlnF32 => None,
            Runtime::PrintlnBool => None,
            Runtime::PrintlnStr => None,
            Runtime::PrintlnNewline => None,
            Runtime::PrintI32 => None,
            Runtime::PrintU32 => None,
            Runtime::PrintI64 => None,
            Runtime::PrintF64 => None,
            Runtime::PrintF32 => None,
            Runtime::PrintBool => None,
            Runtime::PrintStr => None,
            Runtime::AbsI32 => Some(ClType::I32),
            Runtime::AbsF64 => Some(ClType::F64),
            Runtime::SqrtF64 => Some(ClType::F64),
            Runtime::PowF64 => Some(ClType::F64),
            Runtime::I32ToString => Some(ClType::I64),
            Runtime::F64ToString => Some(ClType::I64),
            Runtime::BoolToString => Some(ClType::I64),
            Runtime::FmodF64 => Some(ClType::F64),
            Runtime::GenCtxAlloc => Some(ClType::I64),
            Runtime::GenStart => Some(ClType::I64),
            Runtime::GenAdvance => Some(ClType::I8),
            Runtime::GenValueI64 => Some(ClType::I64),
            Runtime::YieldI64 => None,
            Runtime::GenEnd => None,
            Runtime::MinI32 => Some(ClType::I32),
            Runtime::MaxI32 => Some(ClType::I32),
            Runtime::MinF64 => Some(ClType::F64),
            Runtime::MaxF64 => Some(ClType::F64),
            Runtime::FloorF64 => Some(ClType::F64),
            Runtime::CeilF64 => Some(ClType::F64),
            Runtime::RoundF64 => Some(ClType::F64),
            Runtime::ClampI32 => Some(ClType::I32),
            Runtime::ClampF64 => Some(ClType::F64),
            Runtime::StrLen => Some(ClType::I32),
            Runtime::StrConcat => Some(ClType::I64),
            Runtime::StrEq => Some(ClType::I8),
            Runtime::InputLine => Some(ClType::I64),
            Runtime::ParseI32 => Some(ClType::I32),
            Runtime::ParseF64 => Some(ClType::F64),
        }
    }
}

/// The runtime functions, in the order they are imported.
pub fn runtime_functions() -> (v: Vec<Runtime>)
    ensures
        v@ == runtime_table(),
{
    let mut v: Vec<Runtime> = Vec::new();
    v.push(Runtime::PrintlnI32);
    v.push(Runtime::PrintlnU32);
    v.push(Runtime::PrintlnI64);
    v.push(Runtime::PrintlnF64);
    v.push(Runtime::PrintlnF32);
    v.push(Runtime::PrintlnBool);
    v.push(Runtime::PrintlnStr);
    v.push(Runtime::PrintlnNewline);
    v.push(Runtime::PrintI32);
    v.push(Runtime::PrintU32);
    v.push(Runtime::PrintI64);
    v.push(Runtime::PrintF64);
    v.push(Runtime::PrintF32);
    v.push(Runtime::PrintBool);
    v.push(Runtime::PrintStr);
    v.push(Runtime::AbsI32);
    v.push(Runtime::AbsF64);
    v.push(Runtime::SqrtF64);
    v.push(Runtime::PowF64);
    v.push(Runtime::I32ToString);
    v.push(Runtime::F64ToString);
    v.push(Runtime::BoolToString);
    v.push(Runtime::FmodF64);
    v.push(Runtime::GenCtxAlloc);
    v.push(Runtime::GenStart);
    v.push(Runtime::GenAdvance);
    v.push(Runtime::GenValueI64);
    v.push(Runtime::YieldI64);
    v.push(Runtime::GenEnd);
    v.push(Runtime::MinI32);
    v.push(Runtime::MaxI32);
    v.push(Runtime::MinF64);
    v.push(Runtime::MaxF64);
    v.push(Runtime::FloorF64);
    v.push(Runtime::CeilF64);
    v.push(Runtime::RoundF64);
    v.push(Runtime::ClampI32);
    v.push(Runtime::ClampF64);
    v.push(Runtime::StrLen);
    v.push(Runtime::StrConcat);
    v.push(Runtime::StrEq);
    v.push(Runtime::InputLine);
    v.push(Runtime::ParseI32);
    v.push(Runtime::ParseF64);
    assert(v@ =~= runtime_table());
    v
}

/// The runtime function that prints a value of type `t`, with or without a newline.
pub open spec fn print_fn(t: SpecType, newline: bool) -> Runtime {
    match t {
        SpecType::I32 => if newline { Runtime::PrintlnI32 } else { Runtime::PrintI32 },
        SpecType::U32 => if newline { Runtime::PrintlnU32 } else { Runtime::PrintU32 },
        SpecType::I64 => if newline { Runtime::PrintlnI64 } else { Runtime::PrintI64 },
        SpecType::F64 => if newline { Runtime::PrintlnF64 } else { Runtime::PrintF64 },
        SpecType::F32 => if newline { Runtime::PrintlnF32 } else { Runtime::PrintF32 },
        SpecType::Bool => if newline { Runtime::PrintlnBool } else { Runtime::PrintBool },
        SpecType::Str => if newline { Runtime::PrintlnStr } else { Runtime::PrintStr },
        _ => if newline { Runtime::PrintlnI32 } else { Runtime::PrintI32 },
    }
}

pub fn print_runtime(t: &Type, newline: bool) -> (r: Runtime)
    ensures
        r == print_fn(t@, newline),
{
    match t {
        Type::I32 => if newline { Runtime::PrintlnI32 } else { Runtime::PrintI32 },
        Type::U32 => if newline { Runtime::PrintlnU32 } else { Runtime::PrintU32 },
        Type::I64 => if newline { Runtime::PrintlnI64 } else { Runtime::PrintI64 },
        Type::F64 => if newline { Runtime::PrintlnF64 } else { Runtime::PrintF64 },
        Type::F32 => if newline { Runtime::PrintlnF32 } else { Runtime::PrintF32 },
        Type::Bool => if newline { Runtime::PrintlnBool } else { Runtime::PrintBool },
        Type::Str => if newline { Runtime::PrintlnStr } else { Runtime::PrintStr },
        _ => if newline { Runtime::PrintlnI32 } else { Runtime::PrintI32 },
    }
}

/// The runtime function that turns a value of type `t` into text.
pub open spec fn to_string_fn(t: SpecType) -> Runtime {
    match t {
        SpecType::F32 | SpecType::F64 => Runtime::F64ToString,
        SpecType::Bool => Runtime::BoolToString,
        _ => Runtime::I32ToString,
    }
}

pub fn to_string_runtime(t: &Type) -> (r: Runtime)
    ensures
        r == to_string_fn(t@),
{
    match t {
        Type::F32 | Type::F64 => Runtime::F64ToString,
        Type::Bool => Runtime::BoolToString,
        _ => Runtime::I32ToString,
    }
}

// ─── Instructions ────────────────────────────────────────────────────────────

/// Integer comparisons.
#[derive(Debug, Clone, Copy, PartialEq, Eq, Structural)]
pub enum IntCond {
    Equal,
    NotEqual,
    SignedLessThan,
    SignedLessThanOrEqual,
    SignedGreaterThan,
    SignedGreaterThanOrEqual,
    UnsignedLessThan,
    UnsignedLessThanOrEqual,
    UnsignedGreaterThan,
    UnsignedGreaterThanOrEqual,
}

/// Comparisons of floating-point values.
#[derive(Debug, Clone, Copy, PartialEq, Eq, Structural)]
pub enum FloatCond {
    Equal,
    NotEqual,
    LessThan,
    LessThanOrEqual,
    GreaterThan,
    GreaterThanOrEqual,
}

/// Two-operand arithmetic and bitwise instructions.
#[derive(Debug, Clone, Copy, PartialEq, Eq, Structural)]
pub enum BinInst {
    Iadd,
    Isub,
    Imul,
    Sdiv,
    Udiv,
    Srem,
    Urem,
    Fadd,
    Fsub,
    Fmul,
    Fdiv,
    Band,
    Bor,
    Bxor,
    Ishl,
    Ushr,
    Sshr,
}

/// Conversions between machine types.
#[derive(Debug, Clone, Copy, PartialEq, Eq, Structural)]
pub enum Conv {
    Sextend,
    Uextend,
    Ireduce,
    Fpromote,
    Fdemote,
    FcvtFromSint,
    FcvtToSintSat,
}

/// What a call or an address names: a runtime function, the function that the declaration
/// at an index of the program declares (a generator's wrapper), or a generator's body.
#[derive(Debug, Clone, Copy, PartialEq, Eq, Hash, Structural)]
pub enum Callee {
    Runtime(Runtime),
    User(usize),
    Body(usize),
}

/// One step of building a function, in the order the steps are taken. An instruction that
/// yields a value is named by its index in the function's list; blocks, variables and
/// stack slots are numbered in the order they are made.
#[derive(Debug, Clone, Copy, PartialEq, Eq, Structural)]
pub enum Inst {
    CreateBlock,
    SwitchToBlock(usize),
    SealBlock(usize),
    /// Gives the block the function's parameters.
    EntryParams(usize),
    /// Parameter `1` of block `0`.
    BlockParam(usize, usize),
    DeclareVar(usize, ClType),
    DefVar(usize, usize),
    UseVar(usize),
    Iconst(ClType, i64),
    /// The float literal at this index of the module's table.
    F64Const(usize),
    F32Zero,
    F64Zero,
    /// The address of the text at this index of the module's table.
    StrConst(usize),
    Binary(BinInst, usize, usize),
    Fneg(usize),
    IaddImm(usize, i64),
    IntCompare(IntCond, usize, usize),
    FloatCompare(FloatCond, usize, usize),
    Convert(Conv, ClType, usize),
    Load(ClType, usize),
    /// Stores value `0` at address `1`.
    Store(usize, usize),
    /// A stack slot of this many bytes, aligned to this power of two.
    CreateSlot(u32, u8),
    StackStore(usize, usize, i32),
    StackAddr(usize),
    /// An argument of the next call.
    CallArg(usize),
    /// A call with the given number of arguments, the last that many `CallArg`s.
    Call(Callee, usize),
    FuncAddr(Callee),
    Brif(usize, usize, usize),
    Jump(usize),
    Return0,
    Return1(usize),
}

} // verus!
