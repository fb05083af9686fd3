use vstd::prelude::*;

use crate::ast::{Decl, FnDecl, Param, Program, Type, decls_view, field_decls_view, params_view, SpecDecl, SpecFnDecl, SpecParam, SpecType, opt_name_view, type_text};
use crate::docs::{SpecBuiltin, builtin_table, builtins, builtins_view, keyword_docs, keyword_table, keywords_view};
use crate::lexer::{
    Lexer, ident_end, lemma_lex_ends_with_eof, lemma_lex_positions, lex, lex_result_view,
    line_end, tokens_positioned,
};
use crate::parser::{Parser, parse_program, program_res, tokens_ok};
use crate::text::{char_is_whitespace, chars_of, is_ident_char, is_whitespace, spec_is_ident_char, string_is};
use crate::token::{SpecToken, Token, TokenType, tokens_view};

verus! {

// ─── Lines of a text ─────────────────────────────────────────────────────────

/// A line without the `\r` of a `\r\n` ending.
pub open spec fn strip_cr(l: Seq<char>) -> Seq<char> {
    if l.len() > 0 && l.last() == '\r' {
        l.drop_last()
    } else {
        l
    }
}

/// The lines of `s` from index `start` on, as `str::lines` splits them: at `\n` or
/// `\r\n`, with no empty line after a final line ending.
pub open spec fn lines_from(s: Seq<char>, start: int) -> Seq<Seq<char>>
    decreases s.len() - start,
{
    if start < 0 || start >= s.len() {
        Seq::empty()
    } else {
        let e = line_end(s, start);
        if start <= e < s.len() {
            seq![strip_cr(s.subrange(start, e))] + lines_from(s, e + 1)
        } else {
            seq![s.subrange(start, s.len() as int)]
        }
    }
}

pub open spec fn lines_of(s: Seq<char>) -> Seq<Seq<char>> {
    lines_from(s, 0)
}

pub open spec fn nested_view(v: Seq<Vec<char>>) -> Seq<Seq<char>> {
    v.map_values(|l: Vec<char>| l@)
}

pub(crate) proof fn lemma_line_end_bounds(s: Seq<char>, p: int)
    requires
        0 <= p <= s.len(),
    ensures
        p <= line_end(s, p) <= s.len(),
        line_end(s, p) < s.len() ==> s[line_end(s, p)] == '\n',
        forall|i: int| p <= i < line_end(s, p) ==> s[i] != '\n',
    decreases s.len() - p,
{
    if p < s.len() && s[p] != '\n' {
        lemma_line_end_bounds(s, p + 1);
    }
}

/// The lines of `s`, as `str::lines` gives them.
pub fn split_lines(s: &Vec<char>) -> (ls: Vec<Vec<char>>)
    ensures
        nested_view(ls@) == lines_of(s@),
{
    let n = s.len();
    let mut ls: Vec<Vec<char>> = Vec::new();
    let mut start: usize = 0;
    assert(nested_view(ls@) =~= Seq::<Seq<char>>::empty());
    while start < n
        invariant
            n == s@.len(),
            start <= n,
            lines_of(s@) == nested_view(ls@) + lines_from(s@, start as int),
        decreases n - start,
    {
        proof {
            lemma_line_end_bounds(s@, start as int);
        }
        let mut line: Vec<char> = Vec::new();
        let mut i = start;
        while i < n && s[i] != '\n'
            invariant
                n == s@.len(),
                start <= i <= n,
                line@ == s@.subrange(start as int, i as int),
                line_end(s@, i as int) == line_end(s@, start as int),
            decreases n - i,
        {
            line.push(s[i]);
            i = i + 1;
            assert(line@ =~= s@.subrange(start as int, i as int));
        }
        let ghost before = ls@;
        let ghost rest = lines_from(s@, start as int);
        if i < n {
            if line.len() > 0 && line[line.len() - 1] == '\r' {
                line.pop();
            }
            assert(line@ =~= strip_cr(s@.subrange(start as int, i as int)));
            ls.push(line);
            assert(nested_view(ls@) =~= nested_view(before).push(strip_cr(s@.subrange(start as int, i as int))));
            assert(nested_view(before) + rest =~= nested_view(ls@) + lines_from(s@, i + 1));
            start = i + 1;
        } else {
            ls.push(line);
            assert(nested_view(ls@) =~= nested_view(before).push(s@.subrange(start as int, n as int)));
            assert(lines_from(s@, n as int) =~= Seq::<Seq<char>>::empty());
            assert(nested_view(before) + rest =~= nested_view(ls@) + lines_from(s@, n as int));
            start = n;
        }
    }
    assert(lines_from(s@, start as int) =~= Seq::<Seq<char>>::empty());
    assert(nested_view(ls@) + Seq::<Seq<char>>::empty() =~= nested_view(ls@));
    ls
}

/// Line `n` of `s` (numbered from 0), if there is one.
pub open spec fn nth_line(s: Seq<char>, n: int) -> Option<Seq<char>> {
    if 0 <= n < lines_of(s).len() {
        Some(lines_of(s)[n])
    } else {
        None
    }
}

// ─── Words under the cursor ──────────────────────────────────────────────────

/// The start of the identifier that ends at index `i` of line `l`.
pub open spec fn ident_back(l: Seq<char>, i: int) -> int
    decreases i,
{
    if 0 < i <= l.len() && spec_is_ident_char(l[i - 1]) {
        ident_back(l, i - 1)
    } else {
        i
    }
}

/// The identifier that spans column `col` (from 0) of line `line` (from 0) of `source`.
pub open spec fn word_at_spec(source: Seq<char>, line: int, col: int) -> Option<Seq<char>> {
    match nth_line(source, line) {
        None => None,
        Some(l) => if col > l.len() {
            None
        } else {
            let st = ident_back(l, col);
            let en = ident_end(l, col);
            if st == en {
                None
            } else {
                Some(l.subrange(st, en))
            }
        },
    }
}

proof fn lemma_ident_back(l: Seq<char>, i: int)
    requires
        0 <= i <= l.len(),
    ensures
        0 <= ident_back(l, i) <= i,
    decreases i,
{
    if 0 < i && spec_is_ident_char(l[i - 1]) {
        lemma_ident_back(l, i - 1);
    }
}

proof fn lemma_ident_end(l: Seq<char>, i: int)
    requires
        0 <= i <= l.len(),
    ensures
        i <= ident_end(l, i) <= l.len(),
    decreases l.len() - i,
{
    if i < l.len() && spec_is_ident_char(l[i]) {
        lemma_ident_end(l, i + 1);
    }
}

/// The start of the identifier that ends at `col`, within `chars`.
fn scan_back(chars: &Vec<char>, col: usize) -> (st: usize)
    requires
        col <= chars@.len(),
    ensures
        st == ident_back(chars@, col as int),
        st <= col,
{
    let mut st = col;
    while st > 0 && is_ident_char(chars[st - 1])
        invariant
            st <= col <= chars@.len(),
            ident_back(chars@, st as int) == ident_back(chars@, col as int),
        decreases st,
    {
        st = st - 1;
    }
    st
}

/// The end of the identifier that starts at `col`, within `chars`.
fn scan_forward(chars: &Vec<char>, col: usize) -> (en: usize)
    requires
        col <= chars@.len(),
    ensures
        en == ident_end(chars@, col as int),
        col <= en <= chars@.len(),
{
    let mut en = col;
    while en < chars.len() && is_ident_char(chars[en])
        invariant
            col <= en <= chars@.len(),
            ident_end(chars@, en as int) == ident_end(chars@, col as int),
        decreases chars@.len() - en,
    {
        en = en + 1;
    }
    en
}

/// The characters `v[lo..hi]`.
pub fn slice_chars(v: &Vec<char>, lo: usize, hi: usize) -> (r: Vec<char>)
    requires
        lo <= hi <= v@.len(),
    ensures
        r@ == v@.subrange(lo as int, hi as int),
{
    let mut r: Vec<char> = Vec::new();
    let mut i = lo;
    while i < hi
        invariant
            lo <= i <= hi <= v@.len(),
            r@ == v@.subrange(lo as int, i as int),
        decreases hi - i,
    {
        r.push(v[i]);
        i = i + 1;
        assert(r@ =~= v@.subrange(lo as int, i as int));
    }
    r
}

/// The identifier that spans column `col` of line `line` (both from 0).
pub fn word_at(source: &Vec<char>, line: usize, col: usize) -> (w: Option<Vec<char>>)
    ensures
        match w {
            Some(v) => word_at_spec(source@, line as int, col as int) == Some(v@),
            None => word_at_spec(source@, line as int, col as int) is None,
        },
{
    let ls = split_lines(source);
    if line >= ls.len() {
        return None;
    }
    let chars = &ls[line];
    assert(chars@ == lines_of(source@)[line as int]);
    if col > chars.len() {
        return None;
    }
    let st = scan_back(chars, col);
    let en = scan_forward(chars, col);
    if st == en {
        return None;
    }
    Some(slice_chars(chars, st, en))
}

/// The identifier at (`line`, `col`) follows a `.`.
pub open spec fn is_field_access_spec(source: Seq<char>, line: int, col: int) -> bool {
    let l = match nth_line(source, line) {
        Some(l) => l,
        None => Seq::empty(),
    };
    let start = ident_back(l, if col < l.len() { col } else { l.len() as int });
    start > 0 && l[start - 1] == '.'
}

/// Whether the identifier at (`line`, `col`) (both from 0) is preceded by a `.`.
pub fn is_field_access_at(source: &Vec<char>, line: usize, col: usize) -> (r: bool)
    ensures
        r == is_field_access_spec(source@, line as int, col as int),
{
    let ls = split_lines(source);
    let empty: Vec<char> = Vec::new();
    let chars = if line < ls.len() {
        &ls[line]
    } else {
        &empty
    };
    assert(chars@ == match nth_line(source@, line as int) {
        Some(l) => l,
        None => Seq::<char>::empty(),
    });
    let c = if col < chars.len() {
        col
    } else {
        chars.len()
    };
    let start = scan_back(chars, c);
    start > 0 && chars[start - 1] == '.'
}

// ─── Whole-text queries ──────────────────────────────────────────────────────

/// The tokens of `s`, or none when it does not lex.
pub open spec fn tokens_or_empty(s: Seq<char>) -> Seq<SpecToken> {
    match lex(s) {
        Ok(ts) => ts,
        Err(_) => Seq::empty(),
    }
}

/// The tokens of the text, or none when it does not lex.
pub fn tokenize_source(source: &str) -> (ts: Vec<Token>)
    requires
        source@.len() < usize::MAX,
    ensures
        tokens_view(ts@) == tokens_or_empty(source@),
{
    let mut lexer = Lexer::new(source);
    match lexer.tokenize() {
        Ok(ts) => ts,
        Err(_) => {
            let v: Vec<Token> = Vec::new();
            assert(tokens_view(v@) =~= Seq::<SpecToken>::empty());
            v
        },
    }
}

/// The program that the text spells, if it lexes and parses.
pub open spec fn program_of(s: Seq<char>) -> Option<crate::ast::SpecProgram> {
    match lex(s) {
        Ok(ts) => match parse_program(ts, 0) {
            Ok(prog) => Some(prog),
            Err(_) => None,
        },
        Err(_) => None,
    }
}

/// The program that the text spells, or `None` where lexing or parsing fails.
pub fn try_parse(source: &str) -> (r: Option<Program>)
    requires
        source@.len() < usize::MAX,
    ensures
        match r {
            Some(p) => program_of(source@) == Some(p@),
            None => program_of(source@) is None,
        },
{
    let mut lexer = Lexer::new(source);
    let tokens = match lexer.tokenize() {
        Ok(ts) => ts,
        Err(_) => {
            return None;
        },
    };
    proof {
        lemma_lex_ends_with_eof(source@, 0);
    }
    let mut parser = Parser::new(tokens);
    match parser.parse() {
        Ok(p) => Some(p),
        Err(_) => None,
    }
}

// ─── Definition sites ────────────────────────────────────────────────────────

/// What a definition site defines.
#[derive(Debug, Clone, Copy, PartialEq, Eq, Structural)]
pub enum SymbolKind {
    Function,
    Struct,
    Field,
    Variable,
    Parameter,
}

impl SymbolKind {
    pub fn as_str(self) -> (s: &'static str)
        ensures
            s@ == kind_text(self),
    {
        match self {
            SymbolKind::Function => "function",
            SymbolKind::Struct => "struct",
            SymbolKind::Field => "field",
            SymbolKind::Variable => "variable",
            SymbolKind::Parameter => "parameter",
        }
    }
}

pub open spec fn kind_text(k: SymbolKind) -> Seq<char> {
    match k {
        SymbolKind::Function => "function"@,
        SymbolKind::Struct => "struct"@,
        SymbolKind::Field => "field"@,
        SymbolKind::Variable => "variable"@,
        SymbolKind::Parameter => "parameter"@,
    }
}

/// A definition site: the name, what it defines, where it stands (line and column from 0)
/// and, for a field, the struct that owns it.
#[derive(Debug)]
pub struct SymbolDef {
    pub name: String,
    pub kind: SymbolKind,
    pub line: usize,
    pub col: usize,
    pub parent: Option<String>,
}

pub struct SpecSymbolDef {
    pub name: Seq<char>,
    pub kind: SymbolKind,
    pub line: int,
    pub col: int,
    pub parent: Option<Seq<char>>,
}

impl View for SymbolDef {
    type V = SpecSymbolDef;

    open spec fn view(&self) -> SpecSymbolDef {
        SpecSymbolDef {
            name: self.name@,
            kind: self.kind,
            line: self.line as int,
            col: self.col as int,
            parent: match self.parent {
                Some(p) => Some(p@),
                None => None,
            },
        }
    }
}

pub open spec fn defs_view(v: Seq<SymbolDef>) -> Seq<SpecSymbolDef> {
    v.map_values(|d: SymbolDef| d@)
}

/// The definition that token `t` names.
pub open spec fn def_of(t: SpecToken, kind: SymbolKind, parent: Option<Seq<char>>) -> SpecSymbolDef {
    SpecSymbolDef { name: t.value, kind, line: t.line - 1, col: t.col - 1, parent }
}

/// The `name :` pairs from index `j` up to the closing token `close`.
pub open spec fn member_defs(
    ts: Seq<SpecToken>,
    j: int,
    close: TokenType,
    kind: SymbolKind,
    parent: Option<Seq<char>>,
) -> Seq<SpecSymbolDef>
    decreases ts.len() - j,
{
    if 0 <= j < ts.len() && ts[j].ty != close {
        (if ts[j].ty == TokenType::Identifier && j + 1 < ts.len() && ts[j + 1].ty
            == TokenType::Colon {
            seq![def_of(ts[j], kind, parent)]
        } else {
            Seq::empty()
        }) + member_defs(ts, j + 1, close, kind, parent)
    } else {
        Seq::empty()
    }
}

/// The definitions that token `i` introduces: `fn NAME(params)`, `struct NAME { fields }`,
/// `let [mut] NAME`, `for NAME`.
pub open spec fn defs_at(ts: Seq<SpecToken>, i: int) -> Seq<SpecSymbolDef> {
    let len = ts.len();
    if ts[i].ty == TokenType::Fn {
        if i + 1 < len && ts[i + 1].ty == TokenType::Identifier {
            seq![def_of(ts[i + 1], SymbolKind::Function, None)] + if i + 2 < len && ts[i + 2].ty
                == TokenType::LParen {
                member_defs(ts, i + 3, TokenType::RParen, SymbolKind::Parameter, None)
            } else {
                Seq::empty()
            }
        } else {
            Seq::empty()
        }
    } else if ts[i].ty == TokenType::Struct {
        if i + 1 < len && ts[i + 1].ty == TokenType::Identifier {
            seq![def_of(ts[i + 1], SymbolKind::Struct, None)] + if i + 2 < len && ts[i + 2].ty
                == TokenType::LBrace {
                member_defs(ts, i + 3, TokenType::RBrace, SymbolKind::Field, Some(ts[i + 1].value))
            } else {
                Seq::empty()
            }
        } else {
            Seq::empty()
        }
    } else if ts[i].ty == TokenType::Let {
        let j = if i + 1 < len && ts[i + 1].ty == TokenType::Mut {
            i + 2
        } else {
            i + 1
        };
        if j < len && ts[j].ty == TokenType::Identifier {
            seq![def_of(ts[j], SymbolKind::Variable, None)]
        } else {
            Seq::empty()
        }
    } else if ts[i].ty == TokenType::For {
        if i + 1 < len && ts[i + 1].ty == TokenType::Identifier {
            seq![def_of(ts[i + 1], SymbolKind::Variable, None)]
        } else {
            Seq::empty()
        }
    } else {
        Seq::empty()
    }
}

pub open spec fn defs_from(ts: Seq<SpecToken>, i: int) -> Seq<SpecSymbolDef>
    decreases ts.len() - i,
{
    if 0 <= i < ts.len() {
        defs_at(ts, i) + defs_from(ts, i + 1)
    } else {
        Seq::empty()
    }
}

/// Every definition site in the tokens, in token order.
pub open spec fn definitions(ts: Seq<SpecToken>) -> Seq<SpecSymbolDef> {
    defs_from(ts, 0)
}

/// A copy of an optional name.
fn clone_name(o: &Option<String>) -> (r: Option<String>)
    ensures
        opt_name_view(r) == opt_name_view(*o),
{
    match o {
        Some(s) => Some(s.clone()),
        None => None,
    }
}

/// Records the definition that the token at `j` names.
fn push_def(
    tokens: &Vec<Token>,
    j: usize,
    kind: SymbolKind,
    parent: Option<String>,
    out: &mut Vec<SymbolDef>,
)
    requires
        j < tokens@.len(),
        tokens_positioned(tokens_view(tokens@)),
    ensures
        defs_view(final(out)@) == defs_view(old(out)@).push(
            def_of(
                tokens_view(tokens@)[j as int],
                kind,
                opt_name_view(parent),
            ),
        ),
{
    let t = &tokens[j];
    assert(tokens_view(tokens@)[j as int] == t@);
    let d = SymbolDef {
        name: t.value.clone(),
        kind,
        line: t.line - 1,
        col: t.col - 1,
        parent,
    };
    let ghost before = out@;
    out.push(d);
    assert(defs_view(out@) =~= defs_view(before).push(d@));
}

/// Records the `name :` pairs from `j` up to the closing token `close`.
fn push_members(
    tokens: &Vec<Token>,
    j: usize,
    close: TokenType,
    kind: SymbolKind,
    parent: &Option<String>,
    out: &mut Vec<SymbolDef>,
)
    requires
        tokens_positioned(tokens_view(tokens@)),
    ensures
        defs_view(final(out)@) == defs_view(old(out)@) + member_defs(
            tokens_view(tokens@),
            j as int,
            close,
            kind,
            opt_name_view(*parent),
        ),
{
    let ghost ts = tokens_view(tokens@);
    let ghost pv = opt_name_view(*parent);
    let len = tokens.len();
    let mut k = j;
    assert(defs_view(out@) + member_defs(ts, j as int, close, kind, pv) =~= defs_view(old(out)@)
        + member_defs(ts, j as int, close, kind, pv));
    while k < len && tokens[k].ty != close
        invariant
            len == tokens@.len(),
            ts == tokens_view(tokens@),
            pv == opt_name_view(*parent),
            tokens_positioned(ts),
            j <= k,
            defs_view(out@) + member_defs(ts, k as int, close, kind, pv) == defs_view(old(out)@)
                + member_defs(ts, j as int, close, kind, pv),
        decreases len - k,
    {
        assert(ts[k as int] == tokens@[k as int]@);
        let ghost before = defs_view(out@);
        if tokens[k].ty == TokenType::Identifier && k + 1 < len && tokens[k + 1].ty
            == TokenType::Colon {
            assert(ts[k + 1] == tokens@[k + 1]@);
            let pc = clone_name(parent);
            assert(opt_name_view(pc) == pv);
            push_def(tokens, k, kind, pc, out);
            assert(defs_view(out@) == before.push(def_of(ts[k as int], kind, pv)));
            assert(member_defs(ts, k as int, close, kind, pv) == seq![def_of(ts[k as int], kind, pv)] + member_defs(ts, k + 1, close, kind, pv));
            assert(before + member_defs(ts, k as int, close, kind, pv) =~= defs_view(out@)
                + member_defs(ts, k + 1, close, kind, pv));
        } else {
            assert(before + member_defs(ts, k as int, close, kind, pv) =~= defs_view(out@)
                + member_defs(ts, k + 1, close, kind, pv));
        }
        k = k + 1;
    }
    if k < len {
        assert(ts[k as int] == tokens@[k as int]@);
    }
    assert(defs_view(out@) + member_defs(ts, k as int, close, kind, pv) =~= defs_view(out@));
}

/// Walks the tokens and collects every definition site, in token order.
pub fn collect_definitions(tokens: &Vec<Token>) -> (defs: Vec<SymbolDef>)
    requires
        tokens_positioned(tokens_view(tokens@)),
    ensures
        defs_view(defs@) == definitions(tokens_view(tokens@)),
{
    let ghost ts = tokens_view(tokens@);
    let len = tokens.len();
    let mut defs: Vec<SymbolDef> = Vec::new();
    let mut i: usize = 0;
    assert(defs_view(defs@) =~= Seq::<SpecSymbolDef>::empty());
    while i < len
        invariant
            len == tokens@.len(),
            ts == tokens_view(tokens@),
            tokens_positioned(ts),
            i <= len,
            defs_view(defs@) + defs_from(ts, i as int) == definitions(ts),
        decreases len - i,
    {
        let ghost before = defs_view(defs@);
        assert(ts[i as int] == tokens@[i as int]@);
        if i + 1 < len {
            assert(ts[i + 1] == tokens@[i + 1]@);
        }
        let has_third = len >= 2 && i < len - 2;
        if has_third {
            assert(ts[i + 2] == tokens@[i + 2]@);
        }
        match tokens[i].ty {
            TokenType::Fn => {
                if i + 1 < len && tokens[i + 1].ty == TokenType::Identifier {
                    push_def(tokens, i + 1, SymbolKind::Function, None, &mut defs);
                    if has_third && tokens[i + 2].ty == TokenType::LParen {
                        push_members(
                            tokens,
                            i + 3,
                            TokenType::RParen,
                            SymbolKind::Parameter,
                            &None,
                            &mut defs,
                        );
                    }
                }
            },
            TokenType::Struct => {
                if i + 1 < len && tokens[i + 1].ty == TokenType::Identifier {
                    let struct_name = tokens[i + 1].value.clone();
                    push_def(tokens, i + 1, SymbolKind::Struct, None, &mut defs);
                    if has_third && tokens[i + 2].ty == TokenType::LBrace {
                        push_members(
                            tokens,
                            i + 3,
                            TokenType::RBrace,
                            SymbolKind::Field,
                            &Some(struct_name),
                            &mut defs,
                        );
                    }
                }
            },
            TokenType::Let => {
                let mut j = i + 1;
                if j < len && tokens[j].ty == TokenType::Mut {
                    j = j + 1;
                }
                if j < len {
                    assert(ts[j as int] == tokens@[j as int]@);
                }
                if j < len && tokens[j].ty == TokenType::Identifier {
                    push_def(tokens, j, SymbolKind::Variable, None, &mut defs);
                }
            },
            TokenType::For => {
                if i + 1 < len && tokens[i + 1].ty == TokenType::Identifier {
                    push_def(tokens, i + 1, SymbolKind::Variable, None, &mut defs);
                }
            },
            _ => {},
        }
        assert(defs_view(defs@) =~= before + defs_at(ts, i as int));
        assert(before + defs_from(ts, i as int) =~= defs_view(defs@) + defs_from(ts, i + 1));
        i = i + 1;
    }
    assert(defs_view(defs@) + defs_from(ts, i as int) =~= defs_view(defs@));
    defs
}

// ─── Comments above a line ───────────────────────────────────────────────────

/// The end of `s[..j]` without its trailing whitespace.
pub open spec fn trim_end_idx(s: Seq<char>, j: int) -> int
    decreases j,
{
    if 0 < j <= s.len() && char_is_whitespace(s[j - 1]) {
        trim_end_idx(s, j - 1)
    } else {
        j
    }
}

/// `s` without leading and trailing whitespace, as `str::trim` gives it.
pub open spec fn trim(s: Seq<char>) -> Seq<char> {
    let a = crate::lexer::skip_ws(s, 0);
    let b = trim_end_idx(s, s.len() as int);
    if a < b {
        s.subrange(a, b)
    } else {
        Seq::empty()
    }
}

proof fn lemma_trim_end_idx(s: Seq<char>, j: int)
    requires
        0 <= j <= s.len(),
    ensures
        0 <= trim_end_idx(s, j) <= j,
    decreases j,
{
    if 0 < j && char_is_whitespace(s[j - 1]) {
        lemma_trim_end_idx(s, j - 1);
    }
}

proof fn lemma_skip_ws_bounds(s: Seq<char>, p: int)
    requires
        0 <= p <= s.len(),
    ensures
        p <= crate::lexer::skip_ws(s, p) <= s.len(),
    decreases s.len() - p,
{
    if p < s.len() && char_is_whitespace(s[p]) {
        lemma_skip_ws_bounds(s, p + 1);
    }
}

/// The characters of `v` without leading and trailing whitespace.
pub fn trim_chars(v: &Vec<char>) -> (r: Vec<char>)
    ensures
        r@ == trim(v@),
{
    let n = v.len();
    let mut a: usize = 0;
    while a < n && is_whitespace(v[a])
        invariant
            a <= n == v@.len(),
            crate::lexer::skip_ws(v@, a as int) == crate::lexer::skip_ws(v@, 0),
        decreases n - a,
    {
        a = a + 1;
    }
    let mut b: usize = n;
    while b > 0 && is_whitespace(v[b - 1])
        invariant
            b <= n == v@.len(),
            trim_end_idx(v@, b as int) == trim_end_idx(v@, n as int),
        decreases b,
    {
        b = b - 1;
    }
    if a < b {
        slice_chars(v, a, b)
    } else {
        Vec::new()
    }
}

/// A line whose text, trimmed, starts with `//`.
pub open spec fn is_comment_line(l: Seq<char>) -> bool {
    let t = trim(l);
    t.len() >= 2 && t[0] == '/' && t[1] == '/'
}

/// The text of a comment line: what follows `//`, trimmed.
pub open spec fn comment_text(l: Seq<char>) -> Seq<char> {
    trim(trim(l).skip(2))
}

/// The first of the comment lines that end just above line `i`.
pub open spec fn comment_run_start(ls: Seq<Seq<char>>, i: int) -> int
    decreases i,
{
    if 0 < i <= ls.len() && is_comment_line(ls[i - 1]) {
        comment_run_start(ls, i - 1)
    } else {
        i
    }
}

/// The texts of comment lines `k..e`, joined by newlines.
pub open spec fn join_comments(ls: Seq<Seq<char>>, k: int, e: int) -> Seq<char>
    decreases e - k,
{
    if e <= k {
        Seq::empty()
    } else if e == k + 1 {
        comment_text(ls[k])
    } else {
        join_comments(ls, k, e - 1) + "\n"@ + comment_text(ls[e - 1])
    }
}

/// The `//` comment lines just above line `line` (from 0), joined by newlines.
pub open spec fn doc_comment_spec(source: Seq<char>, line: int) -> Option<Seq<char>> {
    let ls = lines_of(source);
    if line > 0 && line - 1 >= ls.len() {
        None
    } else {
        let k = comment_run_start(ls, line);
        if k == line {
            None
        } else {
            Some(join_comments(ls, k, line))
        }
    }
}

proof fn lemma_comment_run_start(ls: Seq<Seq<char>>, i: int)
    requires
        0 <= i,
    ensures
        0 <= comment_run_start(ls, i) <= i,
        forall|j: int| comment_run_start(ls, i) <= j < i ==> is_comment_line(#[trigger] ls[j]),
    decreases i,
{
    if 0 < i <= ls.len() && is_comment_line(ls[i - 1]) {
        lemma_comment_run_start(ls, i - 1);
    }
}

/// Whether the trimmed text starts with `//`.
fn comment_body(l: &Vec<char>) -> (r: Option<Vec<char>>)
    ensures
        r matches Some(b) ==> is_comment_line(l@) && b@ == comment_text(l@),
        r is None ==> !is_comment_line(l@),
{
    let t = trim_chars(l);
    if t.len() >= 2 && t[0] == '/' && t[1] == '/' {
        let rest = slice_chars(&t, 2, t.len());
        assert(rest@ =~= t@.skip(2));
        Some(trim_chars(&rest))
    } else {
        None
    }
}

/// The `//` comment lines just above line `line` (from 0), joined by newlines.
pub fn doc_comment_above(source: &Vec<char>, line: usize) -> (r: Option<Vec<char>>)
    ensures
        match r {
            Some(v) => doc_comment_spec(source@, line as int) == Some(v@),
            None => doc_comment_spec(source@, line as int) is None,
        },
{
    let ls = split_lines(source);
    let ghost lv = nested_view(ls@);
    if line > 0 && line - 1 >= ls.len() {
        return None;
    }
    let mut k = line;
    while k > 0 && k <= ls.len() && comment_body(&ls[k - 1]).is_some()
        invariant
            k <= line,
            lv == nested_view(ls@),
            lv == lines_of(source@),
            comment_run_start(lv, k as int) == comment_run_start(lv, line as int),
        decreases k,
    {
        assert(ls@[k - 1]@ == lv[k - 1]);
        k = k - 1;
    }
    if k > 0 && k <= ls.len() {
        assert(ls@[k - 1]@ == lv[k - 1]);
    }
    if k == line {
        return None;
    }
    proof {
        lemma_comment_run_start(lv, line as int);
    }
    let mut out: Vec<char> = Vec::new();
    let mut j = k;
    while j < line
        invariant
            k <= j <= line,
            k < line,
            line <= ls@.len(),
            lv == nested_view(ls@),
            comment_run_start(lv, line as int) == k,
            forall|m: int| k <= m < line ==> is_comment_line(#[trigger] lv[m]),
            out@ == join_comments(lv, k as int, j as int),
        decreases line - j,
    {
        assert(ls@[j as int]@ == lv[j as int]);
        assert(is_comment_line(lv[j as int]));
        let body = match comment_body(&ls[j]) {
            Some(b) => b,
            None => {
                return None;
            },
        };
        if j > k {
            out.push('\n');
        }
        let mut q: usize = 0;
        let ghost prefix = out@;
        while q < body.len()
            invariant
                q <= body@.len(),
                out@ == prefix + body@.subrange(0, q as int),
            decreases body@.len() - q,
        {
            out.push(body[q]);
            q = q + 1;
            assert(out@ =~= prefix + body@.subrange(0, q as int));
        }
        assert(body@.subrange(0, body@.len() as int) =~= body@);
        proof {
            if j > k {
                assert(prefix =~= join_comments(lv, k as int, j as int) + "\n"@) by {
                    reveal_strlit("\n");
                }
            } else {
                assert(prefix =~= Seq::<char>::empty());
            }
        }
        j = j + 1;
        assert(out@ =~= join_comments(lv, k as int, j as int));
    }
    Some(out)
}

// ─── Hover ───────────────────────────────────────────────────────────────────

/// The first built-in at or after index `i` named `w`.
pub open spec fn find_builtin(t: Seq<SpecBuiltin>, w: Seq<char>, i: int) -> Option<SpecBuiltin>
    decreases t.len() - i,
{
    if 0 <= i < t.len() {
        if t[i].name == w {
            Some(t[i])
        } else {
            find_builtin(t, w, i + 1)
        }
    } else {
        None
    }
}

/// The documentation of the first keyword at or after index `i` spelled `w`.
pub open spec fn find_keyword(t: Seq<(Seq<char>, Seq<char>)>, w: Seq<char>, i: int) -> Option<
    Seq<char>,
>
    decreases t.len() - i,
{
    if 0 <= i < t.len() {
        if t[i].0 == w {
            Some(t[i].1)
        } else {
            find_keyword(t, w, i + 1)
        }
    } else {
        None
    }
}

/// The texts `xs` joined by `sep`.
pub open spec fn join(xs: Seq<Seq<char>>, sep: Seq<char>) -> Seq<char>
    decreases xs.len(),
{
    if xs.len() == 0 {
        Seq::empty()
    } else if xs.len() == 1 {
        xs[0]
    } else {
        join(xs.drop_last(), sep) + sep + xs.last()
    }
}

/// `name: type`
pub open spec fn param_text(p: SpecParam) -> Seq<char> {
    p.name + ": "@ + type_text(p.ty)
}

/// A function's signature as Vyrn writes it, e.g. `gen fn f(a: i32) -> i64`.
pub open spec fn fn_signature(f: SpecFnDecl) -> Seq<char> {
    (if f.is_gen {
        "gen "@
    } else {
        Seq::empty()
    }) + "fn "@ + f.name + "("@ + join(f.params.map_values(|p: SpecParam| param_text(p)), ", "@)
        + ")"@ + if f.ret_ty == SpecType::Void {
        Seq::empty()
    } else {
        " -> "@ + type_text(f.ret_ty)
    }
}

/// A struct field as its hover shows it: `    name: type`.
pub open spec fn field_line(f: (Seq<char>, SpecType)) -> Seq<char> {
    "    "@ + f.0 + ": "@ + type_text(f.1)
}

/// The first declaration at or after index `i` of a function or struct named `w`.
pub open spec fn find_decl(ds: Seq<SpecDecl>, w: Seq<char>, i: int) -> Option<SpecDecl>
    decreases ds.len() - i,
{
    if 0 <= i < ds.len() {
        match ds[i] {
            SpecDecl::Fn(f) => if f.name == w {
                Some(ds[i])
            } else {
                find_decl(ds, w, i + 1)
            },
            SpecDecl::Struct(sd) => if sd.name == w {
                Some(ds[i])
            } else {
                find_decl(ds, w, i + 1)
            },
        }
    } else {
        None
    }
}

/// The line of the first definition at or after index `i` named `w` of kind `k`.
pub open spec fn first_def_line(ds: Seq<SpecSymbolDef>, w: Seq<char>, k: SymbolKind, i: int) -> Option<
    int,
>
    decreases ds.len() - i,
{
    if 0 <= i < ds.len() {
        if ds[i].name == w && ds[i].kind == k {
            Some(ds[i].line)
        } else {
            first_def_line(ds, w, k, i + 1)
        }
    } else {
        None
    }
}

/// A local (variable or parameter) definition.
pub open spec fn is_local(d: SpecSymbolDef) -> bool {
    d.kind == SymbolKind::Variable || d.kind == SymbolKind::Parameter
}

/// The last local definition among the first `n` named `w` on a line up to `cursor_line`.
pub open spec fn last_local_before(ds: Seq<SpecSymbolDef>, w: Seq<char>, cursor_line: int, n: int) -> Option<
    SpecSymbolDef,
>
    decreases n,
{
    if n <= 0 || n > ds.len() {
        None
    } else {
        let d = ds[n - 1];
        if d.name == w && is_local(d) && d.line <= cursor_line {
            Some(d)
        } else {
            last_local_before(ds, w, cursor_line, n - 1)
        }
    }
}

/// What follows a hover's code block: the doc comment, if there is one.
pub open spec fn doc_suffix(doc: Option<Seq<char>>) -> Seq<char> {
    match doc {
        Some(d) => "\n\n"@ + d,
        None => Seq::empty(),
    }
}

/// The doc comment above the first definition named `w` of kind `k`.
pub open spec fn decl_doc(source: Seq<char>, ds: Seq<SpecSymbolDef>, w: Seq<char>, k: SymbolKind) -> Option<
    Seq<char>,
> {
    match first_def_line(ds, w, k, 0) {
        Some(l) => doc_comment_spec(source, l),
        None => None,
    }
}

/// The hover text for a declaration.
pub open spec fn decl_hover(source: Seq<char>, ds: Seq<SpecSymbolDef>, d: SpecDecl) -> Seq<char> {
    match d {
        SpecDecl::Fn(f) => "```vyrn\n"@ + fn_signature(f) + "\n```"@ + doc_suffix(
            decl_doc(source, ds, f.name, SymbolKind::Function),
        ),
        SpecDecl::Struct(sd) => "```vyrn\nstruct "@ + sd.name + " {\n"@ + join(
            sd.fields.map_values(|f: (Seq<char>, SpecType)| field_line(f)),
            ",\n"@,
        ) + "\n}\n```"@ + doc_suffix(decl_doc(source, ds, sd.name, SymbolKind::Struct)),
    }
}

/// The hover text for a variable or parameter: its declaring line.
pub open spec fn local_hover(source: Seq<char>, d: SpecSymbolDef) -> Option<Seq<char>> {
    match nth_line(source, d.line) {
        Some(l) => Some(
            "*("@ + (if d.kind == SymbolKind::Parameter {
                "parameter"@
            } else {
                "variable"@
            }) + ")* \n```vyrn\n"@ + trim(l) + "\n```"@,
        ),
        None => None,
    }
}

/// The hover for `word` in `source` with the cursor on line `cursor_line`: a built-in,
/// a keyword, a declared function or struct, or a variable or parameter declared above.
pub open spec fn hover_spec(word: Seq<char>, source: Seq<char>, cursor_line: int) -> Option<Seq<char>> {
    match find_builtin(builtin_table(), word, 0) {
        Some(b) => Some("```vyrn\n"@ + b.sig + "\n```\n\n"@ + b.doc),
        None => match find_keyword(keyword_table(), word, 0) {
            Some(doc) => Some("**"@ + word + "** *(keyword)*\n\n"@ + doc),
            None => {
                let ds = definitions(tokens_or_empty(source));
                let found = match program_of(source) {
                    Some(prog) => find_decl(prog.decls, word, 0),
                    None => None,
                };
                match found {
                    Some(d) => Some(decl_hover(source, ds, d)),
                    None => match last_local_before(ds, word, cursor_line, ds.len() as int) {
                        Some(d) => local_hover(source, d),
                        None => None,
                    },
                }
            },
        }
    }
}

/// Appends the characters of `v`.
pub fn push_chars(s: &mut String, v: &Vec<char>)
    ensures
        final(s)@ == old(s)@ + v@,
{
    let mut i: usize = 0;
    while i < v.len()
        invariant
            i <= v@.len(),
            s@ == old(s)@ + v@.subrange(0, i as int),
        decreases v@.len() - i,
    {
        s.push(v[i]);
        i = i + 1;
        assert(s@ =~= old(s)@ + v@.subrange(0, i as int));
    }
    assert(v@.subrange(0, v@.len() as int) =~= v@);
}

proof fn lemma_join_step(xs: Seq<Seq<char>>, sep: Seq<char>, i: int)
    requires
        0 <= i < xs.len(),
    ensures
        join(xs.take(i + 1), sep) == if i == 0 {
            xs[0]
        } else {
            join(xs.take(i), sep) + sep + xs[i]
        },
{
    assert(xs.take(i + 1).drop_last() =~= xs.take(i));
}

/// `name: type, ...` for the parameters.
fn params_text(ps: &Vec<Param>) -> (s: String)
    ensures
        s@ == join(params_view(ps@).map_values(|p: SpecParam| param_text(p)), ", "@),
{
    let ghost xs = params_view(ps@).map_values(|p: SpecParam| param_text(p));
    let mut out = String::new();
    let mut i: usize = 0;
    assert(xs.take(0) =~= Seq::<Seq<char>>::empty());
    while i < ps.len()
        invariant
            i <= ps@.len(),
            xs == params_view(ps@).map_values(|p: SpecParam| param_text(p)),
            out@ == join(xs.take(i as int), ", "@),
        decreases ps@.len() - i,
    {
        proof {
            lemma_join_step(xs, ", "@, i as int);
        }
        let ghost before = out@;
        if i > 0 {
            out.append(", ");
        }
        out.append(ps[i].name.as_str());
        out.append(": ");
        let t = ps[i].ty.to_text();
        out.append(t.as_str());
        assert(xs[i as int] == param_text(ps@[i as int]@));
        proof {
            if i == 0 {
                assert(before =~= Seq::<char>::empty());
            }
        }
        assert(out@ =~= join(xs.take(i + 1), ", "@));
        i = i + 1;
    }
    assert(xs.take(ps@.len() as int) =~= xs);
    out
}

/// The signature of a function as Vyrn writes it.
pub fn fn_signature_text(f: &FnDecl) -> (s: String)
    ensures
        s@ == fn_signature(f@),
{
    let mut out = if f.is_gen {
        String::from_str("gen ")
    } else {
        String::new()
    };
    out.append("fn ");
    out.append(f.name.as_str());
    out.append("(");
    let ps = params_text(&f.params);
    out.append(ps.as_str());
    out.append(")");
    if !f.ret_ty.is_void() {
        out.append(" -> ");
        let t = f.ret_ty.to_text();
        out.append(t.as_str());
    }
    proof {
        if !f.is_gen {
            assert(out@.subrange(0, 0) =~= Seq::<char>::empty());
        }
    }
    assert(out@ =~= fn_signature(f@));
    out
}

/// `    name: type,\n...` for the fields of a struct.
fn fields_text(fs: &Vec<(String, Type)>) -> (s: String)
    ensures
        s@ == join(
            field_decls_view(fs@).map_values(|f: (Seq<char>, SpecType)| field_line(f)),
            ",\n"@,
        ),
{
    let ghost xs = field_decls_view(fs@).map_values(|f: (Seq<char>, SpecType)| field_line(f));
    let mut out = String::new();
    let mut i: usize = 0;
    assert(xs.take(0) =~= Seq::<Seq<char>>::empty());
    while i < fs.len()
        invariant
            i <= fs@.len(),
            xs == field_decls_view(fs@).map_values(|f: (Seq<char>, SpecType)| field_line(f)),
            out@ == join(xs.take(i as int), ",\n"@),
        decreases fs@.len() - i,
    {
        proof {
            lemma_join_step(xs, ",\n"@, i as int);
        }
        let ghost before = out@;
        if i > 0 {
            out.append(",\n");
        }
        out.append("    ");
        out.append(fs[i].0.as_str());
        out.append(": ");
        let t = fs[i].1.to_text();
        out.append(t.as_str());
        assert(xs[i as int] == field_line((fs@[i as int].0@, fs@[i as int].1@)));
        proof {
            if i == 0 {
                assert(before =~= Seq::<char>::empty());
            }
        }
        assert(out@ =~= join(xs.take(i + 1), ",\n"@));
        i = i + 1;
    }
    assert(xs.take(fs@.len() as int) =~= xs);
    out
}

/// The line of the first definition named `w` of kind `k`.
fn find_def_line(defs: &Vec<SymbolDef>, w: &str, k: SymbolKind) -> (r: Option<usize>)
    ensures
        match r {
            Some(l) => first_def_line(defs_view(defs@), w@, k, 0) == Some(l as int),
            None => first_def_line(defs_view(defs@), w@, k, 0) is None,
        },
{
    let ghost ds = defs_view(defs@);
    let mut i: usize = 0;
    while i < defs.len()
        invariant
            i <= defs@.len(),
            ds == defs_view(defs@),
            first_def_line(ds, w@, k, i as int) == first_def_line(ds, w@, k, 0),
        decreases defs@.len() - i,
    {
        assert(ds[i as int] == defs@[i as int]@);
        if string_is(defs[i].name.as_str(), w) && defs[i].kind == k {
            return Some(defs[i].line);
        }
        i = i + 1;
    }
    None
}

/// The doc comment above the first definition named `w` of kind `k`.
fn decl_doc_text(source: &Vec<char>, defs: &Vec<SymbolDef>, w: &str, k: SymbolKind) -> (r: Option<
    Vec<char>,
>)
    ensures
        match r {
            Some(v) => decl_doc(source@, defs_view(defs@), w@, k) == Some(v@),
            None => decl_doc(source@, defs_view(defs@), w@, k) is None,
        },
{
    match find_def_line(defs, w, k) {
        Some(l) => doc_comment_above(source, l),
        None => None,
    }
}

/// Appends the doc comment, if there is one, after a blank line.
fn append_doc(s: &mut String, doc: Option<Vec<char>>)
    ensures
        final(s)@ == old(s)@ + doc_suffix(
            match doc {
                Some(v) => Some(v@),
                None => None,
            },
        ),
{
    match doc {
        Some(d) => {
            s.append("\n\n");
            push_chars(s, &d);
        },
        None => {
            assert(old(s)@ + Seq::<char>::empty() =~= old(s)@);
        },
    }
}

/// The hover for a declaration.
fn decl_hover_text(source: &Vec<char>, defs: &Vec<SymbolDef>, d: &Decl) -> (s: String)
    ensures
        s@ == decl_hover(source@, defs_view(defs@), d@),
{
    match d {
        Decl::Fn(f) => {
            let mut out = String::from_str("```vyrn\n");
            let sig = fn_signature_text(f);
            out.append(sig.as_str());
            out.append("\n```");
            let doc = decl_doc_text(source, defs, f.name.as_str(), SymbolKind::Function);
            append_doc(&mut out, doc);
            out
        },
        Decl::Struct(sd) => {
            let mut out = String::from_str("```vyrn\nstruct ");
            out.append(sd.name.as_str());
            out.append(" {\n");
            let fields = fields_text(&sd.fields);
            out.append(fields.as_str());
            out.append("\n}\n```");
            let doc = decl_doc_text(source, defs, sd.name.as_str(), SymbolKind::Struct);
            append_doc(&mut out, doc);
            out
        },
    }
}

/// The hover of a built-in function named `word`.
fn builtin_hover(word: &str) -> (r: Option<String>)
    ensures
        match r {
            Some(h) => match find_builtin(builtin_table(), word@, 0) {
                Some(b) => h@ == "```vyrn\n"@ + b.sig + "\n```\n\n"@ + b.doc,
                None => false,
            },
            None => find_builtin(builtin_table(), word@, 0) is None,
        },
{
    let bs = builtins();
    let mut i: usize = 0;
    while i < bs.len()
        invariant
            i <= bs@.len(),
            builtins_view(bs@) == builtin_table(),
            find_builtin(builtin_table(), word@, i as int) == find_builtin(
                builtin_table(),
                word@,
                0,
            ),
        decreases bs@.len() - i,
    {
        assert(builtin_table()[i as int] == bs@[i as int]@);
        if string_is(bs[i].name, word) {
            let mut out = String::from_str("```vyrn\n");
            out.append(bs[i].sig);
            out.append("\n```\n\n");
            out.append(bs[i].doc);
            return Some(out);
        }
        i = i + 1;
    }
    None
}

/// The hover of a keyword `word`.
fn keyword_hover(word: &str) -> (r: Option<String>)
    ensures
        match r {
            Some(h) => match find_keyword(keyword_table(), word@, 0) {
                Some(doc) => h@ == "**"@ + word@ + "** *(keyword)*\n\n"@ + doc,
                None => false,
            },
            None => find_keyword(keyword_table(), word@, 0) is None,
        },
{
    let ks = keyword_docs();
    let mut i: usize = 0;
    while i < ks.len()
        invariant
            i <= ks@.len(),
            keywords_view(ks@) == keyword_table(),
            find_keyword(keyword_table(), word@, i as int) == find_keyword(
                keyword_table(),
                word@,
                0,
            ),
        decreases ks@.len() - i,
    {
        assert(keyword_table()[i as int] == (ks@[i as int].0@, ks@[i as int].1@));
        if string_is(ks[i].0, word) {
            let mut out = String::from_str("**");
            out.append(word);
            out.append("** *(keyword)*\n\n");
            out.append(ks[i].1);
            return Some(out);
        }
        i = i + 1;
    }
    None
}

/// The index of the first function or struct named `word` among the declarations.
fn find_decl_index(decls: &Vec<Decl>, word: &str) -> (r: Option<usize>)
    ensures
        match r {
            Some(j) => j < decls@.len() && find_decl(decls_view(decls@), word@, 0) == Some(
                decls@[j as int]@,
            ),
            None => find_decl(decls_view(decls@), word@, 0) is None,
        },
{
    let ghost ds = decls_view(decls@);
    let mut j: usize = 0;
    while j < decls.len()
        invariant
            j <= decls@.len(),
            ds == decls_view(decls@),
            find_decl(ds, word@, j as int) == find_decl(ds, word@, 0),
        decreases decls@.len() - j,
    {
        assert(ds[j as int] == decls@[j as int]@);
        let hit = match &decls[j] {
            Decl::Fn(f) => string_is(f.name.as_str(), word),
            Decl::Struct(sd) => string_is(sd.name.as_str(), word),
        };
        if hit {
            return Some(j);
        }
        j = j + 1;
    }
    None
}

/// The hover of a variable or parameter: its declaring line, trimmed.
fn local_hover_text(source: &Vec<char>, d: &SymbolDef) -> (r: Option<String>)
    ensures
        match r {
            Some(h) => local_hover(source@, d@) == Some(h@),
            None => local_hover(source@, d@) is None,
        },
{
    let ls = split_lines(source);
    if d.line >= ls.len() {
        return None;
    }
    assert(ls@[d.line as int]@ == lines_of(source@)[d.line as int]);
    let t = trim_chars(&ls[d.line]);
    let mut out = String::from_str("*(");
    if d.kind == SymbolKind::Parameter {
        out.append("parameter");
    } else {
        out.append("variable");
    }
    out.append(")* \n```vyrn\n");
    push_chars(&mut out, &t);
    out.append("\n```");
    Some(out)
}

/// The last variable or parameter named `word` declared on a line up to `cursor_line`.
fn find_local_before(defs: &Vec<SymbolDef>, word: &str, cursor_line: usize) -> (r: Option<usize>)
    ensures
        match r {
            Some(k) => k < defs@.len() && last_local_before(
                defs_view(defs@),
                word@,
                cursor_line as int,
                defs@.len() as int,
            ) == Some(defs@[k as int]@),
            None => last_local_before(
                defs_view(defs@),
                word@,
                cursor_line as int,
                defs@.len() as int,
            ) is None,
        },
{
    let ghost ds = defs_view(defs@);
    let mut n = defs.len();
    while n > 0
        invariant
            n <= defs@.len(),
            ds == defs_view(defs@),
            last_local_before(ds, word@, cursor_line as int, n as int) == last_local_before(
                ds,
                word@,
                cursor_line as int,
                defs@.len() as int,
            ),
        decreases n,
    {
        let d = &defs[n - 1];
        assert(ds[n - 1] == d@);
        if string_is(d.name.as_str(), word) && (d.kind == SymbolKind::Variable || d.kind
            == SymbolKind::Parameter) && d.line <= cursor_line {
            return Some(n - 1);
        }
        n = n - 1;
    }
    None
}

/// The hover for `word` with the cursor on line `cursor_line` (from 0): a built-in, a
/// keyword, a function or struct of the file, or a variable or parameter declared above.
pub fn hover_for_word(word: &str, source: &str, cursor_line: usize) -> (r: Option<String>)
    requires
        source@.len() < usize::MAX,
    ensures
        match r {
            Some(h) => hover_spec(word@, source@, cursor_line as int) == Some(h@),
            None => hover_spec(word@, source@, cursor_line as int) is None,
        },
{
    let b = builtin_hover(word);
    if b.is_some() {
        return b;
    }
    let k = keyword_hover(word);
    if k.is_some() {
        return k;
    }
    let chars = chars_of(source);
    let tokens = tokenize_source(source);
    proof {
        lemma_lex_positions(source@, 0);
    }
    let defs = collect_definitions(&tokens);
    match try_parse(source) {
        Some(prog) => {
            match find_decl_index(&prog.decls, word) {
                Some(j) => {
                    return Some(decl_hover_text(&chars, &defs, &prog.decls[j]));
                },
                None => {},
            }
        },
        None => {},
    }
    match find_local_before(&defs, word, cursor_line) {
        Some(n) => local_hover_text(&chars, &defs[n]),
        None => None,
    }
}

} // verus!
