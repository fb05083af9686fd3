use vstd::prelude::*;

use crate::ast::{Decl, Program, SpecDecl, decls_view};
use crate::docs::{SpecBuiltin, builtin_table, builtins, builtins_view, keyword_docs, keyword_table, keywords_view};
use crate::lexer::{Lexer, LexError, lemma_lex_ends_with_eof, lex};
use crate::lsp::{
    lemma_line_end_bounds, lines_from, lines_of, strip_cr,
    SpecSymbolDef, SymbolDef, SymbolKind, collect_definitions, defs_view, definitions,
    fn_signature, fn_signature_text, is_field_access_at, is_field_access_spec, program_of,
    tokenize_source, tokens_or_empty, try_parse, word_at, word_at_spec,
};
use crate::lexer::{lemma_lex_positions, line_end, tokens_positioned};
use crate::text::{chars_of, decimal, push_decimal, string_from_chars, string_is};
use crate::token::{SpecToken, Token, TokenType, tokens_view};
use vstd::utf8::encode_utf8;
use crate::parser::{ParseError, Parser, parse_program};

verus! {

// ─── Diagnostics ─────────────────────────────────────────────────────────────

/// An error shown on one line of a document: columns `character` up to `end_character`
/// (numbered from 0) of line `line` (numbered from 0).
pub struct Diagnostic {
    pub line: usize,
    pub character: usize,
    pub end_character: usize,
    pub message: String,
}

pub struct SpecDiagnostic {
    pub line: int,
    pub character: int,
    pub end_character: int,
    pub message: Seq<char>,
}

impl View for Diagnostic {
    type V = SpecDiagnostic;

    open spec fn view(&self) -> SpecDiagnostic {
        SpecDiagnostic {
            line: self.line as int,
            character: self.character as int,
            end_character: self.end_character as int,
            message: self.message@,
        }
    }
}

pub open spec fn diagnostics_view(v: Seq<Diagnostic>) -> Seq<SpecDiagnostic> {
    v.map_values(|d: Diagnostic| d@)
}

/// A position numbered from 1 turned into one numbered from 0 (0 stays 0).
pub open spec fn from_one(x: int) -> int {
    if x > 0 {
        x - 1
    } else {
        0
    }
}

/// `a + b`, or the largest `usize` where the sum does not fit.
pub open spec fn capped_sum(a: int, b: int) -> int {
    if a + b <= usize::MAX {
        a + b
    } else {
        usize::MAX as int
    }
}

/// The diagnostics of a text: the lexical error, which marks one column, or else the
/// syntax error, which marks thirty; none for a text that lexes and parses.
pub open spec fn diagnostics_spec(s: Seq<char>) -> Seq<SpecDiagnostic> {
    match lex(s) {
        Err(e) => seq![
            SpecDiagnostic {
                line: from_one(e.line),
                character: from_one(e.col),
                end_character: from_one(e.col) + 1,
                message: e.message,
            },
        ],
        Ok(ts) => match parse_program(ts, 0) {
            Err(e) => seq![
                SpecDiagnostic {
                    line: from_one(e.line),
                    character: from_one(e.col),
                    end_character: capped_sum(from_one(e.col), 30),
                    message: e.message,
                },
            ],
            Ok(_) => Seq::empty(),
        },
    }
}

/// A text has no diagnostics exactly when it lexes and parses.
pub proof fn lemma_no_diagnostics_iff_parses(s: Seq<char>)
    ensures
        diagnostics_spec(s).len() == 0 <==> program_of(s) is Some,
{
}

/// The diagnostics that the editor shows for the text.
pub fn diagnostics(source: &str) -> (ds: Vec<Diagnostic>)
    requires
        source@.len() < usize::MAX,
    ensures
        diagnostics_view(ds@) == diagnostics_spec(source@),
{
    let mut ds: Vec<Diagnostic> = Vec::new();
    let mut lexer = Lexer::new(source);
    match lexer.tokenize() {
        Err(e) => {
            let ch = e.col.saturating_sub(1);
            ds.push(
                Diagnostic {
                    line: e.line.saturating_sub(1),
                    character: ch,
                    end_character: ch + 1,
                    message: e.message,
                },
            );
        },
        Ok(tokens) => {
            proof {
                lemma_lex_ends_with_eof(source@, 0);
            }
            let mut parser = Parser::new(tokens);
            match parser.parse() {
                Err(e) => {
                    let ch = e.col.saturating_sub(1);
                    ds.push(
                        Diagnostic {
                            line: e.line.saturating_sub(1),
                            character: ch,
                            end_character: ch.saturating_add(30),
                            message: e.message,
                        },
                    );
                },
                Ok(_) => {},
            }
        },
    }
    assert(diagnostics_view(ds@) =~= diagnostics_spec(source@));
    ds
}

// ─── Completions ─────────────────────────────────────────────────────────────

/// What a completion offers.
#[derive(Debug, Clone, Copy, PartialEq, Eq, Structural)]
pub enum CompletionKind {
    Keyword,
    Function,
    Struct,
}

impl CompletionKind {
    /// The number of the kind in the Language Server Protocol.
    pub fn code(self) -> (c: u32)
        ensures
            c == completion_code(self),
    {
        match self {
            CompletionKind::Keyword => 14,
            CompletionKind::Function => 3,
            CompletionKind::Struct => 22,
        }
    }
}

pub open spec fn completion_code(k: CompletionKind) -> u32 {
    match k {
        CompletionKind::Keyword => 14,
        CompletionKind::Function => 3,
        CompletionKind::Struct => 22,
    }
}

/// One completion: its label, kind, one-line detail and markdown documentation.
pub struct CompletionItem {
    pub label: String,
    pub kind: CompletionKind,
    pub detail: Option<String>,
    pub documentation: Option<String>,
}

pub struct SpecCompletionItem {
    pub label: Seq<char>,
    pub kind: CompletionKind,
    pub detail: Option<Seq<char>>,
    pub documentation: Option<Seq<char>>,
}

pub open spec fn opt_text(o: Option<String>) -> Option<Seq<char>> {
    match o {
        Some(s) => Some(s@),
        None => None,
    }
}

impl View for CompletionItem {
    type V = SpecCompletionItem;

    open spec fn view(&self) -> SpecCompletionItem {
        SpecCompletionItem {
            label: self.label@,
            kind: self.kind,
            detail: opt_text(self.detail),
            documentation: opt_text(self.documentation),
        }
    }
}

pub open spec fn completions_view(v: Seq<CompletionItem>) -> Seq<SpecCompletionItem> {
    v.map_values(|c: CompletionItem| c@)
}

pub open spec fn keyword_item(k: (Seq<char>, Seq<char>)) -> SpecCompletionItem {
    SpecCompletionItem {
        label: k.0,
        kind: CompletionKind::Keyword,
        detail: None,
        documentation: Some(k.1),
    }
}

pub open spec fn builtin_item(b: SpecBuiltin) -> SpecCompletionItem {
    SpecCompletionItem {
        label: b.name,
        kind: CompletionKind::Function,
        detail: Some(b.sig),
        documentation: Some(b.doc),
    }
}

pub open spec fn decl_item(d: SpecDecl) -> SpecCompletionItem {
    match d {
        SpecDecl::Fn(f) => SpecCompletionItem {
            label: f.name,
            kind: CompletionKind::Function,
            detail: Some(fn_signature(f)),
            documentation: None,
        },
        SpecDecl::Struct(sd) => SpecCompletionItem {
            label: sd.name,
            kind: CompletionKind::Struct,
            detail: Some("struct "@ + sd.name),
            documentation: None,
        },
    }
}

/// The completions for a text: every keyword, every built-in function, then the
/// functions and structs that the text declares, where it lexes and parses.
pub open spec fn completions_spec(s: Seq<char>) -> Seq<SpecCompletionItem> {
    keyword_table().map_values(|k: (Seq<char>, Seq<char>)| keyword_item(k)) + builtin_table().map_values(
        |b: SpecBuiltin| builtin_item(b),
    ) + match program_of(s) {
        Some(prog) => prog.decls.map_values(|d: SpecDecl| decl_item(d)),
        None => Seq::empty(),
    }
}

fn decl_completion(d: &Decl) -> (c: CompletionItem)
    ensures
        c@ == decl_item(d@),
{
    match d {
        Decl::Fn(f) => {
            let sig = fn_signature_text(f);
            CompletionItem {
                label: f.name.clone(),
                kind: CompletionKind::Function,
                detail: Some(sig),
                documentation: None,
            }
        },
        Decl::Struct(sd) => {
            let mut detail = String::from_str("struct ");
            detail.append(sd.name.as_str());
            CompletionItem {
                label: sd.name.clone(),
                kind: CompletionKind::Struct,
                detail: Some(detail),
                documentation: None,
            }
        },
    }
}

/// The completions that the editor offers in the text.
pub fn completion_items(source: &str) -> (items: Vec<CompletionItem>)
    requires
        source@.len() < usize::MAX,
    ensures
        completions_view(items@) == completions_spec(source@),
{
    let mut items: Vec<CompletionItem> = Vec::new();
    let ks = keyword_docs();
    let ghost kt = keyword_table().map_values(|k: (Seq<char>, Seq<char>)| keyword_item(k));
    let mut i: usize = 0;
    while i < ks.len()
        invariant
            i <= ks@.len(),
            keywords_view(ks@) == keyword_table(),
            kt == keyword_table().map_values(|k: (Seq<char>, Seq<char>)| keyword_item(k)),
            completions_view(items@) == kt.take(i as int),
        decreases ks@.len() - i,
    {
        assert(keyword_table()[i as int] == (ks@[i as int].0@, ks@[i as int].1@));
        let c = CompletionItem {
            label: String::from_str(ks[i].0),
            kind: CompletionKind::Keyword,
            detail: None,
            documentation: Some(String::from_str(ks[i].1)),
        };
        assert(c@ == kt[i as int]);
        let ghost before = items@;
        items.push(c);
        assert(completions_view(items@) =~= completions_view(before).push(c@));
        assert(kt.take(i + 1) =~= kt.take(i as int).push(kt[i as int]));
        i = i + 1;
        assert(completions_view(items@) =~= kt.take(i as int));
    }
    assert(kt.take(ks@.len() as int) =~= kt);
    let bs = builtins();
    let ghost bt = builtin_table().map_values(|b: SpecBuiltin| builtin_item(b));
    let mut i: usize = 0;
    while i < bs.len()
        invariant
            i <= bs@.len(),
            builtins_view(bs@) == builtin_table(),
            bt == builtin_table().map_values(|b: SpecBuiltin| builtin_item(b)),
            completions_view(items@) == kt + bt.take(i as int),
        decreases bs@.len() - i,
    {
        assert(builtin_table()[i as int] == bs@[i as int]@);
        let c = CompletionItem {
            label: String::from_str(bs[i].name),
            kind: CompletionKind::Function,
            detail: Some(String::from_str(bs[i].sig)),
            documentation: Some(String::from_str(bs[i].doc)),
        };
        assert(c@ == bt[i as int]);
        let ghost before = items@;
        items.push(c);
        assert(completions_view(items@) =~= completions_view(before).push(c@));
        assert(bt.take(i + 1) =~= bt.take(i as int).push(bt[i as int]));
        i = i + 1;
        assert(completions_view(items@) =~= kt + bt.take(i as int));
    }
    assert(bt.take(bs@.len() as int) =~= bt);
    let ghost head = kt + bt;
    match try_parse(source) {
        Some(prog) => {
            let ghost dt = prog@.decls.map_values(|d: SpecDecl| decl_item(d));
            let mut j: usize = 0;
            while j < prog.decls.len()
                invariant
                    j <= prog.decls@.len(),
                    decls_view(prog.decls@) == prog@.decls,
                    dt == prog@.decls.map_values(|d: SpecDecl| decl_item(d)),
                    completions_view(items@) == head + dt.take(j as int),
                decreases prog.decls@.len() - j,
            {
                assert(prog@.decls[j as int] == prog.decls@[j as int]@);
                let c = decl_completion(&prog.decls[j]);
                let ghost before = items@;
                items.push(c);
                assert(completions_view(items@) =~= completions_view(before).push(c@));
                assert(dt.take(j + 1) =~= dt.take(j as int).push(dt[j as int]));
                j = j + 1;
                assert(completions_view(items@) =~= head + dt.take(j as int));
            }
            assert(dt.take(prog.decls@.len() as int) =~= dt);
        },
        None => {
            assert(head + Seq::<SpecCompletionItem>::empty() =~= head);
        },
    }
    items
}

// ─── The standard-library stub ───────────────────────────────────────────────

/// The first lines of the file that lists the built-in functions.
pub open spec fn stdlib_header() -> Seq<char> {
    "// Vyrn Standard Library — Built-in Functions\n//\n// Auto-generated by vyrn-lsp. Do not edit.\n\n"@
}

/// The three lines of one built-in function: its documentation, a stub, a blank line.
pub open spec fn stdlib_stub(b: SpecBuiltin) -> Seq<char> {
    "// "@ + b.doc + "\nfn "@ + b.name + "(...) {}\n\n"@
}

pub open spec fn stdlib_stubs(t: Seq<SpecBuiltin>) -> Seq<char>
    decreases t.len(),
{
    if t.len() == 0 {
        Seq::empty()
    } else {
        stdlib_stubs(t.drop_last()) + stdlib_stub(t.last())
    }
}

/// The text of the standard-library stub file.
pub open spec fn stdlib_text_spec() -> Seq<char> {
    stdlib_header() + stdlib_stubs(builtin_table())
}

/// The line (from 0) of the stub of the built-in function at index `i`: after the four
/// header lines, three lines per function, the stub second.
pub open spec fn stdlib_line(i: int) -> int {
    4 + i * 3 + 1
}

/// The text of the standard-library stub file.
pub fn stdlib_text() -> (s: String)
    ensures
        s@ == stdlib_text_spec(),
{
    let mut s = String::from_str(
        "// Vyrn Standard Library — Built-in Functions\n//\n// Auto-generated by vyrn-lsp. Do not edit.\n\n",
    );
    let bs = builtins();
    let mut i: usize = 0;
    while i < bs.len()
        invariant
            i <= bs@.len(),
            builtins_view(bs@) == builtin_table(),
            s@ == stdlib_header() + stdlib_stubs(builtin_table().take(i as int)),
        decreases bs@.len() - i,
    {
        assert(builtin_table().take(i + 1).drop_last() =~= builtin_table().take(i as int));
        assert(builtin_table()[i as int] == bs@[i as int]@);
        s.append("// ");
        s.append(bs[i].doc);
        s.append("\nfn ");
        s.append(bs[i].name);
        s.append("(...) {}\n\n");
        i = i + 1;
        assert(s@ =~= stdlib_header() + stdlib_stubs(builtin_table().take(i as int)));
    }
    assert(builtin_table().take(bs@.len() as int) =~= builtin_table());
    s
}

/// Each built-in function with the line of its stub in the standard-library file.
pub fn stdlib_entries() -> (es: Vec<(String, usize)>)
    ensures
        es@.len() == builtin_table().len(),
        forall|i: int|
            0 <= i < es@.len() ==> (#[trigger] es@[i]).0@ == builtin_table()[i].name && es@[i].1
                == stdlib_line(i),
{
    let bs = builtins();
    let mut es: Vec<(String, usize)> = Vec::new();
    let mut i: usize = 0;
    while i < bs.len()
        invariant
            i <= bs@.len(),
            bs@.len() == builtin_table().len(),
            builtins_view(bs@) == builtin_table(),
            es@.len() == i,
            forall|k: int|
                0 <= k < i ==> (#[trigger] es@[k]).0@ == builtin_table()[k].name && es@[k].1
                    == stdlib_line(k),
        decreases bs@.len() - i,
    {
        assert(builtin_table()[i as int] == bs@[i as int]@);
        es.push((String::from_str(bs[i].name), 4 + i * 3 + 1));
        i = i + 1;
    }
    es
}

// ─── The layout of the standard-library stub ─────────────────────────────────

/// A text that fits on one line: no line break, and no carriage return at its end.
pub open spec fn one_line(l: Seq<char>) -> bool {
    &&& forall|i: int| 0 <= i < l.len() ==> l[i] != '\n'
    &&& (l.len() > 0 ==> l.last() != '\r')
}

/// The stub text for a table of built-in functions.
pub open spec fn stdlib_text_of(t: Seq<SpecBuiltin>) -> Seq<char> {
    stdlib_header() + stdlib_stubs(t)
}

proof fn lemma_line_end_shift(a: Seq<char>, b: Seq<char>, k: int)
    requires
        0 <= k <= b.len(),
    ensures
        line_end(a + b, a.len() + k) == a.len() + line_end(b, k),
    decreases b.len() - k,
{
    if k < b.len() && b[k] != '\n' {
        assert((a + b)[a.len() + k] == b[k]);
        lemma_line_end_shift(a, b, k + 1);
    } else if k < b.len() {
        assert((a + b)[a.len() + k] == b[k]);
    }
}

proof fn lemma_lines_shift(a: Seq<char>, b: Seq<char>, k: int)
    requires
        0 <= k <= b.len(),
    ensures
        lines_from(a + b, a.len() + k) == lines_from(b, k),
    decreases b.len() - k,
{
    if k < b.len() {
        lemma_line_end_shift(a, b, k);
        lemma_line_end_bounds(b, k);
        let e = line_end(b, k);
        assert((a + b).subrange(a.len() + k, a.len() + e) =~= b.subrange(k, e));
        assert((a + b).subrange(a.len() + k, (a + b).len() as int) =~= b.subrange(k, b.len() as int));
        if e < b.len() {
            lemma_lines_shift(a, b, e + 1);
        }
    }
}

proof fn lemma_line_end_prefix(x: Seq<char>, y: Seq<char>, k: int)
    requires
        0 <= k <= x.len(),
        line_end(x, k) < x.len(),
    ensures
        line_end(x + y, k) == line_end(x, k),
    decreases x.len() - k,
{
    assert((x + y)[k] == x[k]);
    if x[k] != '\n' {
        lemma_line_end_prefix(x, y, k + 1);
    }
}

proof fn lemma_line_end_last(x: Seq<char>, k: int)
    requires
        0 <= k < x.len(),
        x.last() == '\n',
    ensures
        line_end(x, k) < x.len(),
    decreases x.len() - k,
{
    if x[k] != '\n' {
        lemma_line_end_last(x, k + 1);
    }
}

/// The lines of a text that ends with a line break, followed by more text.
proof fn lemma_lines_concat(x: Seq<char>, y: Seq<char>, k: int)
    requires
        0 <= k <= x.len(),
        x.len() == 0 || x.last() == '\n',
    ensures
        lines_from(x + y, k) == lines_from(x, k) + lines_of(y),
    decreases x.len() - k,
{
    if k == x.len() {
        lemma_lines_shift(x, y, 0);
        assert(lines_from(x, k) =~= Seq::<Seq<char>>::empty());
        assert(Seq::<Seq<char>>::empty() + lines_of(y) =~= lines_of(y));
    } else {
        lemma_line_end_last(x, k);
        lemma_line_end_prefix(x, y, k);
        lemma_line_end_bounds(x, k);
        let e = line_end(x, k);
        assert((x + y).subrange(k, e) =~= x.subrange(k, e));
        lemma_lines_concat(x, y, e + 1);
        assert(seq![strip_cr(x.subrange(k, e))] + (lines_from(x, e + 1) + lines_of(y)) =~= (seq![
            strip_cr(x.subrange(k, e)),
        ] + lines_from(x, e + 1)) + lines_of(y));
    }
}

/// The lines of one line of text and its line break.
proof fn lemma_one_line(l: Seq<char>)
    requires
        one_line(l),
    ensures
        lines_of(l + "\n"@) == seq![l],
{
    reveal_strlit("\n");
    let s = l + "\n"@;
    lemma_line_end_bounds(s, 0);
    assert(s[l.len() as int] == '\n');
    assert forall|i: int| 0 <= i < l.len() implies s[i] != '\n' by {
        assert(s[i] == l[i]);
    }
    if line_end(s, 0) < l.len() {
        assert(s[line_end(s, 0)] == '\n');
        assert(false);
    }
    assert(line_end(s, 0) == l.len());
    assert(s.subrange(0, l.len() as int) =~= l);
    assert(lines_from(s, l.len() + 1int) =~= Seq::<Seq<char>>::empty());
}

proof fn lemma_stub_lines(b: SpecBuiltin)
    requires
        one_line(b.doc),
        one_line(b.name),
    ensures
        lines_of(stdlib_stub(b)) == seq!["// "@ + b.doc, "fn "@ + b.name + "(...) {}"@, Seq::<char>::empty()],
        stdlib_stub(b).last() == '\n',
{
    reveal_strlit("// ");
    reveal_strlit("\nfn ");
    reveal_strlit("(...) {}\n\n");
    reveal_strlit("\n");
    reveal_strlit("fn ");
    reveal_strlit("(...) {}");
    let l0 = "// "@ + b.doc;
    let l1 = "fn "@ + b.name + "(...) {}"@;
    let l2 = Seq::<char>::empty();
    assert(stdlib_stub(b) =~= (l0 + "\n"@) + ((l1 + "\n"@) + (l2 + "\n"@)));
    assert forall|i: int| 0 <= i < l0.len() implies l0[i] != '\n' by {
        if i >= 3 {
            assert(l0[i] == b.doc[i - 3]);
        }
    }
    if b.doc.len() > 0 {
        assert(l0.last() == b.doc.last());
    }
    assert forall|i: int| 0 <= i < l1.len() implies l1[i] != '\n' by {
        if 3 <= i < 3 + b.name.len() {
            assert(l1[i] == b.name[i - 3]);
        }
    }
    lemma_one_line(l0);
    lemma_one_line(l1);
    lemma_one_line(l2);
    lemma_lines_concat(l1 + "\n"@, l2 + "\n"@, 0);
    lemma_lines_concat(l0 + "\n"@, (l1 + "\n"@) + (l2 + "\n"@), 0);
    assert(seq![l0] + (seq![l1] + seq![l2]) =~= seq![l0, l1, l2]);
}

proof fn lemma_stubs_lines(t: Seq<SpecBuiltin>)
    requires
        forall|i: int| 0 <= i < t.len() ==> one_line(#[trigger] t[i].doc) && one_line(t[i].name),
    ensures
        lines_of(stdlib_stubs(t)).len() == 3 * t.len(),
        forall|i: int|
            0 <= i < t.len() ==> lines_of(stdlib_stubs(t))[3 * i + 1] == "fn "@ + (#[trigger] t[i]).name
                + "(...) {}"@,
        t.len() == 0 || stdlib_stubs(t).last() == '\n',
    decreases t.len(),
{
    if t.len() == 0 {
        assert(lines_of(Seq::<char>::empty()) =~= Seq::<Seq<char>>::empty());
    } else {
        let p = t.drop_last();
        assert forall|i: int| 0 <= i < p.len() implies one_line(#[trigger] p[i].doc) && one_line(p[i].name) by {
            assert(p[i] == t[i]);
        }
        lemma_stubs_lines(p);
        lemma_stub_lines(t.last());
        lemma_lines_concat(stdlib_stubs(p), stdlib_stub(t.last()), 0);
        let before = lines_of(stdlib_stubs(p));
        let last = lines_of(stdlib_stub(t.last()));
        assert forall|i: int| 0 <= i < t.len() implies lines_of(stdlib_stubs(t))[3 * i + 1] == "fn "@
            + (#[trigger] t[i]).name + "(...) {}"@ by {
            if i < p.len() {
                assert(p[i] == t[i]);
                assert((before + last)[3 * i + 1] == before[3 * i + 1]);
            } else {
                assert((before + last)[3 * i + 1] == last[1]);
            }
        }
        let s = stdlib_stubs(t);
        assert(s.last() == stdlib_stub(t.last()).last());
    }
}

/// In the stub file of a table of built-in functions whose names and documentation each
/// fit on one line, the line that `stdlib_line` gives for the function at index `i` is its
/// stub `fn NAME(...) {}`, whose name starts at column 3.
pub proof fn lemma_stdlib_layout(t: Seq<SpecBuiltin>, i: int)
    requires
        forall|k: int| 0 <= k < t.len() ==> one_line(#[trigger] t[k].doc) && one_line(t[k].name),
        0 <= i < t.len(),
    ensures
        lines_of(stdlib_text_of(t))[stdlib_line(i)] == "fn "@ + t[i].name + "(...) {}"@,
        lines_of(stdlib_text_of(t)).len() == 4 + 3 * t.len(),
{
    reveal_strlit("// Vyrn Standard Library — Built-in Functions\n//\n// Auto-generated by vyrn-lsp. Do not edit.\n\n");
    let h = stdlib_header();
    assert(h.last() == '\n');
    lemma_stubs_lines(t);
    lemma_lines_concat(h, stdlib_stubs(t), 0);
    lemma_header_lines();
    let all = lines_of(h) + lines_of(stdlib_stubs(t));
    assert(all[stdlib_line(i)] == lines_of(stdlib_stubs(t))[3 * i + 1]);
}

proof fn lemma_header_lines()
    ensures
        lines_of(stdlib_header()).len() == 4,
{
    reveal_strlit("// Vyrn Standard Library — Built-in Functions\n//\n// Auto-generated by vyrn-lsp. Do not edit.\n\n");
    reveal_strlit("// Vyrn Standard Library — Built-in Functions");
    reveal_strlit("//");
    reveal_strlit("// Auto-generated by vyrn-lsp. Do not edit.");
    reveal_strlit("\n");
    let l0 = "// Vyrn Standard Library — Built-in Functions"@;
    let l1 = "//"@;
    let l2 = "// Auto-generated by vyrn-lsp. Do not edit."@;
    let l3 = Seq::<char>::empty();
    assert(stdlib_header() =~= (l0 + "\n"@) + ((l1 + "\n"@) + ((l2 + "\n"@) + (l3 + "\n"@))));
    lemma_one_line(l0);
    lemma_one_line(l1);
    lemma_one_line(l2);
    lemma_one_line(l3);
    lemma_lines_concat(l2 + "\n"@, l3 + "\n"@, 0);
    lemma_lines_concat(l1 + "\n"@, (l2 + "\n"@) + (l3 + "\n"@), 0);
    lemma_lines_concat(l0 + "\n"@, (l1 + "\n"@) + ((l2 + "\n"@) + (l3 + "\n"@)), 0);
}

/// The names and documentation of the built-in functions each fit on one line, so their
/// stubs keep the layout that `lemma_stdlib_layout` describes.
pub proof fn lemma_builtins_one_line()
    ensures
        forall|k: int|
            0 <= k < builtin_table().len() ==> one_line(#[trigger] builtin_table()[k].doc) && one_line(
                builtin_table()[k].name,
            ),
{
    reveal_strlit("println");
    reveal_strlit("Print a value followed by a newline.");
    assert(one_line("println"@) && one_line("Print a value followed by a newline."@));
    reveal_strlit("print");
    reveal_strlit("Print a value without a trailing newline.");
    assert(one_line("print"@) && one_line("Print a value without a trailing newline."@));
    reveal_strlit("len");
    reveal_strlit("Return the number of elements in a fixed-size array (compile-time constant).");
    assert(one_line("len"@) && one_line("Return the number of elements in a fixed-size array (compile-time constant)."@));
    reveal_strlit("abs");
    reveal_strlit("Absolute value. Works for i32 and f64.");
    assert(one_line("abs"@) && one_line("Absolute value. Works for i32 and f64."@));
    reveal_strlit("sqrt");
    reveal_strlit("Square root.");
    assert(one_line("sqrt"@) && one_line("Square root."@));
    reveal_strlit("pow");
    reveal_strlit("Raise `base` to the power `exp`.");
    assert(one_line("pow"@) && one_line("Raise `base` to the power `exp`."@));
    reveal_strlit("to_string");
    reveal_strlit("Convert a numeric or bool value to its string representation.");
    assert(one_line("to_string"@) && one_line("Convert a numeric or bool value to its string representation."@));
    reveal_strlit("min");
    reveal_strlit("Return the smaller of two values. Accepts i32 or f64.");
    assert(one_line("min"@) && one_line("Return the smaller of two values. Accepts i32 or f64."@));
    reveal_strlit("max");
    reveal_strlit("Return the larger of two values. Accepts i32 or f64.");
    assert(one_line("max"@) && one_line("Return the larger of two values. Accepts i32 or f64."@));
    reveal_strlit("floor");
    reveal_strlit("Round down to the nearest integer (returns f64).");
    assert(one_line("floor"@) && one_line("Round down to the nearest integer (returns f64)."@));
    reveal_strlit("ceil");
    reveal_strlit("Round up to the nearest integer (returns f64).");
    assert(one_line("ceil"@) && one_line("Round up to the nearest integer (returns f64)."@));
    reveal_strlit("round");
    reveal_strlit("Round to the nearest integer (returns f64).");
    assert(one_line("round"@) && one_line("Round to the nearest integer (returns f64)."@));
    reveal_strlit("clamp");
    reveal_strlit("Clamp a value to the inclusive range [lo, hi].");
    assert(one_line("clamp"@) && one_line("Clamp a value to the inclusive range [lo, hi]."@));
    reveal_strlit("str_len");
    reveal_strlit("Return the byte length of a string (not character count).");
    assert(one_line("str_len"@) && one_line("Return the byte length of a string (not character count)."@));
    reveal_strlit("str_concat");
    reveal_strlit("Concatenate two strings and return a new string.");
    assert(one_line("str_concat"@) && one_line("Concatenate two strings and return a new string."@));
    reveal_strlit("str_eq");
    reveal_strlit("Compare two strings for equality.");
    assert(one_line("str_eq"@) && one_line("Compare two strings for equality."@));
    reveal_strlit("input");
    reveal_strlit("Read one line from standard input (newline stripped).");
    assert(one_line("input"@) && one_line("Read one line from standard input (newline stripped)."@));
    reveal_strlit("parse_int");
    reveal_strlit("Parse a decimal string as a 32-bit integer. Returns 0 on failure.");
    assert(one_line("parse_int"@) && one_line("Parse a decimal string as a 32-bit integer. Returns 0 on failure."@));
    reveal_strlit("parse_float");
    reveal_strlit("Parse a decimal string as a 64-bit float. Returns 0.0 on failure.");
    assert(one_line("parse_float"@) && one_line("Parse a decimal string as a 64-bit float. Returns 0.0 on failure."@));
    reveal_strlit("int");
    reveal_strlit("Convert a value to i32 (truncates floats toward zero).");
    assert(one_line("int"@) && one_line("Convert a value to i32 (truncates floats toward zero)."@));
    reveal_strlit("float");
    reveal_strlit("Convert a value to f64.");
    assert(one_line("float"@) && one_line("Convert a value to f64."@));
    reveal_strlit("to_i64");
    reveal_strlit("Convert a value to i64 (sign-extends integers).");
    assert(one_line("to_i64"@) && one_line("Convert a value to i64 (sign-extends integers)."@));
}

/// In the stub file that the server writes, the line given for each built-in function is
/// that function's stub `fn NAME(...) {}`, so a definition found there (at column 3, for the
/// length of the name) spans the name.
pub proof fn lemma_stdlib_stub_lines(i: int)
    requires
        0 <= i < builtin_table().len(),
    ensures
        lines_of(stdlib_text_spec())[stdlib_line(i)] == "fn "@ + builtin_table()[i].name + "(...) {}"@,
{
    lemma_builtins_one_line();
    lemma_stdlib_layout(builtin_table(), i);
}

// ─── Locations ───────────────────────────────────────────────────────────────

/// A span of one line (numbered from 0): columns `start` up to `end`, in the standard-library
/// file or in the document asked about.
pub struct Location {
    pub in_stdlib: bool,
    pub line: usize,
    pub start: usize,
    pub end: usize,
}

pub struct SpecLocation {
    pub in_stdlib: bool,
    pub line: int,
    pub start: int,
    pub end: int,
}

impl View for Location {
    type V = SpecLocation;

    open spec fn view(&self) -> SpecLocation {
        SpecLocation {
            in_stdlib: self.in_stdlib,
            line: self.line as int,
            start: self.start as int,
            end: self.end as int,
        }
    }
}

pub open spec fn locations_view(v: Seq<Location>) -> Seq<SpecLocation> {
    v.map_values(|l: Location| l@)
}

/// The length of `w` in bytes of UTF-8, as `str::len` gives it.
pub open spec fn utf8_width(w: Seq<char>) -> int {
    (encode_utf8(w).len() as usize) as int
}

fn width_of(w: &Vec<char>) -> (n: usize)
    ensures
        n == utf8_width(w@),
{
    let s = string_from_chars(w);
    s.as_str().len()
}

/// The span of a name `width` bytes long at a definition site of the document.
pub open spec fn def_location(d: SpecSymbolDef, width: int) -> SpecLocation {
    SpecLocation { in_stdlib: false, line: d.line, start: d.col, end: capped_sum(d.col, width) }
}

/// The index of the first built-in function at or after `i` named `w`.
pub open spec fn builtin_index(t: Seq<SpecBuiltin>, w: Seq<char>, i: int) -> Option<int>
    decreases t.len() - i,
{
    if 0 <= i < t.len() {
        if t[i].name == w {
            Some(i)
        } else {
            builtin_index(t, w, i + 1)
        }
    } else {
        None
    }
}

/// The first definition at or after index `i` named `w` that `pick` accepts.
pub open spec fn first_def(ds: Seq<SpecSymbolDef>, w: Seq<char>, pick: spec_fn(SymbolKind) -> bool, i: int) -> Option<
    SpecSymbolDef,
>
    decreases ds.len() - i,
{
    if 0 <= i < ds.len() {
        if ds[i].name == w && pick(ds[i].kind) {
            Some(ds[i])
        } else {
            first_def(ds, w, pick, i + 1)
        }
    } else {
        None
    }
}

pub open spec fn is_field_kind(k: SymbolKind) -> bool {
    k == SymbolKind::Field
}

pub open spec fn is_global_kind(k: SymbolKind) -> bool {
    k == SymbolKind::Function || k == SymbolKind::Struct
}

/// The last variable or parameter among the first `n` definitions named `w` that stands
/// at or before (`line`, `col`).
pub open spec fn last_local_at(ds: Seq<SpecSymbolDef>, w: Seq<char>, line: int, col: int, n: int) -> Option<
    SpecSymbolDef,
>
    decreases n,
{
    if n <= 0 || n > ds.len() {
        None
    } else {
        let d = ds[n - 1];
        if d.name == w && (d.kind == SymbolKind::Variable || d.kind == SymbolKind::Parameter) && (
        d.line < line || (d.line == line && d.col <= col)) {
            Some(d)
        } else {
            last_local_at(ds, w, line, col, n - 1)
        }
    }
}

/// Where the name at (`line`, `col`) of the document is defined: a built-in function's stub
/// (where the stub file was written), else after a `.` a field, else a function or
/// struct, else the nearest variable or parameter above, else a field of that name.
pub open spec fn definition_spec(s: Seq<char>, line: int, col: int, stdlib_written: bool) -> Option<
    SpecLocation,
> {
    match word_at_spec(s, line, col) {
        None => None,
        Some(w) => {
            let width = utf8_width(w);
            let ds = definitions(tokens_or_empty(s));
            let stub = if stdlib_written {
                builtin_index(builtin_table(), w, 0)
            } else {
                None
            };
            let field = if is_field_access_spec(s, line, col) {
                first_def(ds, w, |k: SymbolKind| is_field_kind(k), 0)
            } else {
                None
            };
            match stub {
                Some(i) => Some(
                    SpecLocation {
                        in_stdlib: true,
                        line: stdlib_line(i),
                        start: 3,
                        end: capped_sum(3, width),
                    },
                ),
                None => match field {
                    Some(d) => Some(def_location(d, width)),
                    None => match first_def(ds, w, |k: SymbolKind| is_global_kind(k), 0) {
                        Some(d) => Some(def_location(d, width)),
                        None => match last_local_at(ds, w, line, col, ds.len() as int) {
                            Some(d) => Some(def_location(d, width)),
                            None => match first_def(ds, w, |k: SymbolKind| is_field_kind(k), 0) {
                                Some(d) => Some(def_location(d, width)),
                                None => None,
                            },
                        },
                    },
                },
            }
        },
    }
}

fn stub_index(w: &Vec<char>) -> (r: Option<usize>)
    ensures
        match r {
            Some(i) => i < builtin_table().len() && builtin_index(builtin_table(), w@, 0) == Some(
                i as int,
            ),
            None => builtin_index(builtin_table(), w@, 0) is None,
        },
{
    let bs = builtins();
    let ws = string_from_chars(w);
    let mut i: usize = 0;
    while i < bs.len()
        invariant
            i <= bs@.len(),
            builtins_view(bs@) == builtin_table(),
            bs@.len() == builtin_table().len(),
            ws@ == w@,
            builtin_index(builtin_table(), w@, i as int) == builtin_index(builtin_table(), w@, 0),
        decreases bs@.len() - i,
    {
        assert(builtin_table()[i as int] == bs@[i as int]@);
        if string_is(bs[i].name, ws.as_str()) {
            return Some(i);
        }
        i = i + 1;
    }
    None
}

fn location_at(d: &SymbolDef, width: usize) -> (l: Location)
    ensures
        l@ == def_location(d@, width as int),
{
    Location { in_stdlib: false, line: d.line, start: d.col, end: d.col.saturating_add(width) }
}

fn find_first_def(defs: &Vec<SymbolDef>, w: &String, fields: bool) -> (r: Option<usize>)
    ensures
        match r {
            Some(k) => k < defs@.len() && first_def(
                defs_view(defs@),
                w@,
                if fields {
                    |k: SymbolKind| is_field_kind(k)
                } else {
                    |k: SymbolKind| is_global_kind(k)
                },
                0,
            ) == Some(defs@[k as int]@),
            None => first_def(
                defs_view(defs@),
                w@,
                if fields {
                    |k: SymbolKind| is_field_kind(k)
                } else {
                    |k: SymbolKind| is_global_kind(k)
                },
                0,
            ) is None,
        },
{
    let ghost ds = defs_view(defs@);
    let ghost pick = if fields {
        |k: SymbolKind| is_field_kind(k)
    } else {
        |k: SymbolKind| is_global_kind(k)
    };
    let mut i: usize = 0;
    while i < defs.len()
        invariant
            i <= defs@.len(),
            ds == defs_view(defs@),
            pick == (if fields {
                |k: SymbolKind| is_field_kind(k)
            } else {
                |k: SymbolKind| is_global_kind(k)
            }),
            first_def(ds, w@, pick, i as int) == first_def(ds, w@, pick, 0),
        decreases defs@.len() - i,
    {
        assert(ds[i as int] == defs@[i as int]@);
        let k = defs[i].kind;
        let accepted = if fields {
            k == SymbolKind::Field
        } else {
            k == SymbolKind::Function || k == SymbolKind::Struct
        };
        if defs[i].name.eq(w) && accepted {
            return Some(i);
        }
        i = i + 1;
    }
    None
}

fn find_last_local(defs: &Vec<SymbolDef>, w: &String, line: usize, col: usize) -> (r: Option<usize>)
    ensures
        match r {
            Some(k) => k < defs@.len() && last_local_at(
                defs_view(defs@),
                w@,
                line as int,
                col as int,
                defs@.len() as int,
            ) == Some(defs@[k as int]@),
            None => last_local_at(
                defs_view(defs@),
                w@,
                line as int,
                col as int,
                defs@.len() as int,
            ) is None,
        },
{
    let ghost ds = defs_view(defs@);
    let mut n = defs.len();
    while n > 0
        invariant
            n <= defs@.len(),
            ds == defs_view(defs@),
            last_local_at(ds, w@, line as int, col as int, n as int) == last_local_at(
                ds,
                w@,
                line as int,
                col as int,
                defs@.len() as int,
            ),
        decreases n,
    {
        let d = &defs[n - 1];
        assert(ds[n - 1] == d@);
        if d.name.eq(w) && (d.kind == SymbolKind::Variable || d.kind == SymbolKind::Parameter) && (
        d.line < line || (d.line == line && d.col <= col)) {
            return Some(n - 1);
        }
        n = n - 1;
    }
    None
}

/// Where the name at (`line`, `col`) (both from 0) of the document is defined; the stubs
/// of the built-in functions count where `stdlib_written` says that their file exists.
pub fn find_definition(source: &str, line: usize, col: usize, stdlib_written: bool) -> (r: Option<
    Location,
>)
    requires
        source@.len() < usize::MAX,
    ensures
        match r {
            Some(l) => definition_spec(source@, line as int, col as int, stdlib_written) == Some(
                l@,
            ),
            None => definition_spec(source@, line as int, col as int, stdlib_written) is None,
        },
{
    let chars = chars_of(source);
    let wv = match word_at(&chars, line, col) {
        Some(w) => w,
        None => {
            return None;
        },
    };
    let width = width_of(&wv);
    if stdlib_written {
        match stub_index(&wv) {
            Some(i) => {
                return Some(
                    Location {
                        in_stdlib: true,
                        line: 4 + i * 3 + 1,
                        start: 3,
                        end: width.saturating_add(3),
                    },
                );
            },
            None => {},
        }
    }
    let w = string_from_chars(&wv);
    let tokens = tokenize_source(source);
    proof {
        lemma_lex_positions(source@, 0);
    }
    let defs = collect_definitions(&tokens);
    if is_field_access_at(&chars, line, col) {
        match find_first_def(&defs, &w, true) {
            Some(k) => {
                return Some(location_at(&defs[k], width));
            },
            None => {},
        }
    }
    match find_first_def(&defs, &w, false) {
        Some(k) => {
            return Some(location_at(&defs[k], width));
        },
        None => {},
    }
    match find_last_local(&defs, &w, line, col) {
        Some(k) => {
            return Some(location_at(&defs[k], width));
        },
        None => {},
    }
    match find_first_def(&defs, &w, true) {
        Some(k) => Some(location_at(&defs[k], width)),
        None => None,
    }
}

// ─── References ──────────────────────────────────────────────────────────────

/// The token is an identifier spelling `w`.
pub open spec fn is_use_of(t: SpecToken, w: Seq<char>) -> bool {
    t.ty == TokenType::Identifier && t.value == w
}

/// The span (from 0) of a token, `width` bytes long.
pub open spec fn token_location(t: SpecToken, width: int) -> SpecLocation {
    SpecLocation {
        in_stdlib: false,
        line: t.line - 1,
        start: t.col - 1,
        end: capped_sum(t.col - 1, width),
    }
}

/// The spans of the identifiers spelling `w` among the first `n` tokens.
pub open spec fn uses_upto(ts: Seq<SpecToken>, w: Seq<char>, width: int, n: int) -> Seq<SpecLocation>
    decreases n,
{
    if n <= 0 || n > ts.len() {
        Seq::empty()
    } else {
        uses_upto(ts, w, width, n - 1) + if is_use_of(ts[n - 1], w) {
            seq![token_location(ts[n - 1], width)]
        } else {
            Seq::empty()
        }
    }
}

/// Every place, in token order, where the name at (`line`, `col`) of the document occurs.
pub open spec fn references_spec(s: Seq<char>, line: int, col: int) -> Seq<SpecLocation> {
    match word_at_spec(s, line, col) {
        None => Seq::empty(),
        Some(w) => {
            let ts = tokens_or_empty(s);
            uses_upto(ts, w, utf8_width(w), ts.len() as int)
        },
    }
}

/// Every place, in token order, where the name at (`line`, `col`) (both from 0) occurs.
pub fn find_references(source: &str, line: usize, col: usize) -> (locs: Vec<Location>)
    requires
        source@.len() < usize::MAX,
    ensures
        locations_view(locs@) == references_spec(source@, line as int, col as int),
{
    let mut locs: Vec<Location> = Vec::new();
    let chars = chars_of(source);
    let wv = match word_at(&chars, line, col) {
        Some(w) => w,
        None => {
            assert(locations_view(locs@) =~= Seq::<SpecLocation>::empty());
            return locs;
        },
    };
    let width = width_of(&wv);
    let w = string_from_chars(&wv);
    let tokens = tokenize_source(source);
    proof {
        lemma_lex_positions(source@, 0);
    }
    let ghost ts = tokens_view(tokens@);
    let mut i: usize = 0;
    assert(locations_view(locs@) =~= Seq::<SpecLocation>::empty());
    while i < tokens.len()
        invariant
            i <= tokens@.len(),
            ts == tokens_view(tokens@),
            ts == tokens_or_empty(source@),
            tokens_positioned(ts),
            w@ == wv@,
            width == utf8_width(wv@),
            locations_view(locs@) == uses_upto(ts, w@, width as int, i as int),
        decreases tokens@.len() - i,
    {
        let t = &tokens[i];
        assert(ts[i as int] == t@);
        let ghost before = locs@;
        if t.ty == TokenType::Identifier && t.value.eq(&w) {
            locs.push(
                Location {
                    in_stdlib: false,
                    line: t.line - 1,
                    start: t.col - 1,
                    end: (t.col - 1).saturating_add(width),
                },
            );
        }
        i = i + 1;
        assert(locations_view(locs@) =~= uses_upto(ts, w@, width as int, i as int));
    }
    locs
}

// ─── Code lenses ─────────────────────────────────────────────────────────────

/// A reference count shown above line `line` (from 0) of a function or struct.
pub struct CodeLens {
    pub line: usize,
    pub title: String,
}

pub struct SpecCodeLens {
    pub line: int,
    pub title: Seq<char>,
}

impl View for CodeLens {
    type V = SpecCodeLens;

    open spec fn view(&self) -> SpecCodeLens {
        SpecCodeLens { line: self.line as int, title: self.title@ }
    }
}

pub open spec fn lenses_view(v: Seq<CodeLens>) -> Seq<SpecCodeLens> {
    v.map_values(|c: CodeLens| c@)
}

/// The token is a use of the definition `d` elsewhere than at `d` itself.
pub open spec fn is_other_use(t: SpecToken, d: SpecSymbolDef) -> bool {
    t.ty == TokenType::Identifier && t.value == d.name && !(from_one(t.line) == d.line && from_one(
        t.col,
    ) == d.col)
}

/// How many of the first `n` tokens use `d` elsewhere than at `d` itself.
pub open spec fn other_uses(ts: Seq<SpecToken>, d: SpecSymbolDef, n: int) -> nat
    decreases n,
{
    if n <= 0 || n > ts.len() {
        0
    } else {
        other_uses(ts, d, n - 1) + if is_other_use(ts[n - 1], d) {
            1nat
        } else {
            0nat
        }
    }
}

/// `1 reference`, `2 references`, ...
pub open spec fn lens_title(n: nat) -> Seq<char> {
    decimal(n) + " reference"@ + if n == 1 {
        Seq::<char>::empty()
    } else {
        "s"@
    }
}

/// The lenses for the first `k` definitions: one per function or struct.
pub open spec fn lenses_upto(ds: Seq<SpecSymbolDef>, ts: Seq<SpecToken>, k: int) -> Seq<SpecCodeLens>
    decreases k,
{
    if k <= 0 || k > ds.len() {
        Seq::empty()
    } else {
        lenses_upto(ds, ts, k - 1) + if is_global_kind(ds[k - 1].kind) {
            seq![
                SpecCodeLens {
                    line: ds[k - 1].line,
                    title: lens_title(other_uses(ts, ds[k - 1], ts.len() as int)),
                },
            ]
        } else {
            Seq::empty()
        }
    }
}

/// The reference counts of the functions and structs of a text, in the order they are defined.
pub open spec fn code_lens_spec(s: Seq<char>) -> Seq<SpecCodeLens> {
    let ts = tokens_or_empty(s);
    let ds = definitions(ts);
    lenses_upto(ds, ts, ds.len() as int)
}

fn count_other_uses(tokens: &Vec<Token>, d: &SymbolDef) -> (n: usize)
    ensures
        n == other_uses(tokens_view(tokens@), d@, tokens@.len() as int),
{
    let ghost ts = tokens_view(tokens@);
    let mut n: usize = 0;
    let mut i: usize = 0;
    while i < tokens.len()
        invariant
            i <= tokens@.len(),
            ts == tokens_view(tokens@),
            n <= i,
            n == other_uses(ts, d@, i as int),
        decreases tokens@.len() - i,
    {
        let t = &tokens[i];
        assert(ts[i as int] == t@);
        if t.ty == TokenType::Identifier && t.value.eq(&d.name) && !(t.line.saturating_sub(1)
            == d.line && t.col.saturating_sub(1) == d.col) {
            n = n + 1;
        }
        i = i + 1;
    }
    n
}

/// The reference counts of the functions and structs of the text, in the order they are
/// defined.
pub fn code_lenses(source: &str) -> (ls: Vec<CodeLens>)
    requires
        source@.len() < usize::MAX,
    ensures
        lenses_view(ls@) == code_lens_spec(source@),
{
    let tokens = tokenize_source(source);
    proof {
        lemma_lex_positions(source@, 0);
    }
    let defs = collect_definitions(&tokens);
    let ghost ts = tokens_view(tokens@);
    let ghost ds = defs_view(defs@);
    let mut out: Vec<CodeLens> = Vec::new();
    let mut k: usize = 0;
    assert(lenses_view(out@) =~= Seq::<SpecCodeLens>::empty());
    while k < defs.len()
        invariant
            k <= defs@.len(),
            ts == tokens_view(tokens@),
            ds == defs_view(defs@),
            lenses_view(out@) == lenses_upto(ds, ts, k as int),
        decreases defs@.len() - k,
    {
        let d = &defs[k];
        assert(ds[k as int] == d@);
        let ghost before = out@;
        if d.kind == SymbolKind::Function || d.kind == SymbolKind::Struct {
            let n = count_other_uses(&tokens, d);
            let mut title = String::new();
            push_decimal(&mut title, n);
            title.append(" reference");
            if n != 1 {
                title.append("s");
            }
            proof {
                if n == 1 {
                    assert(title@ =~= lens_title(n as nat));
                } else {
                    assert(title@ =~= lens_title(n as nat));
                }
            }
            out.push(CodeLens { line: d.line, title });
        }
        k = k + 1;
        assert(lenses_view(out@) =~= lenses_upto(ds, ts, k as int));
    }
    out
}

} // verus!
