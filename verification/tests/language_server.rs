use vyrn::lsp::{
    collect_definitions, doc_comment_above, hover_for_word, is_field_access_at, split_lines,
    tokenize_source, trim_chars, word_at, SymbolKind,
};
use vyrn::queries::{
    code_lenses, completion_items, diagnostics, find_definition, find_references, stdlib_entries,
    stdlib_text, CompletionKind,
};
use vyrn::server::{DocumentStore, Reply, Request, Server};
use vyrn::text::{chars_of, parse_i64, push_decimal};

fn chars(s: &str) -> Vec<char> {
    s.chars().collect()
}

fn text(v: &Vec<char>) -> String {
    v.iter().collect()
}

const PROGRAM: &str = "// A point.\n// In the plane.\nstruct Point { x: i32, y: i32 }\n\n/// Adds.\nfn add(a: i32, b: i32) -> i32 {\n    let s = a + b;\n    return s;\n}\n\nfn main() {\n    let p = Point { x: 1, y: 2 };\n    println(add(p.x, 2));\n}\n";

#[test]
fn lines_split_like_str_lines() {
    let ls = split_lines(&chars("a\r\nb\n\nc"));
    let got: Vec<String> = ls.iter().map(text).collect();
    assert_eq!(got, vec!["a", "b", "", "c"]);
    let ls = split_lines(&chars("x\n"));
    assert_eq!(ls.len(), 1);
    assert_eq!(split_lines(&chars("")).len(), 0);
}

#[test]
fn word_under_the_cursor() {
    let src = chars("let foo_bar = baz;\nx");
    assert_eq!(word_at(&src, 0, 6).map(|w| text(&w)), Some("foo_bar".to_string()));
    assert_eq!(word_at(&src, 0, 4).map(|w| text(&w)), Some("foo_bar".to_string()));
    assert_eq!(word_at(&src, 0, 11).map(|w| text(&w)), Some("foo_bar".to_string()));
    assert_eq!(word_at(&src, 0, 12), None);
    assert_eq!(word_at(&src, 1, 0).map(|w| text(&w)), Some("x".to_string()));
    assert_eq!(word_at(&src, 5, 0), None);
    assert_eq!(word_at(&src, 1, 9), None);
}

#[test]
fn field_access_follows_a_dot() {
    let src = chars("p.x + y");
    assert!(is_field_access_at(&src, 0, 2));
    assert!(!is_field_access_at(&src, 0, 0));
    assert!(!is_field_access_at(&src, 0, 6));
}

#[test]
fn trimming_whitespace() {
    assert_eq!(text(&trim_chars(&chars("  a b \t"))), "a b");
    assert_eq!(text(&trim_chars(&chars("   "))), "");
}

#[test]
fn definitions_in_token_order() {
    let ts = tokenize_source(PROGRAM);
    let ds = collect_definitions(&ts);
    let got: Vec<(String, SymbolKind, usize, usize)> =
        ds.iter().map(|d| (d.name.clone(), d.kind, d.line, d.col)).collect();
    assert_eq!(
        got,
        vec![
            ("Point".to_string(), SymbolKind::Struct, 2, 7),
            ("x".to_string(), SymbolKind::Field, 2, 15),
            ("y".to_string(), SymbolKind::Field, 2, 23),
            ("add".to_string(), SymbolKind::Function, 5, 3),
            ("a".to_string(), SymbolKind::Parameter, 5, 7),
            ("b".to_string(), SymbolKind::Parameter, 5, 15),
            ("s".to_string(), SymbolKind::Variable, 6, 8),
            ("main".to_string(), SymbolKind::Function, 10, 3),
            ("p".to_string(), SymbolKind::Variable, 11, 8),
        ]
    );
    assert_eq!(ds[1].parent.as_deref(), Some("Point"));
    assert_eq!(SymbolKind::Field.as_str(), "field");
}

#[test]
fn doc_comments_above_a_line() {
    let src = chars(PROGRAM);
    assert_eq!(doc_comment_above(&src, 2).map(|d| text(&d)), Some("A point.\nIn the plane.".to_string()));
    assert_eq!(doc_comment_above(&src, 5).map(|d| text(&d)), Some("/ Adds.".to_string()));
    assert_eq!(doc_comment_above(&src, 10), None);
    assert_eq!(doc_comment_above(&src, 0), None);
}

#[test]
fn hover_on_builtins_and_keywords() {
    assert_eq!(
        hover_for_word("sqrt", "", 0),
        Some("```vyrn\nsqrt(x: f64) -> f64\n```\n\nSquare root.".to_string())
    );
    let k = hover_for_word("while", "", 0).unwrap();
    assert!(k.starts_with("**while** *(keyword)*\n\n"));
    assert_eq!(hover_for_word("nothing_here", "", 0), None);
}

#[test]
fn hover_on_declarations_and_locals() {
    assert_eq!(
        hover_for_word("add", PROGRAM, 12),
        Some("```vyrn\nfn add(a: i32, b: i32) -> i32\n```\n\n/ Adds.".to_string())
    );
    assert_eq!(
        hover_for_word("Point", PROGRAM, 12),
        Some("```vyrn\nstruct Point {\n    x: i32,\n    y: i32\n}\n```\n\nA point.\nIn the plane.".to_string())
    );
    assert_eq!(
        hover_for_word("s", PROGRAM, 7),
        Some("*(variable)* \n```vyrn\nlet s = a + b;\n```".to_string())
    );
    assert_eq!(
        hover_for_word("a", PROGRAM, 6),
        Some("*(parameter)* \n```vyrn\nfn add(a: i32, b: i32) -> i32 {\n```".to_string())
    );
    assert_eq!(hover_for_word("s", PROGRAM, 3), None);
}

#[test]
fn diagnostics_for_lex_and_parse_errors() {
    assert_eq!(diagnostics("fn main() { }").len(), 0);
    let d = diagnostics("fn main() { let x = @; }");
    assert_eq!(d.len(), 1);
    assert_eq!((d[0].line, d[0].character, d[0].end_character), (0, 20, 21));
    assert_eq!(d[0].message, "Unexpected character: '@'");
    let d = diagnostics("fn main() {\n  let = 1;\n}");
    assert_eq!(d.len(), 1);
    assert_eq!((d[0].line, d[0].character, d[0].end_character), (1, 6, 36));
    assert_eq!(d[0].message, "Expected Identifier, found Assign ('=')");
}

#[test]
fn completions_list_keywords_builtins_then_declarations() {
    let items = completion_items(PROGRAM);
    let n = items.len();
    assert!(n > 3);
    assert_eq!(items[0].label, "let");
    assert_eq!(items[0].kind, CompletionKind::Keyword);
    assert_eq!(items[0].kind.code(), 14);
    let point = &items[n - 3];
    assert_eq!(point.label, "Point");
    assert_eq!(point.kind.code(), 22);
    assert_eq!(point.detail.as_deref(), Some("struct Point"));
    let add = &items[n - 2];
    assert_eq!(add.label, "add");
    assert_eq!(add.kind.code(), 3);
    assert_eq!(add.detail.as_deref(), Some("fn add(a: i32, b: i32) -> i32"));
    assert_eq!(items[n - 1].detail.as_deref(), Some("fn main()"));
    let bad = completion_items("fn (");
    assert_eq!(bad.len(), n - 3);
}

#[test]
fn standard_library_stub() {
    let t = stdlib_text();
    let es = stdlib_entries();
    let lines: Vec<&str> = t.lines().collect();
    assert_eq!(lines.len(), 4 + 3 * es.len());
    for (name, line) in &es {
        assert_eq!(lines[*line], format!("fn {}(...) {{}}", name));
    }
    assert_eq!(es[0], ("println".to_string(), 5));
    assert_eq!(es[1].1, 8);
}

#[test]
fn go_to_definition() {
    let loc = find_definition(PROGRAM, 12, 14, false).unwrap();
    assert_eq!((loc.in_stdlib, loc.line, loc.start, loc.end), (false, 5, 3, 6));
    let loc = find_definition(PROGRAM, 12, 4, true).unwrap();
    assert_eq!((loc.in_stdlib, loc.line, loc.start, loc.end), (true, 5, 3, 10));
    assert!(find_definition(PROGRAM, 12, 4, false).is_none());
    let loc = find_definition(PROGRAM, 12, 18, false).unwrap();
    assert_eq!((loc.line, loc.start, loc.end), (2, 15, 16));
    let loc = find_definition(PROGRAM, 7, 12, false).unwrap();
    assert_eq!((loc.line, loc.start, loc.end), (6, 8, 9));
    let loc = find_definition(PROGRAM, 11, 20, false).unwrap();
    assert_eq!((loc.line, loc.start, loc.end), (2, 15, 16));
}

#[test]
fn references_and_lenses() {
    let refs = find_references(PROGRAM, 6, 12);
    let got: Vec<(usize, usize, usize)> = refs.iter().map(|l| (l.line, l.start, l.end)).collect();
    assert_eq!(got, vec![(5, 7, 8), (6, 12, 13)]);
    assert!(find_references(PROGRAM, 3, 0).is_empty());
    let lenses = code_lenses(PROGRAM);
    let got: Vec<(usize, String)> = lenses.iter().map(|l| (l.line, l.title.clone())).collect();
    assert_eq!(
        got,
        vec![
            (2, "1 reference".to_string()),
            (5, "1 reference".to_string()),
            (10, "0 references".to_string()),
        ]
    );
}

#[test]
fn document_store_reads_what_was_written() {
    let mut st = DocumentStore::new();
    st.insert("a".to_string(), "one".to_string());
    st.insert("b".to_string(), "two".to_string());
    st.insert("a".to_string(), "three".to_string());
    assert_eq!(st.get("a").map(|s| s.as_str()), Some("three"));
    assert_eq!(st.get("b").map(|s| s.as_str()), Some("two"));
    st.remove("a");
    assert!(st.get("a").is_none());
    assert_eq!(st.get("b").map(|s| s.as_str()), Some("two"));
}

#[test]
fn server_answers_requests() {
    let mut srv = Server::new(true);
    match srv.handle(Request::DidOpen { uri: "file:///m.vyn".to_string(), text: "fn main() { let = }".to_string() }) {
        Reply::Diagnostics { uri, diagnostics } => {
            assert_eq!(uri, "file:///m.vyn");
            assert_eq!(diagnostics.len(), 1);
        },
        _ => panic!("expected diagnostics"),
    }
    match srv.handle(Request::DidChange { uri: "file:///m.vyn".to_string(), text: PROGRAM.to_string() }) {
        Reply::Diagnostics { diagnostics, .. } => assert!(diagnostics.is_empty()),
        _ => panic!("expected diagnostics"),
    }
    match srv.handle(Request::Hover { uri: "file:///m.vyn".to_string(), line: 12, col: 14 }) {
        Reply::Hover(Some(h)) => assert!(h.starts_with("```vyrn\nfn add")),
        _ => panic!("expected a hover"),
    }
    match srv.handle(Request::Hover { uri: "file:///other.vyn".to_string(), line: 0, col: 0 }) {
        Reply::Hover(h) => assert!(h.is_none()),
        _ => panic!("expected a hover"),
    }
    match srv.handle(Request::Definition { uri: "file:///m.vyn".to_string(), line: 12, col: 4 }) {
        Reply::Definition(Some(l)) => assert!(l.in_stdlib),
        _ => panic!("expected a definition"),
    }
    match srv.handle(Request::DidClose { uri: "file:///m.vyn".to_string() }) {
        Reply::Diagnostics { diagnostics, .. } => assert!(diagnostics.is_empty()),
        _ => panic!("expected diagnostics"),
    }
    match srv.handle(Request::DidSave { uri: "file:///m.vyn".to_string() }) {
        Reply::Silent => {},
        _ => panic!("a closed document has nothing to save"),
    }
    assert!(matches!(srv.handle(Request::Shutdown), Reply::NullResult));
    assert!(matches!(srv.handle(Request::Unknown { has_id: false }), Reply::Silent));
    assert!(matches!(srv.handle(Request::Unknown { has_id: true }), Reply::NullResult));
}

#[test]
fn queries_read_the_last_text_sent() {
    let mut srv = Server::new(false);
    let uri = "file:///q.vyn".to_string();
    srv.handle(Request::DidOpen { uri: uri.clone(), text: "fn a() { }".to_string() });
    srv.handle(Request::DidChange { uri: uri.clone(), text: "fn b() { }\nfn c() { }".to_string() });
    match srv.handle(Request::CodeLens { uri: uri.clone() }) {
        Reply::CodeLenses(ls) => assert_eq!(ls.len(), 2),
        _ => panic!("expected code lenses"),
    }
    match srv.handle(Request::Completion { uri: uri.clone() }) {
        Reply::Completion(items) => {
            assert!(items.iter().any(|i| i.label == "c"));
            assert!(!items.iter().any(|i| i.label == "a"));
        },
        _ => panic!("expected completions"),
    }
    srv.handle(Request::DidClose { uri: uri.clone() });
    match srv.handle(Request::Hover { uri: uri.clone(), line: 0, col: 3 }) {
        Reply::Hover(h) => assert!(h.is_none()),
        _ => panic!("expected a hover"),
    }
}

#[test]
fn decimal_text_and_integer_parsing() {
    let mut s = String::from("n=");
    push_decimal(&mut s, 0);
    push_decimal(&mut s, 1203);
    assert_eq!(s, "n=01203");
    assert_eq!(parse_i64("-42"), Some(-42));
    assert_eq!(parse_i64("+7"), Some(7));
    assert_eq!(parse_i64("9223372036854775807"), Some(i64::MAX));
    assert_eq!(parse_i64("-9223372036854775808"), Some(i64::MIN));
    assert_eq!(parse_i64("9223372036854775808"), None);
    assert_eq!(parse_i64(""), None);
    assert_eq!(parse_i64("-"), None);
    assert_eq!(parse_i64("1 2"), None);
    assert_eq!(chars_of("añ"), vec!['a', 'ñ']);
}
