# vyrn

Vyrn is a small statically typed language. This crate holds its front end, its code
generation rules and the queries of its language server, written in Verus with contracts
that state what each function computes.

Layout of `src/`:

- `text.rs`, `token.rs`, `lexer.rs` — characters, tokens and the lexer; the lexical rules
  are spec functions, and `Lexer::tokenize` is proved to follow them.
- `ast.rs`, `parser.rs` — the syntax tree and the recursive-descent parser, proved against
  a spec of the grammar; `parse_laws.rs` proves that an error stands at a token and that a
  type's printed form reads back.
- `ir.rs`, `emit.rs`, `compile.rs` — machine types, struct layout, the runtime's functions,
  and the generation of each function's build steps (`CodeGen::generate`), proved equal to
  a spec of code generation. `builtins.rs` lowers the built-ins that call the runtime
  library (`min`, `max`, `clamp`, roundings, strings, input, parsing, conversions);
  `frame.rs` proves what the code for an expression or a statement leaves unchanged (the
  locals, the loop targets, the emitted prefix).
- `docs.rs`, `lsp.rs`, `queries.rs`, `server.rs`, `table.rs` — hover, definitions,
  completions, diagnostics, references, code lenses, the open documents and the dispatch of
  editor requests.

`app/` is the `vyrn` command: file and stdin/stdout I/O, the JSON-RPC framing of the
language server, the runtime that compiled programs call, and the replay of the generated
build steps on Cranelift (JIT or object file).
