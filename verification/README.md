# watt

The front end of the Watt interpreter as a verified library: the lexer, the
recursive-descent parser, the semantic analysis and the import resolver,
each proved against a mathematical statement of what it computes.

- `src/lexer/` — source text to tokens. `lexer.rs` states the lexical grammar
  as a state machine (`spec_lex`) and proves `Lexer::try_lex` against it.
- `src/parser/` — tokens to a syntax tree. `grammar.rs` states the grammar as
  recursive spec functions (`spec_parse`); `parser.rs` and its two submodules
  hold the parser, proved rule by rule.
- `src/semantic/` — the analysis that places `break`, `continue`, `return`,
  `import` and `?` (`analysis_error`).
- `src/resolver/` — which file an import reads, what it contributes, and that
  each file is imported once.
- `src/executor/` — the pipeline steps: lexing, parsing with a name prefix,
  analysis.
- `src/vm/` — runtime pieces: the binary and comparison operations on
  null, flags, integers and strings (`ops`), the `strings@`/`char@` natives,
  the `crypto@` natives over the base64, hex, sha2 and md-5 crates, symbols,
  settings and foreign type names.
- `src/lexer.rs`, `src/ast.rs`, `src/visitor.rs`, `src/errors.rs`,
  `src/import.rs` — the first syntax (functions declared with `fun`).
- `app/main.rs` — the `watt` command: reads a file, runs the pipeline and
  prints the first error.
