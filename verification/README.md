# qlue_ls

The core of a SPARQL language server, verified with Verus.

- `lexer`: a hand-written SPARQL lexer. Each token is the longest match at
  its position; the tokens' texts spell out the input.
- `parser`: an event-based recursive-descent parser, one function per
  grammar rule (`parser/grammar.rs`), that never gets stuck and consumes
  every token; `parser/tree_builder.rs` turns its events and the tokens into
  a lossless syntax tree and collects the syntax errors.
- `syntax_tree`: the tree as a preorder list of elements, with navigation
  (children, parent, descendants, text) stated over that list.
- `ast`: typed views of the tree's nodes (queries, patterns, triples,
  variables, ...), including the variables each pattern makes visible.
- `configuration`: the settings and the regex replacements that derive
  variable names.
- `result_reader`: a byte-at-a-time reader that frames the parts of a
  SPARQL JSON result stream.
- `results`, `lsp`: result terms and the protocol's message types.

`app/` holds what the library leaves to its caller: reading the settings
file, decoding the framed result parts with `serde_json`, and converting
trees to `rowan` trees.
