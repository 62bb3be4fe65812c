# zed_laravel

Laravel support for the Zed editor: the text processing behind completions
and project indexing, written in Verus and verified against its contracts.

## Layout

- `src/` — the verified library
  - `text.rs`, `order.rs` — whitespace, trimming, literals, lexicographic order,
    sort-and-deduplicate
  - `pattern.rs`, `php.rs` — PHP fragments (`->name('…')`, `$fillable = […]`,
    `class Foo`, `namespace A\B;`, …) as step programs, and the leftmost,
    non-overlapping scan that finds their captures
  - `artisan.rs` — Artisan command recognition and parsing
  - `completion.rs` — built-in helpers, facades, Blade directives, code labels,
    helpers declared by a project
  - `laravel_indexer.rs`, `laravel_scanner.rs` — the extension's project index
  - `lsp/` — the language server's index (`indexer.rs`, `scanner.rs`) and its
    completion items (`server.rs`)
  - `extension.rs` — the extension's state, and the steps of installing and
    launching the PHP language server
  - `laws.rs` — properties that span several functions
- `tests/` — tests, including a comparison of every scanner with the regular
  expression it stands for, evaluated by the `regex` crate
- `app/` — the `laravel-lsp` binary (tower-lsp, tokio), the Zed extension
  glue, and the directory walks that feed the library

Every public function of `src/` states its result in its `ensures`.
