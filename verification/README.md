# rust-doctor

A static-analysis tool for Rust workspaces: it looks for idioms, design
patterns, anti-patterns and code-organisation issues, merges in the
diagnostics of `cargo check` and `cargo clippy`, and reports them as text,
JSON or SARIF 2.1.0 with a health score.

## Layout

- `src/` is the library, verified with Verus.
  - `diagnostic.rs`: findings, reports, summaries and the health score.
  - `text.rs`, `syntax.rs`: the character-level text model and the model of
    a parsed source file that the rules read.
  - `analysis.rs`: line search, `rust-doctor-allow` suppressions, parsing
    source text with `syn`, and the helpers the rules share.
  - `nesting.rs`: a lexer-aware measure of how deeply source text nests;
    text beyond its bound is not handed to the recursive-descent parser.
  - `rules/`: the rule trait, the registry and the built-in rules.
  - `toolchain.rs`: reading cargo's JSON messages (output nested deeper
    than serde_json's default limit is not read) and turning compiler
    diagnostics into findings.
  - `workspace.rs`: running the rules, removing repeated findings, building
    the report.
  - `config.rs`, `cli.rs`: configuration, report filters and the exit
    decision.
  - `output/`: the human-readable text and the SARIF document.
- `app/` is the command-line program around the library: argument parsing,
  reading the configuration file, workspace discovery through
  `cargo metadata`, reading source files and building the syntax model
  from `syn`'s tree, running cargo, and printing.
- `tests/` exercises the library.
