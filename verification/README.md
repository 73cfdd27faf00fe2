# cmakefmt

A CMake formatter whose parsing, layout and reporting logic is written in
Verus: each function of the library states what it computes in `requires` /
`ensures` clauses over mathematical models, and Verus proves the code meets
them.

## Layout

- `src/` — the verified library.
  - `parser.rs`, `ast.rs`: the CMake grammar as a function on characters,
    and the syntax tree with its model.
  - `node.rs`, `comment.rs`, `formatter.rs`, `regions.rs`: command layouts
    (inline, hanging wrap, vertical), comment reflow, whole-file formatting,
    and disable regions kept as written.
  - `config.rs`, `config_file.rs`: the configuration, config files applied
    closest-last, and `.editorconfig` fallbacks.
  - `spec.rs`, `registry.rs`, `builtins.rs`, `overrides.rs`: command specs,
    the registry, the built-in command table (as code and as values), and
    user overrides merged into it.
  - `semantic.rs`: the semantic skeleton two files are compared by.
  - `diff.rs`, `report.rs`, `diagnostics.rs`, `dump.rs`: changed lines,
    unified diffs, summaries, machine reports, error rendering, AST dumps.
  - `cli.rs`, `run.rs`: the decisions of a command-line run, including the
    file filter and the listing of commands the registry does not know.
  - `lsp.rs`: the language server's document store and edits.
- `app/` — the program around the library: argument parsing, file
  discovery and I/O, config file parsing, the language server loop, watching.
- `tests/` — tests of the library.

## Design notes

- **What formatting states.** `format_source` returns the layout of the
  parsed source, pinned to the `formatted_source` spec. Laws proved of it:
  the output ends with a newline, blank-line runs are capped, disable
  regions and standalone comments stand in it (reflowed comments keep their
  words in order). That the layout re-parses to the same program and is a
  fixed point is not proved; `--verify` checks the first at run time. The
  output does not depend on which value of the built-in registry is used
  (`lemma_builtin_registries_format_alike`).
- **Keyed collections.** Command tables, forms and keyword lists are `Vec`s
  of key/value pairs with insertion-ordered keys: a repeated key keeps its
  first place and takes the later value (`keyed_put`), and lookups take the
  first entry with a key. Their values are the library's own spec types,
  which the contracts describe through their models (`commands_model`,
  `spec_model`); held in `Vec`s, every entry stays visible to them, which an
  opaque ordered map would hide. Per-command config overrides are kept in the order
  they were applied, and a lookup takes the last one
  (`lemma_later_entry_wins`). The language server's open documents keep each
  URI once, as a type invariant.
- **Built-in commands** are written out as code in `builtins.rs`, with the
  same table as values (`builtin_table`) that the registry's contract pins.
- **Config subcommands.** `config` offers `dump`, `check`, `path` and
  `init`. There is no `show`, `explain`, `schema` or `convert` subcommand:
  the effective-config rendering, JSON schema and legacy-config conversion
  they would need are not part of this project.
