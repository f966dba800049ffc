# umber_lang

The front end of the Umber compiler as a verified Verus library, and a small
command line around it.

## Layout

- `src/` — the library. Every function in it is verified, except five
  small wrappers around outside calls (`String::push`, `Path::parent`,
  `Path::join`, and `regex`'s `Regex::new` and `Regex::replace_all`) whose
  contracts are trusted.
  - `position`, `token`, `error`: source positions, tokens and errors.
  - `values`: the type system — each type, the operators and casts it
    allows, and operand sizes; `values::vtype` and `values::types` hold the
    first, smaller type system.
  - `nodes`: the syntax tree, with a value (`SpecNode`) for each node.
  - `parser`: the recursive-descent parser. `parser::rules` states the
    grammar as functions on token sequences; each parsing function is proved
    to compute what its rule says. An `import` is looked for like an
    include, among the files (already read and lexed) that the caller hands
    it; a file met again under any path is not imported twice.
  - `semantics`: the validator, which gives each node its type and rewrites
    it for the code generator; `spec_validate` states what it computes.
  - `preprocessor`: comments, `#include` and `#macro`. An included file is
    looked for next to the including file, then in each include directory;
    the caller reads the files it asks for into an include table.
  - `paths`: where an included file or an imported module is looked for.
  - `runtime`: a small stack machine and the assembler for its text form.
  - `symbol_table`, `symboltable`: symbols and chained symbol tables.
  - `syscall`: target object formats and system call numbers.
  - `results`: the results that parsing and validation hand between
    functions.
- `tests/` — tests on concrete inputs.
- `app/` — the command line: argument handling, file reading, and the loop
  that feeds the preprocessor the files it asks for.

## Outside crates

- `regex` compiles macro names as patterns and replaces them in lines;
  the library calls it through two trusted wrappers in `preprocessor`.
- `clap` parses the command line in `app/`.
