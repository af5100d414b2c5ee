# citum_core

A verified library for CSLN citation styles: the style schema (templates,
options, presets, references, embedded styles) and the passes that turn
CSL 1.0 node trees into CSLN templates. Verus proves the library's
functions against their contracts, with one exception: eight small
trusted wrappers (`#[verifier::external_body]`) that make the calls into
outside crates (`url`, `indexmap`, `roxmltree`) and `String::push`. Their
contracts are believed rather than proved; each one's doc comment says
what it claims.

Layout of `src/`:

- `template.rs`, `template_view.rs` — template components and their
  contents as sequences and string views, the model the passes are
  stated over.
- `options/`, `presets.rs`, `preset_detector.rs` — style options, named
  presets, and the detection of presets from explicit options.
- `reference/` — CSL-JSON references and their conversion to input
  references (URLs parsed with the `url` crate).
- `template_compiler/` — compiling node trees into templates: collecting
  occurrences per branch, merging them (grouping with `indexmap`), the
  older merge-as-you-go path, type-specific templates and their
  selection, and template equality by contents.
- `passes/` — deduplication, grouping, reordering and type overrides.
- `template_checks.rs`, `migration.rs`, `template_resolver.rs` — the
  checks and decisions taken around resolved templates.
- `citation_analysis.rs` — the CSL 1.0 node model, and the citation
  delimiter and wrapping read off a citation layout.
- `bibliography_analysis.rs` — the author suffix and the name conjunction
  read off a bibliography and set on its author components.
- `xml.rs` — style texts parsed into XML trees with `roxmltree`.
- `embedded/` — built-in style names and priority templates.
- `provenance.rs`, `debug_output.rs` — provenance tracking of variables.

Public proof functions named `law_*` state properties that span
functions. `tests/` exercises the library on concrete values.
