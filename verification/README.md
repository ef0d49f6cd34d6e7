# oxfml_core

Formula binding and its consumers for a spreadsheet formula language,
written in Verus: every executable function states what it returns in its
contract, and Verus proves it.

Layout of `src/`:

- `text`, `offsets`: character classes, case folding, decimal text, trimming
  and splitting; UTF-8 byte offsets of characters, since spans count bytes.
- `source`, `syntax`, `interface`: formula sources and spans, green syntax
  trees, table descriptors and library context snapshots.
- `binding`: the binder from a green tree to a bound expression with its
  normalized references, dependency seeds, unresolved references and
  diagnostics (`binder`, specified in `binder_spec`); A1 and R1C1 reference
  text (`parse`); structured table references (`structured`); reference
  profiles; context fingerprints and expression hashes (`fingerprint`).
- `captures`: the free references of a bound expression, those no
  enclosing `LAMBDA` parameter or `LET` name shadows.
- `carrier`: restrictions on formulas of conditional formatting and data
  validation rules.
- `consumer::editor`: composing the text of host references.
- `consumer::runtime`: host reference syntax matching (`host_syntax`) and its
  projection into formula text (`projection`), template holes and formal
  references (`formal`), cache identities (`identity`), prepared formula
  packages (`package`), the identity of a prepared formula, built from a
  plain summary of its semantic plan (`prepare`), metadata version
  summaries (`versions`), the
  expression reader behind drill traces (`drill`), and formula requests,
  generic over the typed context they query.
- `consumer::replay`: the sources replay projections are read from.
- `eval`: the evaluation vocabulary and the address text it reads and
  writes: A1 labels, local areas, callable profiles.

Three things are trusted rather than proved: hashes use std's
`DefaultHasher` through one wrapper (`binding::fingerprint::hash_text`),
whose result is named, not described; Unicode letter classes come from
`char::is_alphabetic` and `char::is_alphanumeric` through two wrappers in
`eval`, also named; and `String::push` has its contract stated in `text`.
`tests/` exercises the library on concrete values.

Not here: the editor and language service, the runtime environment and
session facade, replay projection, and evaluation. They rest on the
function library crate and on parser, semantic-plan and session modules
that are not part of this project's sources, so they can stand neither in
`src/` nor in a program around it.

Hashed identities (context fingerprints, bind hashes, cache identities,
prepared formula keys) hash the library's own canonical text of a value,
not Rust's `Debug` rendering of it, so their values are this library's
own.
