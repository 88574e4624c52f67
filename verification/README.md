# slo_slicer

A validator for OpenSLO YAML documents (SLOs, SLIs, alert policies, alert
conditions, notification targets, data sources and services), written in Verus.

- `src/` is the verified library: the document model, the rules that each kind
  of document must satisfy, the resolution of references between documents by
  name, and the report printed for each file. Every rule is stated as a spec
  function (`errors`, `check`) and each `validate` is proved to record exactly
  those errors, in order. `src/laws.rs` states properties that span functions.
- `app/` is the command line (`slo-slicer validate <path> [--recursive]
  [--quiet]`): it finds the files, reads YAML with serde into copies of the
  library's types, hands them to the library and prints the result.
- `tests/` runs the library on concrete documents.

Numbers of the documents are held by the library as exact decimals
(`number::Number`); the command line reads them as `f64` and passes the
decimal text that Rust prints for them, so comparisons with the whole-number
bounds of the rules agree with floating point.
