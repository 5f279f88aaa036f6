# bratch

A regression-signature lookup library, verified with Verus.

- `src/taxonomy.rs`, `src/verdict_class.rs`: the closed sets of regression
  signatures and verdicts, their published names, parsing, and the exit code
  of each verdict.
- `src/substrate_input.rs`: `baseline..candidate` revision ranges and the
  diff/history input check.
- `src/corpus_index.rs`: building the signature-to-directive index from corpus
  entries, and resolving a signature.
- `src/compare.rs`: the `compare` request: input, reason and signature checks,
  then the directive.
- `src/error.rs`: errors, their classification into exit codes, and their text.
- `src/cli.rs`: the plain argument types.
- `app/`: command-line parsing (clap), serde, error display, process exit
  statuses, signed-corpus loading and the fixture-corpus generator.
