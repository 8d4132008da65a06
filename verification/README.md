# spec_core

The validation core of the `spec` workflow and its semantic-family tooling, written
in Verus: every function in `src/` carries a contract that Verus proves.

## Layout

- `src/text.rs`, `src/unit_ref.rs`, `src/model.rs`, `src/errors.rs`: text helpers,
  dependency references, the authored unit model and the diagnostics.
- `src/rust_syntax.rs`: what authored Rust fragments must look like (syn's grammar
  through trusted wrappers, the bounded `local_tests.expect` shape, the `unsafe`
  token scan).
- `src/validator.rs`, `src/seam.rs`, `src/graph.rs`, `src/molecule.rs`: semantic
  validation of units, `data`/`sum` seams, the dependency graph (identities, missing
  deps, depth-first cycle detection) and molecule tests.
- `src/typescript.rs`: the bounded TypeScript execution lane: the closure walk from a
  target, its families' dependency contracts and the shape of its local tests. The
  semantic review of each unit is an input.
- `src/family/`: semantic-family packets: ids and paths, manifests and routing,
  promotion artifacts and their validators, recommendation and coverage analysis,
  the decision contract and its verifier, certification reports and gate flow,
  inventories, harnesses, scaffolding and packet layout.
- `tests/`: the tests, run against the compiled library.
- `app/`: a command-line front end that reads a packet from disk and reports on it.

Trusted items (calls into `syn`, `serde_json`, `sha2` and a few `std` functions) are
marked `#[verifier::external_body]` and say in their doc comments what they assume.
