# greentic-types

Shared data types for the Greentic platform (tenancy, invocation envelopes,
flows, packs, policies, sessions, state paths, i18n identifiers and canonical
CBOR), written in Verus with their behaviour stated as contracts and proved.

Layout:

- `src/` — the verified library. Each module states a mathematical model of
  its types (spec functions and views) and proves the executable code against
  it. Calls into outside crates (ciborium, blake3, serde_json, indexmap,
  semver, time, unic-langid, uuid) sit behind small trusted wrappers in
  `src/foreign.rs`, `src/cbor/canonical.rs`, `src/i18n.rs`, `src/flow.rs`,
  `src/session.rs`, `src/run.rs` and `src/text.rs`, each with a doc comment
  saying what it assumes.
- `src/*` laws (`law_*` proof functions) state what holds across calls:
  round trips of base32, source references, state pointers, policy
  decisions and version strategies; canonical CBOR being a fixed point;
  idempotency key shape.
- `tests/` — executable tests run against the compiled library.
- `app/` — serde, time and CBOR glue that needs derives or traits of outside
  crates, converting to and from the library's own types.
