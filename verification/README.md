# warrant_spec

The namespaces of Warrant OS (crypto, lineage, warrant, capability, ledger,
kernel, vault, mesh, registry, run, mind) as types and rules whose behaviour
is stated in contracts and proved.

- `src/` — the verified library. Hashes are BLAKE3 (through the `blake3`
  crate) and signatures Ed25519 (through `ed25519-dalek`); both calls sit
  behind small trusted wrappers in `src/crypto.rs` whose results are named,
  not restated.
- `tests/` — tests on concrete values.
- `app/` — serde-carrying copies of the library's types with conversions in
  both directions, and the `Display` / `Debug` forms built from the
  library's text methods.
