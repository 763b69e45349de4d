# ckb-testtool, verified

A testing context for CKB contracts. The library under `src/` holds deployed cells,
headers and block extensions; builds scripts that point at deployed code; fills in the
cell dependencies that a transaction's scripts need; resolves a transaction's inputs and
dependencies (dep groups included) against the cells it holds; and records a transaction
as a mock transaction for the CKB debugger. Each of these operations carries a contract
that Verus proves, and `src/laws.rs` and `src/complete.rs` prove properties that span
operations (what a context gives back of what was deployed, created or inserted; that
completing a transaction twice is completing it once; that deterministic contexts deploy
code at the same out point).

Layout:

- `src/types.rs`: out points, scripts, cells, transactions, headers, each with the
  mathematical value it stands for.
- `src/table.rs`: the finite maps a context is made of.
- `src/primitives.rs`: the calls into `ckb-types`, `ckb-chain-spec` and `rand` (hashes,
  occupied capacity, random and seeded generators, out point vectors), with their
  trusted contracts.
- `src/context.rs`, `src/complete.rs`, `src/resolve.rs`, `src/tx_verifier.rs`,
  `src/simulator.rs`: the context and its operations.
- `app/`: what reaches outside the library: reading contract binaries and the
  environment, running the CKB script virtual machine and native simulator libraries,
  and converting between the library's values and `ckb-types`.
