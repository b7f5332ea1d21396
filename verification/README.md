# trustledger

A double-entry ledger with two-phase holds, a micro-batching ingress, a
replicated state machine, Merkle Mountain Range settlement proofs and a
payments demo service, verified with Verus.

## Layout

- `src/ledger_core` — accounts, amounts, identifiers, transfers, the ledger
  and its journal. The ledger's state is modelled by spec functions
  (`model.rs`); every operation is proved against them, and `laws.rs` states
  what holds of every ledger: the journal replays to the state, value is
  conserved, pending holds are covered, prepared events commit.
- `src/ingest` — converting wire requests into ingress operations, timestamp
  allocation, micro-batch planning and answering, error mapping.
- `src/raft` — client requests of the replicated ledger, the state machine
  that applies committed log entries and installs snapshots, the in-memory
  log store, the simulated network's fault model and the proposal retry
  decisions.
- `src/merkle` — SHA-256 leaf and node hashing, the canonical leaf records
  of transfers and journal events, the Merkle Mountain Range and its
  inclusion proofs.
- `src/observability` — counters, gauges and their text exposition.
- `src/demo` — the payments service: payment lifecycle, idempotency keys,
  webhook signatures and replay protection, settlement rails,
  reconciliation and the dashboard page.
- `app/` — the HTTP server, serialization, the write-ahead engine loop and
  floating-point metrics, around the library.
- `tests/` — tests of the library through its public interface.

SHA-256, HMAC and the postcard encoding of leaf records come from the
`sha2`, `hmac` and `postcard` crates, through small trusted wrappers whose
contracts name their results.
