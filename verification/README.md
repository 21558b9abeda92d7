# rrelayer_core

The verified core of an EVM transaction relayer. The library decides what
each pass of a relayer's queue processors does (send, wait, back off, fail a
stuck noop, bump fees, settle a mined nonce, confirm), how a queued
transaction is cancelled or replaced in the mempool, which addresses the
automatic top-up task funds and with what, and what the setup configuration
must hold. Every decision is a function with a Verus contract; the I/O that
feeds it (chain, database, disk, clock) happens around the library.

Layout:

- `src/` — the library, verified with Verus:
  - `process_result.rs` — the outcome of a processor pass and the send-error backoff;
  - `primitives.rs`, `transaction.rs`, `text.rs` — addresses, 256-bit values,
    the transaction record and its typed-transaction forms, text helpers;
  - `queue.rs` — the pending, in-mempool and mined processors;
  - `editing.rs` — cancel, replace, and rebuilding competitions after a restart;
  - `sending.rs` — queuing a new transaction;
  - `config.rs`, `startup.rs` — the setup configuration and what start-up derives from it;
  - `top_up.rs` — the automatic top-up task;
  - `webhooks.rs`, `errors.rs` — webhook payloads and start-up errors.
- `tests/` — tests of the library.
- `app/` — reading the setup file from disk in its YAML form.
