# feedback

A feedback board on Soroban, with its indexer.

- `src/` is the verified library (Verus). `contract.rs` holds the contract's
  functions with contracts stated over a model of its storage and events
  (`FeedbackState`); `storage.rs` and `events.rs` hold the storage layout and
  the events; `host.rs` declares the Soroban types and the trusted calls into
  the host; `indexer.rs` holds the indexer's decisions on plain values, with
  `encoding.rs` for hexadecimal and UTF-8; `laws.rs` proves the properties that
  span calls.
- `app/` holds the Soroban contract entry points (`#[contract]`) and the Zephyr
  indexer programs, which read and write through their hosts and call the
  library.
- `tests/` runs the library against a Soroban test host.
