# axia_kit

Logic of the Axia runtime and bridge relays, with machine-checked contracts and proofs.

- `src/xcm.rs` – the XCM (version 2) locations, assets and instructions that the barriers read.
- `src/barriers.rs` – the execution barriers of the XCM executor, and the laws they obey.
- `src/weights.rs` – database weights and the benchmarked weights of the vesting pallet.
- `src/scale.rs` – the SCALE decoding and encoding the relays use, done by `parity-scale-codec`.
- `src/relay.rs`, `src/rialto_client.rs`, `src/messages_target.rs` – how the relays read
  node replies, what they send along with queries, and how submissions are reported.
- `src/chains.rs` – chain definitions and runtime method names.
- `app/` – the trait implementations the runtime and relays expect, and the RPC calls.
- `tests/` – tests on concrete values.
