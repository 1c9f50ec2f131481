# dcdt_safe

The token safes of a cross-chain bridge between a main chain and sovereign chains,
written as verified state machines over a model of their contract storage.

- `src/store.rs`, `src/storage.rs`: storage areas with contract-storage semantics and the
  storage shared by the safes.
- `src/drt_dcdt_safe.rs`, `src/sov_dcdt_safe.rs`, `src/testing_sc.rs`: the contracts'
  endpoints, each a function from state and request to new state or refusal.
- `src/execute_common.rs`, `src/register_token.rs`, `src/config.rs`: the shared modules;
  calls to other contracts are returned as values for the caller to send.
- `src/laws.rs`: properties that span several endpoints.
- `app/lib.rs`: conversions between the chain framework's managed types and plain values.
