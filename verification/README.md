# mev_bundle

Validation and flattening of nested MEV bundles, and the decisions of a
bundle simulation, verified with Verus.

- `src/types.rs`: the request types (bundles, inclusion ranges, refunds,
  privacy settings, block overrides) and their views.
- `src/parser.rs`: `flatten_bundle`, specified by `flatten_spec`: the checks
  of each bundle in order, then its items in order, stopping at the first
  error.
- `src/executor.rs`: what the native executor is handed for a bundle and how
  its report is read.
- `src/sim.rs`: the simulation timeout, the conversion of flattened items,
  header overrides and the response.
- `src/laws.rs`: properties of flattening proved for every bundle.
- `src/external.rs`: alloy's transaction decoding, signer recovery and
  encoding, behind contracts.
- `app/`: the JSON forms, the native executor binding and the RPC handler.
