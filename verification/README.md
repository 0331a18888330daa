# starknet_hashing

Hash computation, hash memoization and execution metrics for Starknet
transaction execution, written in Verus with their behaviour stated in
contracts and proved.

- `src/` is the verified library:
  - `felt`: field elements as 32-byte big-endian encodings, and the
    arithmetic facts about that encoding;
  - `core_types`: addresses, storage keys, selectors, gas and fee values;
  - `primitives`: Keccak-256 and the Pedersen hash;
  - `hash_cache`: bounded memoization of hashes, switched on and off;
  - `hash`, `abi_utils`: Starknet-Keccak, entry point selectors and
    storage variable addresses, through the caches;
  - `hash_metrics`, `timing`: counters of hash calls, state accesses and
    their durations between a start and a stop;
  - `storage_agg`, `storage_agg_log`, `hash_agg_log`: per-transaction
    aggregation of storage accesses and hash figures;
  - `hardcoded_constants`: fixed fee and gas figures of one transaction
    kind.
- `app/` holds the process-wide and thread-local state, reads the
  environment switches and writes the log lines.
- `tests/` exercises the library with the real outside crates.
