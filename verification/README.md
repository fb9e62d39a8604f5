# near_contract_standards (NTNFT)

A Verus library for the non-transferable NFT (NTNFT) contract standard.

- `src/types.rs`: account names, balances, hashes, the JSON-safe `U128`.
- `src/ntnft/`: the core and enumeration interfaces, the token record, the
  storage-deposit refund rule and account-id hashing (`utils.rs`).
- `src/store/lookup_set.rs`: a storage-backed set that records its writes
  until they are flushed.
- `src/crypto.rs`: the SHA-256 call into the `sha2` crate.
- `app/`: the chain-facing side: the call environment that refunds read and
  act on, the JSON forms of the tokens, and the delegation macros.
