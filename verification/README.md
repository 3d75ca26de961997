# reclaim-cosmwasm

A CosmWasm contract that verifies Reclaim Protocol proofs on-chain, with its
logic written and proved in Verus.

- `src/` — the verified library:
  - `text.rs`: decimal rendering, `0x` prefixes, hex encoding/decoding (through the `hex` crate).
  - `hashing.rs`: Keccak-256 (`sha3`) and SHA-256 (`sha2`).
  - `ecdsa.rs`: secp256k1 public-key recovery (`k256`).
  - `claims.rs`: claims, their hash and serialisation, EIP-191 message hashing, signer recovery.
  - `state.rs`: configuration, witnesses, epochs, Ethereum address validation.
  - `event_builder.rs`: responses and events as plain data.
  - `contract.rs`: witness selection, proof verification, adding epochs, instantiation.
  - `msg.rs`: the messages and query answers.
  - `properties.rs`: properties relating the operations to each other.
- `app/` — the contract's entry points, storage (`cw-storage-plus`, `cw2`) and the
  serialisable copies of the message types.
- `tests/` — tests of the library.
