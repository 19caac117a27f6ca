# rt-evm-model

Transaction and executor model types of an EVM chain, written in Verus.

- `src/primitives.rs`: 256-bit integers and fixed-size hashes, with their views.
- `src/crypto.rs`: Keccak-256 (through `sha3`) and secp256k1 key recovery (through `secp256k1`).
- `src/rlp_stream.rs`: RLP encoding through the `rlp` crate's `RlpStream`, modelled as a tree of items.
- `src/transaction.rs`: transaction kinds, gas accounting, signature components with replay protection,
  the encoding of each kind, hashes, signer recovery and signed transactions.
- `src/executor.rs`: execution results and the block context.
- `src/laws.rs`: properties that relate several of these operations, proved.
- `app/`: conversions to and from the `ethereum`, `evm` and `ethereum-types` types, and copies of the
  model types that carry serde and RLP derives.
