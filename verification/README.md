# nftx

A CosmWasm contract that wraps NFTs into fungible vault tokens: an NFT sent
with "Create Vault" opens a vault and instantiates its vault token, later NFTs
of the vault's NFT contract deposited into the vault mint one vault token each,
and one vault token sent back is burned and takes a named NFT out of the vault
and to its sender.

- `src/` is the verified library: the contract's state (`state.rs`, with the
  string-keyed map of `str_map.rs`), its messages and answers (`msg.rs`,
  `response.rs`, `error.rs`), the state machine it implements (`model.rs`), the
  entry points proved against that state machine (`contract.rs`), and the laws
  that hold across messages (`laws.rs`).
- `app/` holds the chain's entry points: it reads the storage into the
  library's state, decodes the JSON messages, runs the library, writes the state
  back and encodes the answers.
- `tests/` runs the library on concrete scenarios.
