# Security Token program, verified

A Solana program for regulated security tokens on Token-2022: mints with a permanent
delegate, a transfer hook, pausability and optional metadata; verification of each
instruction by configured verification programs or by the mint's creator; and corporate
actions (splits, conversions at a rate, distributions claimed against a Merkle root).

- `src/` is the library, verified with Verus: instruction argument layouts and their
  round trips, account layouts, the checks and decisions of every instruction (which
  accounts it needs, what it reads from them, what it will do), Token-2022 extension
  parsing, instruction data for the calls the program makes, and the Merkle proofs.
  Program addresses, Keccak hashing, UTF-8 decoding and the size of the transfer hook's
  extra account metas are called through a few trusted wrappers whose contracts are stated
  in `src/utils.rs`, `src/merkle_tree_utils.rs`, `src/bytes.rs` and
  `src/modules/config_management.rs`.
- `app/` is the on-chain program around it: the entrypoint, reading the runtime's
  accounts into plain values, and the cross-program calls the library decides on. The
  entrypoint does not dispatch distribution claims; their decisions stand in `src/`
  (`OperationsModule::plan_claim_distribution`).
- `tests/` runs the library on concrete accounts and arguments.
