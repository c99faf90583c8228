# safe_lend

A peer-to-peer token lending program for Solana, split in two:

- `src/` is a Verus-verified library. It models the program's accounts as plain
  data (`state.rs`), states what each instruction writes to them and which token
  transfers it asks for (`instructions/`, `safe_lend.rs`, `transfer.rs`), and proves
  properties that tie the instructions together over a loan's life (`laws.rs`).
- `app/` is the Anchor program around it: account validation, conversion between
  Anchor's account types and the library's, the clock read, and the token-program
  calls that carry out the transfers the library returns.
