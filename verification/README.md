# p2p_contract

A verified library for a peer-to-peer escrow program on Solana: sellers post
offers of tokens (or SOL) for fiat, buyers take orders against them, the
amount of each order is held in the pool's escrow until the seller (or the
pool's owner) confirms it, paying the buyer less the pool's fee, or someone
with a say cancels it and the seller gets it back.

- `src/` is the library, verified with Verus: the account data (`state`),
  the accounts of each instruction (`accounts`), the decisions of each
  instruction (`program`), the token and system calls they ask for (`utils`,
  `cpi`, which builds the instructions through `spl-token` and
  `solana-program`), and the laws that hold across them (`laws`).
- `app/` is the Anchor program around it: entry points, account constraints,
  on-chain account types, and the code that performs the calls and lamport
  moves the library asks for.
- `tests/` runs the library on concrete accounts.
