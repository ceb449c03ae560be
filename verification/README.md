# forge_solana

The logic of the ArenaForge Solana program, verified with Verus.

- `src/` is the verified library. Each instruction handler takes a context
  holding the account data it reads, the lamport balances it checks and the
  clock, updates that context, and returns the lamport moves to carry
  out: system-program transfers (with the seeds to sign them) out of
  signers and the reserve vault, and direct debits out of the battle
  accounts this program owns. Every error is stated exactly, and an error
  leaves the context unchanged.
  - `address`, `state`: account addresses and account data, with their
    well-formedness predicates.
  - `system`: the system-program instructions, built by `solana_program`.
  - `transfer`: system transfers, direct debits and program-derived signer seeds.
  - `payout`: basis-point shares, winner choice, rake and pro-rata payouts.
  - `admin`, `registry`, `battle`: the instruction handlers.
  - `laws`: properties that span handlers (solvency of claims, escrow,
    the battle invariant over any sequence of calls, a resolution is
    final and freezes the battle, bounds on rewards and sweeps).
- `app/` is the Anchor program around it: account validation, clock and
  balance reads, the rent computation, and the cross-program invocations.
- `tests/` runs the library on concrete values.
