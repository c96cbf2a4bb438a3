# lottery

The rules of a ticket lottery that runs as a Solana program, verified with Verus.

- `src/` is the library. `state` holds the accounts (the global account, a lottery, a
  buyer's ticket count, a ticket); `instructions` holds one module per group of
  instructions, each stating in its contract which check refuses a call, what the call
  changes, and which tokens it moves; `randomness` reads ORAO VRF randomness accounts and
  draws digits from them; `laws` proves properties that span instructions (the lifecycle
  of a lottery, single deposits and confirmations, how an unwon prize pool is burned and
  carried over, ...).
- Where an instruction would stop the program (an overflow, a negative clock, a
  randomness that is not fulfilled yet), its handler leaves that input out by `requires`,
  and a `try_` function beside it answers `None` there.
- `app/` is the Anchor program around the library: it loads and checks the accounts,
  performs the token transfers, burns and randomness requests that the library's answers
  call for, and emits the events.
- `tests/` runs the library on concrete accounts.
