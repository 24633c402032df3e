# tdp_solana

Token vesting streams, with their rules verified by Verus.

- `src/` is the verified library: the stream record (`state.rs`), the error
  codes (`error.rs`), one module per instruction under `src/instructions/`
  (create, withdraw, cancel, close, set milestone), each a function from the
  stream and the request to the next stream and the token transfers to make,
  and `laws.rs`, the properties proved across instructions (vesting grows
  with time and stays within the deposit, a withdrawal claims exactly what
  unlocked, a cancellation splits the escrow exactly, a canceled stream is
  settled and final, a milestone stream unlocks only once triggered).
- `app/` is the Anchor program around it: account validation, the clock,
  and the SPL token transfers the library decides on.
- `tests/` runs the library on the schedules and flows of the program.

Schedules: a `Linear` stream has its cliff at its start, a `Cliff` stream has
its cliff at its end, and stream creation refuses a cliff strictly inside the
schedule (`InvalidCliff`). The vesting formula itself handles any cliff
between start and end (nothing before the cliff, then the linear share since
the start). A `Milestone` stream unlocks its whole deposit once the creator
marks the milestone reached and the clock has reached its `milestone_time`.
