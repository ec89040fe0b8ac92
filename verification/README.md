# gacha

A gacha pool with soft and hard pity.

- `src/` is the verified library: the pool's shape and its validation
  (`types.rs`), the bookkeeping of pulls (`PoolState`), the rule that sets the
  chance of the next jackpot and the run of chances while pulls miss
  (`chance.rs`), and the pieces of the browser engine that are not I/O:
  building a pool from a configuration, reading a seed, naming a tier
  (`config.rs`). The proofs that pity keeps its promise stand in `chance.rs`.
- `app/` turns chance rules into `f32` probabilities, draws random pulls, and
  holds the command-line demo and the JavaScript-facing engine.
- `tests/` runs the library on the example pool of 30 items.
