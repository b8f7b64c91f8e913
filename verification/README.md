# polkadot_logic

Verified logic of the Polkadot relay chain runtime, written in Verus.

- `src/xcm.rs` — the cross-consensus message error type, execution outcomes
  and the locations and messages that routing passes along.
- `src/routing.rs` — senders (`SendXcm`), executors (`ExecuteXcm`), the
  weight traits, and the laws of chaining senders.
- `src/tuples.rs` — tuples of up to thirty senders or clean-up schedulers.
- `src/fee.rs` — the targeted fee multiplier update, on `sp_arithmetic`'s
  fixed-point and per-quintill arithmetic.
- `src/currency.rs` — conversion between balances and votes.
- `src/cleanup.rs` — the `ParachainCleanup` trait and the order in which a
  parachain's state is cleaned up.
- `app/lib.rs` — SCALE-encodable copies of the message types.
