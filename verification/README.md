# nebgov

Verified core of the NebGov governor factory, written in Verus.

- `src/` — the library, verified by Verus: the factory's state machine
  (`factory.rs`), deployment salts (`salt.rs`), the integer square root used
  for quadratic voting (`isqrt.rs`), a mock voting-power source
  (`mock_votes.rs`) and the liquidity contract's error codes (`liquidity.rs`).
  Each public function states its result exactly; the `law_*` proof functions
  state properties that relate several operations.
- `app/` — the Soroban contract around the library: it loads the factory's
  storage into the library's model, asks the library what to do, performs the
  deployments and cross-contract calls, writes storage back and publishes the
  events (including the liquidity and timelock event helpers).
- `tests/` — executable tests of the library.
