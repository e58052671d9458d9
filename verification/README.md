# gardenfight

The rules of a garden boss fight, written in Verus and proved against their
contracts.

- `src/` is the verified library: combat layers and hits, the boss's health
  stages and its enraged attack cycle, animation frames, summons, coin drops,
  the boss's abilities and the state-machine transition tables.
  Each module ends with the laws it proves about its rules.
- `tests/` runs the library on concrete values.
- `app/` holds the Bevy plugins (systems, components, assets, physics) that
  drive a game with those rules; it is ordinary Rust and is not verified.
