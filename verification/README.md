# chained_universe

The rules of an on-chain space strategy game (planets, production, buildings, research,
shipyards, fleets and missions, combat and espionage, quests, a store, alliances, vault
delegation, a player market and sealed private state), written in Verus and proved against
their contracts.

- `src/` is the verified library. Each module states its rules as spec functions and proves the
  executable code against them; `src/laws.rs` states and proves what holds across calls
  (a sale splits exactly, production respects storage caps, an offer or a listing sells once,
  a store pack or an alliance deposit mission is taken once per day, week or month, a claimed
  quest reward or check-in is refused when claimed again, a revoked delegation lets nobody act,
  an attack never adds to either side's ships and a returning fleet unloads once, and more).
  The `system_*` modules and `components.rs` hold the entity-component systems.
- `app/` is the thin runtime glue: account (de)serialisation, the clock, token transfers (the
  alliance deposit's ANTIMATTER payment and a sale's payout among them), a sold planet's handover
  and error conversion.
- `tests/` runs the library on concrete values.

The runtime's program-address derivation (from which associated token accounts are derived
too) is the only trusted item; its doc comment states what it assumes.
