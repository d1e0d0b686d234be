# backend

The fishing game's backend, split in two:

- `src/` — the verified library (Verus). Herb's daily quest (rollover time,
  quest generation from the fish catalog, acceptance and hand-in rules), the
  relative inventory updates, trades, mission rewards, stats rules and account
  preparation. Ids are plain `u128` values and times Unix seconds.
- `app/` — the HTTP server (Rocket), database access (SeaORM on PostgreSQL),
  the catalog file loading and the background tasks. It reads, asks the
  library what to answer and write, and writes.
- `tests/` — tests of the library on concrete values.

The fish catalog is read at start-up from `fishes.json` (or the path in
`FISHES_JSON`).
