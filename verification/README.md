# Game data tables, verified

A library of the game data tables that a world server reads at start-up:
the typed rows of the client tables and of the world and hotfix databases,
the stores that index them, and the lookups and load-time validations
performed on them. Every function carries a contract that Verus proves,
except one trusted wrapper: `game_tele::normalize_game_tele_name_like_cpp`
calls `str::to_lowercase`, and its contract (the result is the lowercase
mapping of the name, named `lowercased`) is believed, not proved.

## Layout

- `src/db2_index.rs`: the `Keyed` rows and the by-id index that most stores
  are built on (`index_by_key`: the last row with an id wins).
- `src/predicates.rs`: the pure lookups (`Fn(u32) -> bool` and the like)
  that loaders take to ask whether a referenced row exists.
- One module per table family (`item_*`, `mount`, `phase`, `phasing`,
  `quest`, `quest_xp`, `reputation`, `player_choice`, `player_condition`,
  `hotfix_cache`, ...). Each holds the rows, the store, its model (a `View`
  of maps and sequences) and the laws that the store keeps.
- `tests/`: one file per module, on concrete values.

## Conventions

- Loaders take the rows that were read (from a table file or a database
  query) in the order they were read; reading them is left to the caller.
- Single-precision values are kept as their bit patterns (`u32`), and
  decisions on their sign are made on those bits.
- Where a store is rebuilt from a hash map, the order in which the map is
  walked is not fixed; contracts then state what holds for every order.
