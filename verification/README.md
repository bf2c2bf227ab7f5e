# dmc3_randomizer

The decision logic of a Devil May Cry 3 client for the Archipelago multiworld randomizer,
written in Verus: the functions of `src/` carry contracts that Verus proves, except for a few
trusted items, whose contracts Verus believes without proof: the wrappers around the
`bimap::BiHashMap` calls in `item_map` and around `rand`'s random pick in `hint`.

`src/` is the library:

- `constants`, `item_map`, `tables`: the item table, names and ids (looked up through a
  `bimap::BiHashMap`), event scripts' item ids and event tables.
- `game_structs`: the game's session, mission, character and ranking records as plain values.
- `game_manager`, `skill_manager`: what was received (with its caps as a type invariant), and how
  it is written into the game's records: weapons, health and magic, gun and style levels,
  skills, location-check flags.
- `receive`: what each received item counts for and what the game is told about it.
- `mapping`: the seed's settings and the parsing of their numeric options.
- `location`, `hooks`, `store`: which location a pick-up, a mission result or a purchase stands
  for, and the decisions of the game hooks (open missions, new games, event scripts,
  Adjudicators, the shop).
- `atlas`: packing rasterized glyphs into one RGBA texture atlas.
- `connection`, `hint`, `tracker`, `bank`, `sync`, `cache`, `config`, `ui`: the client's
  connection decisions, the Bloody Palace hint game, tracker data, the item bank, save-slot
  sync data, the cached data package, settings and window texts.
- `strings`: comparison, decimal formatting and search on strings.

`app/` holds what Verus does not see: the serde copies of the settings, slot data and sync file,
the files themselves, the loops that apply a received-items packet, a new game and a room change
to the game's records, and
the loop that feeds connection events to the library's `connection::step` and carries out what
it answers.
