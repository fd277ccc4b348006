# gamebooster

The verified core of GameBooster, a desktop utility that launches games with
reversible power-plan settings and restores the original plan when the game exits.

- `src/` is checked by Verus:
  - `text`: character-level string helpers (ASCII case folding, splitting, lines).
  - `power`: finding and checking power-scheme GUIDs, and the steps of reading,
    switching and restoring the active scheme.
  - `steam`: reading Steam manifests and library lists, and choosing a game's executable.
  - `rules`: the checks on profiles and on games added by hand.
  - `session`: the steps of launching a game and the records of how a session ends.
  - `model`: the records the library works on.
  - `laws`: properties proved across these functions.
- `tests/` runs the library on concrete values.
- `app/` holds the database, the `powercfg` and file-system calls, and the command handlers.
