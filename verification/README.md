# sengoku

Rules of a turn-based Sengoku strategy game, verified with Verus.

- `src/` — the library: provinces (`kuni`), their stock (`resource`),
  domestic commands, the battle table (`battle_service`), the seasons
  (`turn_service`), the game state with its order of action
  (`game_state`), the turn machine with computer-run provinces
  (`turn_progression`, `cpu_decision`), repositories and use cases
  (domestic, battle with wars and conquest, queries, spying, reset), the
  province names (`kuni_names`), the victory rules (`game_rules`), the
  action log (`action_log`), and the screens of the
  terminal client (`screen`, `screen_sync`, `handler`, `amount_input`).
  `laws` holds properties that span operations.
- `tests/` — tests of the library.
- `app/` — the terminal client (ratatui, crossterm, tokio) around the library:
  it draws, reads keys and runs the game loop, one step at a time.
