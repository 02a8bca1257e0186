# little_games

Two small arcade games, Space Defender and Angry Birds, and the menu that
launches them.

- `src/` is the verified library: the rules, tables, levels and state
  machines of the games, with their contracts and laws.
  - `menu` — the launcher's screens and menu selection.
  - `palette` — the named colours the library chooses from.
  - `space_defender::game` — score, difficulty tiers, spawn columns, the
    on-screen limits, hit resolution and the end of the game.
  - `angry_birds::{bird, block, pig, level, rules, session}` — bird kinds and
    abilities, the bird queue, block and pig tables, the five levels, stars,
    the win/lose decision, and the discrete state of a game.
- `app/` is the program around it: the raylib window, input and drawing, and
  everything that moves in floating point (the ship, bullets, enemies, the
  rapier2d physics world, the slingshot and the trajectory preview).
- `tests/` exercises the library on concrete values.
