# RailQ

RailQ is a railway company game for the terminal. This crate is its verified library: the
model of a game, its saves, and what its workspaces show.

- `src/model` holds the game's types: identities, units, the Rail Authority's network and
  projects, the Company, and what the simulation reports.
- `src/storage` turns games into table rows and back, validates them, and computes what
  upgrades of earlier saves need. `saved_games_load_back` states that what is saved loads back,
  and `valid_games_load_back` that it is valid again.
- `src/ui` decides what each workspace shows and how it answers keys, as pages of styled lines
  and areas of the screen.
- `app` carries rows to SQLite, imports early save files, and draws pages with ratatui.

Verus proves every function of `src` against its contract. What is believed without proof are
the few outside functions that `src` calls: each stands behind an item whose comment says what
is claimed of it.
