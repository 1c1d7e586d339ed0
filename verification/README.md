# cat_games_launcher

A games launcher for Linux: it keeps a list of games (executable, folder,
arguments, environment prefix, icon), runs each through a runner (wine,
proton, native...) with the runner's and the global options, writes desktop
entries for them, and installs runners from small JSON installers.

- `src/` is the library, verified with Verus: the option maps, the games
  list and its ids, the command line that launches a game, desktop entries,
  the placeholders of paths, runner installation plans, icon lookup plans and the conversion of
  `.ico` files and images into icons (through the `ico` and `image` crates),
  the command line interface, and the window's state machine
  (`launcher::App::update`), which returns the outside work each message
  asks for. `laws.rs` holds the properties that span operations.
- `app/` is the program around it: the iced window, dialogs, files,
  processes, downloads and archives, and the JSON files (serde).
- `tests/` runs the library on concrete values.
