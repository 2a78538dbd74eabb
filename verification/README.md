# git-hist

A library for browsing the git history of one file: it finds the commits
that changed the file (following it through renames), places them in a
history that can be walked from the latest to the earliest and back, and
decides what the interactive viewer does on each terminal event.

The library under `src/` is verified with Verus:

- `args` — the viewer's options (`Args::load` turns the tab size into spaces).
- `app::history` — `TurningPoint` and `History`, with the laws of navigation.
- `app::trace` — which commits are turning points of a file, and the law that
  consecutive turning points chain up.
- `app::git` — opening a repository and reading a file's history with git2.
- `app::repository`, `app::paths` — the calls into git2 and `std::path`.
- `app::controller` — the keymap of the viewer.

`app/` holds what talks to the outside: the command line (clap), the
terminal (crossterm) and the current directory.
