# git_mirror

Mirrors the changed files of a git repository's working tree into one or more
destination folders, preserving their relative paths. An empty destination receives
every file tracked in HEAD; a forced sync sends every tracked file to any destination.
It targets Unix-like systems: paths are joined with `/`, as `Path::join` does there.

Layout:

- `src/` — the verified library (Verus):
  - `text.rs`: decimal rendering of counts, joining of relative paths;
  - `git.rs`: classifying git's status flags, listing tracked files from a tree walk,
    validating a repository path;
  - `sync.rs`: planning one file operation per changed file, counting outcomes;
  - `config.rs`: the configuration, its defaults and its location;
  - `app.rs`: the application's state and the step-by-step control of refreshes and
    syncs, with the laws that tie the steps together.
- `app/` — the desktop program: the egui window, the TOML file, libgit2 and file
  system work that the library asks for.
- `tests/` — tests of the library.
