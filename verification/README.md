# git-workers

An interactive manager for Git worktrees (`gw`): list, search, create,
delete (one or many), switch, rename and clean up worktrees, with hooks run
on worktree events and a per-repository `.git-workers.toml`.

## Layout

- `src/` — the library, verified with Verus. It holds every decision the
  program makes: worktree name and path validation, where a new worktree
  goes, which branch or tag it is created from and how conflicts are
  resolved, which worktrees may be deleted and which branches go with
  them, the rename plan, hook command expansion, where the configuration
  file is looked for and whether it applies to the repository, the parsing
  of `git worktree list --porcelain`, the line editor with Escape
  support, the menu, and in-memory stand-ins for Git, the filesystem and
  the terminal. Calls into `chrono`, `colored`, `dialoguer`,
  `unicode-width` and `std::path` sit behind small trusted functions whose
  contracts are documented where they are declared.
- `app/` — the program around the library: the menu loop, the screens,
  reading the repository with `git2` and running `git`, reading the
  configuration with `serde`/`toml`, and the terminal.
- `tests/` — tests of the library's public functions on concrete values.
