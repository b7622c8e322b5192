# grw

grw watches a git repository from the terminal: it lists the changed files as
a tree, chooses between working-tree, dirty-directory, staged and last-commit
views, lets you pick a commit from the history and see the files it changed,
and has a pane for the output of a monitor command.

What this program does not do yet: it shows no diff text (the file lists
carry no diff lines, and so no line counts), it marks no file as being in a
dirty directory, and it does not run a monitor command. The library decides
what to do with all of these once they are read; the reading itself is not
written.

The crate is written in Verus. `src/` is the library, with every function
verified against its contract:

- `ui::app`, `ui::model` — the application state, its abstract view and every
  transition (files, tree navigation, scrolling, panes, help, themes, commit
  picker mode, branch changes); `ui::picker` — the commit list of the
  picker; `ui::laws` — properties of the transitions taken together.
- `ui::layout`, `ui::commit_tree`, `ui::theme` — what the screen shows, the
  tree of a commit's files, colours and hex colour parsing.
- `pane` — key events, the pane registry, the help pane and its text, and the
  key bindings.
- `git::worker`, `git::repo`, `git::types` — the git worker's decisions, the
  calls into libgit2 behind trusted wrappers, and the data it hands on.
- `shared_state` — caches and error records in `scc` hash maps.
- `config`, `session`, `text`, `search`, `clock` — configuration merging,
  the main loop's decisions, and helpers.

`app/` holds the program around it: the command line (clap), the
configuration file (serde), the terminal (crossterm, ratatui) and the
background git status loop (tokio). `tests/` exercises the library.
