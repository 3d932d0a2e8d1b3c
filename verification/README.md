# rject

A terminal project launcher: it keeps project directories in `~/.proj`, shows
them in a selectable list and opens the chosen one in tmux or VS Code.

- `src/` is the verified library: reading the command line
  (`launch`), splitting `ls` output for the preview (`listing`), the projects
  file (`projects`), the project list widget (`project_view`), dialog texts
  (`dialogs`) and the key bindings (`keymap`).
- `app/` is the program around it: the cursive interface, running programs,
  reading and writing `~/.proj`.
- `tests/` runs the library on concrete inputs.
