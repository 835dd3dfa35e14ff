# NoteRust

A minimal notepad-like text editor built with egui, whose editor logic is a
library verified with Verus.

- `src/` — the verified library `noterust`:
  - `state.rs`: the editor state (`AppState`), its abstract view, and what New,
    Open, Save, Save As, the font-size commands, editing and the appearance
    set-up do to it; the window title.
  - `path.rs`: the file name of a path, in Unix or Windows conventions, shown
    in the title.
  - `text.rs`: line counting and the line-number labels of the gutter.
  - `shortcuts.rs`: keyboard shortcuts and what the Edit menu asks of the text
    area (clipboard requests or key presses).
  - `laws.rs`: properties that span several commands, proved.
- `app/` — the program: the egui window, file dialogs (rfd), file reads and
  writes, fonts and theme.
- `tests/` — tests of the library on concrete values.
