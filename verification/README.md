# reedline edit modes, verified

The key-event side of a line editor, written in Verus: each function
carries a `requires`/`ensures` contract that Verus proves.

## Layout

- `src/keys.rs`, `src/enums.rs` — keys, modifier sets, input events, the
  editor events and edit commands, with their mathematical views.
- `src/text.rs` — UTF-8 widths, byte offsets and character indices,
  character classes and grapheme boundaries.
- `src/edit_mode/` — the edit modes:
  - `keybindings.rs`: keybinding tables, key sequences, and the state of
    a sequence typed one key at a time;
  - `emacs.rs`, `vi/`, `helix/`, `hx/`: the Emacs, Vi and two Helix-style
    modes, each as a key-by-key state machine stated as a spec function;
  - `cursors.rs`: the cursor shape drawn in each mode.
- `src/engine/` — decisions of the engine that need nothing but values:
  fusing a batch of parsed events, abbreviation expansion, what an event
  does during a history search and while the line is edited (taking a
  snapshot of the engine's state), and how the answers of grouped events
  combine.
- `app/` — the terminal side: crossterm events converted for the modes,
  the small Helix machine run on modalkit, and serde forms of key
  combinations.
- `tests/` — scenarios on concrete values.

Laws of the library (what a lookup gives back after a binding, that
`Esc` always returns a modal mode to normal, that coalescing a batch
keeps every command in order, and others) are public proof functions in
the modules they concern.

## What is not here

- The engine itself: the line buffer with its undo history, painting,
  menus and completion, the history store, hinter, validator and
  highlighter. The library decides what an event does given a snapshot
  of that state; carrying the step out is the engine's work.
- Bang-command expansion, which rests on the history store, the
  highlighter and a selection parser of the menus.
- The Vi visual-mode keybinding table, which rebinds navigation through
  a helper of the keybinding module that is not part of this code base.
- A model of the repaint flag's value: it is shared with other threads,
  and nothing is stated about what a read of it returns.
