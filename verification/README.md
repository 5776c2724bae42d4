# editor_kit

Parts of an editor, verified with Verus.

- `keystroke`, `modifiers`, `candidates`: keystrokes, the syntax they are
  written in, how they are shown, which bindings they may match, and the text
  that they insert.
- `rustdoc_command`, `docs_run`, `manifest`: the slash command that inserts the
  documentation of a Rust item. The library decides each step; the editor
  performs it and hands the reply back.
- `text`: splitting, joining and comparing text.
- `keystroke_laws`, `docs_laws`: what holds across those functions.

What depends on the operating system takes a `TargetOs`. `app/` holds what runs
the library: configuration, display, files, network and the documentation store.
