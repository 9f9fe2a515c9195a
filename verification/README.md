# reef_tui

The decisions behind a terminal workbench, verified with Verus: what a key, a mouse event or
a paste does, how views scroll, how popups and previews are laid out, and how an ssh session
announces itself to the shell.

- `src/` is the library. `engine.rs` holds what the terminal reads of the workbench engine,
  `command.rs` what a decision asks for. `input/` turns events into lists of effects,
  `app/` holds the terminal's own state and what it does on a click or on the engine's
  reports, and `ui/` plans what is drawn.
- `app/` is the terminal around it: it reads events, performs effects and draws plans.
- `tests/` runs the library on concrete values.

Every handler takes the state and an event and says exactly what becomes of the state and
which effects follow. A decision that has to look at the engine again after a command ends in
`Effect::Then`, which names the function that goes on.
