# pookie_paste

The logic of the Pookie Paste clipboard-history daemon, written in Verus with
its contracts proved.

- `src/` is the verified library: the shortcut model and its configuration,
  the compositor binding directives for Sway and Hyprland and the diagnosis of
  their configurations and live binds, the X11 grab logic, the portal and EIS
  paste state, focus targets and their IPC mapping, the choice of platform
  backends, the CLI, and the state machines that drive reloads, activations
  and the shortcut listener.
- `tests/` runs the library on concrete values.
- `app/` is the executable around it: arguments, environment, files and
  sockets.

Laws of the library (such as "a written binding directive reads back as
Pookie Paste's own binding" or "a refused grab rolls back every mask it
acquired") are public proof functions next to the code they speak of.
