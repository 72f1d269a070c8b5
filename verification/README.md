# window_managers

Adapters that let a program focus, move, resize and list windows under several window managers:
niri, i3, Hyprland, mangowc and the macOS desktop.

The library decides; it never talks to the system. It is verified with Verus.

- `capability`, `session`, `backend` and `error` say what a window manager can do, what a session
  with it offers, and how a backend is selected and connected to.
- `i3`, `niri` and `hyprland` turn what these window managers report into window records, and
  requests into messages.
- `mangowc` prepares and reads `mmsg`, keeps stable identifiers for the windows that a Wayland
  display announces, and tells which process a terminal window belongs to.
- `macos` reads the property lists of the window server, and plans how windows are focused, moved
  and swapped. Whatever has to be done in several steps is a small state machine: it says what to
  do next, the caller does it and hands back the outcome.
- `text`, `select`, `ids`, `process` and `topology` hold what the others share.

`app/` runs programs, speaks Wayland, asks the window server and waits. A macOS session is handed
the function that picks the closest window in a direction, by the focus strategy or without it;
niri is handed its client, and the list of processes the function that normalizes their names.
