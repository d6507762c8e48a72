# cooee

A Wayland desktop notification daemon for Hyprland, with sound and
text-to-speech. This crate holds its verified core; `app/` holds the
program around it.

- `src/` is verified with Verus: the notification record and the parsing
  of D-Bus actions, the configuration sections and their defaults, the
  daemon's state (Do Not Disturb mode, notification ids, history), what a
  `Notify` call and each control-socket command do, the choice of what to
  speak, the action picker's command line and the reading of its answer,
  the popups' style sheet, placement, image and stack, and the paths of
  the configuration files and sockets.
- `app/` runs the daemon and the client: D-Bus (zbus), the Unix socket
  (tokio), the GTK popups, sound playback (rodio), speech-dispatcher, the
  picker process, the configuration file (toml, including the
  floating-point sound volume) and the JSON wire format (serde).
- `tests/` exercises the library.
