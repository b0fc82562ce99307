# lightify

A terminal Spotify client whose logic is verified with Verus.

- `src/` is the verified library: the application state machine (`app`),
  the key map (`action`), the reconnect budget (`reconnect`), the decisions
  of the task that keeps the player connected (`player`), the theme
  (`theme`), what the screen shows (`ui`), the playlist and track model
  (`model`), and text helpers (`text`). `laws` holds properties that span
  calls. `clock` and the Spotify uri helpers in `model` are the only places
  that call code whose behaviour is assumed rather than proved.
- `app/` is the program around it: terminal, event loop, logging, the
  configuration file, logging in, the library requests and the audio player.
- `tests/` runs the library on concrete inputs.
