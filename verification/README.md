# Zeevum client

A chat client. Its logic is a library verified with Verus; the program around
it shows the window, talks to the network and keeps the settings file.

- `src/`: the library. Handlers take plain values and return the actions to
  perform (`controller`, `state`, `effects`); a connection is a state machine
  from events to requests (`network`); lines are cut off the byte stream in
  `framing`; `settings` says what is stored and how the file is protected.
  `laws` and `network_laws` state what holds across these. `outside` holds the
  calls into other crates, with what is believed of them.
- `tests/`: tests of the library.
- `app/`: the program. It needs the window's markup, `ui/app.slint`, compiled
  by a build script, and the crate `zeevum_protocol`, which encodes the
  messages.

The permission bits of the settings file are 0600: it holds a session token.
The environment variable `ZEEVUM_PROFILE` selects a settings file of its own.
