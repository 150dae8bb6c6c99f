# maraetai

A terminal music player for a Navidrome library behind `maraetai-service`, in two
programs: `maraetaid`, the daemon that owns the audio output and the queue, and
`maraetai`, a terminal interface and command line that talks to it.

The library in `src/` decides everything that can be decided without touching the
outside world, and Verus proves each of its functions against its contract:

- `playback`, `play_order`, `engine`: tracks, the play order, and the engine's state
  machine from commands and polls to effects.
- `protocol`, `control`, `mpris`, `cli`: the control channel, the idle timer, the
  desktop's view of the player, and what the command line prints.
- `config`, `auth`, `url`, `json`, `library`, `client`, `lyrics`, `range`,
  `update_check`: the configuration, the server's API and its replies, lyrics, range
  requests, and the check for updates.
- `screen`, `tui`, `errand`, `view`: the interface's screens, what keys and replies do
  to them, what each task asks of the server and the daemon, and what is drawn.
- `text`, `time`, `ieee`: texts, times in whole nanoseconds, and real numbers by their
  bits.

What stays outside is trusted by name: `serde_json`, `toml`, `urlencoding`, `md5`, `rand`
and a few functions of std are called behind small wrappers whose contracts say what is
believed of them.

`app/` performs the effects: audio, HTTP, D-Bus, the socket, the keyring and the
terminal. Floating point stays there too. `tests/` runs the library on concrete values.
