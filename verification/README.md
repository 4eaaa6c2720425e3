# jellytui

A terminal client for a Jellyfin media server. It lists the shows, the seasons
and the episodes in three panes, marks episodes as played, and plays them with
`mpv`.

- `src/` is the client without its terminal and its network, verified with
  Verus: the state and what keys and answers do to it (`state`, `app`, `cache`,
  `seasons`), what is drawn (`screen`), the requests and what their answers mean
  (`network`), how a running player is followed (`playback`), and the text
  functions below them (`text`). `laws` states what holds of the client whatever
  is done with it.
- `app/` is the terminal, the connection, the file in which the client keeps what
  it knows, and the player's process.
- `tests/` runs the library on examples.

The server is given by the variables `JELLYFIN_URL`, `JELLYFIN_API_KEY` and
`JELLYFIN_USER_ID`. With `DEBUG=true` each session of the player is logged.

| Key | |
|---|---|
| arrows | move between and within the panes |
| space | mark the episode as played or not played |
| enter, `s` | play the episode |
| `r` | load the episodes of the show again |
| `q`, escape | end |
