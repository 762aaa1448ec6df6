# tuidal

A terminal music player for Tidal. The helper script `tidal.py` talks to the
service; mpv (or ffplay) plays the audio.

- `src/` is the library, proved with Verus: the state of the program and how
  it answers keys, background results, remote commands and clock ticks
  (`app.rs`), the playback state and mpv's JSON commands (`player.rs`), the
  protocol with the helper script (`tidal.rs`), the four interface languages
  (`i18n.rs`), the media-key mapping (`media.rs`), text helpers (`text.rs`)
  and properties that span several operations (`laws.rs`).
- Every answer of the library is a new state plus a list of effects; `app/`
  is the program around it, which runs the terminal, the processes, the
  requests, the browser and the settings file, and feeds the outcomes back
  as events.
- `tests/` exercises the library on concrete values.
