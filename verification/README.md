# aircrate

An internet radio client that plays a channel's stream and records it track by track.

- `src/` is the verified library: the streaming byte reader, the track recorder that
  cuts the stream at announced track changes, stream status and progress, the
  current-track watcher, channel lookup, decoding buffers, image addresses and cache
  names, the rows that track metadata is stored as, and the user-interface texts.
  `src/laws.rs` states properties that tie several operations together.
- `tests/` exercises the library on concrete values.
- `app/` is the program around it: HTTP requests, audio output, files, the database
  and the window.
