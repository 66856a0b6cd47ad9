# hadal

A terminal music player for Linux, with its logic verified by Verus.

## Layout

- `src/` is the verified library: the play queue, the M3U8 reader and
  writer, durations and their text forms, the configuration and its
  parsers, the library's query building, scanning decisions, the choice of album art among
  embedded and folder pictures, the audio engine's transport and counters, the key bindings, the
  list navigation and the interface's decisions (`controller`), each with
  its contract. Public proof functions named `law_*` state what holds across
  several calls.
- `app/` is the program around it: terminal drawing, SQLite, Symphonia
  decoding, the floating-point signal processing (equalizer, spectrum, VU
  meter, resampling), file and directory access, and the event loop that
  performs the commands the controller returns.
- `tests/` runs the library on concrete values.
