# rscapt

A replay-clip processor for OBS on Windows: every replay-buffer save is
upscaled with ffmpeg, and a terminal dashboard lets the user post-process,
compress and share clips.

## Layout

- `src/` is the verified library (Verus). It holds the job queue, the clip
  library and its share records, the configuration, the ffmpeg argument and
  filter builders, the OBS WebSocket handshake and reconnect policy, the OBS
  profile and installer texts, the update decision, the setup wizard and the
  dashboard's state machine. Contracts are stated over spec functions and
  views; where a function's result depends on an outside call (JSON parsing
  and hashing) the contract goes through a named result of that call.
  The `law_*` proof functions state what holds across calls.
- `app/` is the program around it: command line, files, processes, sockets,
  HTTP, terminal drawing and the tray icon. It hands the library plain values
  and acts on what comes back.
- `tests/` runs the library on concrete values.

## Models

- Paths are text with Windows separators (`\` and `/`); file names, stems,
  extensions, parents and joins are defined on that text.
- Times are milliseconds since the Unix epoch; job ids are the 128-bit value
  of a version-4 UUID. Both are drawn by the program and handed to the
  library.
- Incoming OBS messages are decoded from their text into a `JsonTree` of
  plain values, from which the fields the client reads are picked.
- Effect strengths that the dashboard shows with two decimals are kept as
  whole hundredths.
