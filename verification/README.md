# kinestra

Typed orchestration of terminal-application recordings on a private X11
display. This crate holds the verified decision logic; `app/` is the driver
that owns the processes, files and signals.

- `src/size.rs`: positive, even H.264 dimensions.
- `src/text.rs`: decimal formatting and parsing, trimming, first lines.
- `src/error.rs`: errors, their reports and the exit codes of a run.
- `src/wait.rs`: the bounded polling loops (sleep, commands, stopping a
  process, the Xvfb handshake, the window search, capture start).
- `src/commands.rs`: the command lines of Xvfb, picom, xdotool, FFmpeg and
  ffprobe, with path slots that the driver fills in.
- `src/session.rs`: the recorder's state, its environment, `check` and the
  order in which a recorder closes.
- `src/cli.rs`: the one-shot command line.
- `app/`: a library for recipes (`Recorder`, `run`, `Size`) and the one-shot
  program's entry point `main`, which a binary calls.
