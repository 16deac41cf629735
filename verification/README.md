# ym2149 core, verified

A driver layer for YM2149 / AY-3-8910 sound chips, written in Verus.

- `src/` is the verified library. A `chip::PSG` passes `command::Command`s to a
  `command::CommandOutput` that the user supplies. The output trait's spec
  function `sent` is the sequence of commands it has been handed, and `execute`
  appends to it. Every `PSG` method's contract says exactly which commands it
  hands over (and that a refused request changes nothing). `command::CommandLog`
  is a ready output that keeps the commands in a `Vec`.
- `app/` has what cannot be verified here: the frequency-in-Hertz helpers
  (they use floating point) and `Display` for commands and registers.
- `tests/` runs the library on concrete values.
