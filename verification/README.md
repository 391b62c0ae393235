# kime

Parts of the kime Korean input method, written in Verus with their
contracts proved:

- `wire`, `xim_types`, `xim_format`, `xim_codec`, `xim_messages`,
  `xim_values`, `request`, `xim_laws`, `xim_prefix`: the XIM wire protocol — reading and
  writing requests, with the law that a written request reads back as
  itself, and that bytes after a request do not change what is read.
- `xim_frontend`: the XIM server's decisions for an input context (preedit
  window or callbacks, commits) and the choice of a visual.
- `wayland`: key repeat, modifiers, activation and preedit updates of the
  Wayland frontend.
- `ibus`: the IBus engine's signals, the bus address and engine paths.
- `bgra`: the BGRA pixel of the preedit window.
- `candidate`: the candidate window's input and paging.
- `check`: the diagnostic tool's checks.
- `tools`, `text`, `properties`, `config`, `xtask`: the indicator, log
  level, run directory, daemon pid file, editor properties, configuration
  values and build plan.

`app/` holds the input and output around the library: environment,
files, sockets, processes and terminal output.
