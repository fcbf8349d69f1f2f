# Stevedore

A keyboard-driven terminal UI for Docker containers and Compose stacks, built
as a verified library with a thin program around it.

- `src/` is the library, proved with Verus: the state machine behind the keys
  (`app`, stated over `model`), the event loop, the decisions of the Docker
  actor, the reading of what the daemon reports, and the frames that are drawn
  (`ui`, `paint`, `layout`). The `*_laws` modules state what holds of it as a
  whole.
- `app/` is the program: the terminal, the Docker daemon, the processes that
  an update runs, and the percentages, which are floating-point numbers.
- `tests/` runs the library on examples.

The library trusts a few things that it does not prove: the clock, two string
conversions and the lossy UTF-8 decoding of the standard library, and the
layout solver of ratatui. Each stands behind a declaration whose comment says
what is claimed of it.
