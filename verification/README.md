# rsfrac

A terminal fractal explorer. The core is a library verified with Verus:
the command language and every command's effect on the application state,
the log and its size limit, the command history, the screenshot job queue,
the loading of state files, the canvas keys and mouse clicks, the colour
palettes and the markup tags of the log.

- `src/` — the verified library. Each public function states in its contract
  what it returns and how it changes the state; `src/laws.rs` and a few
  proof functions beside the code state properties that span operations.
- `app/` — the terminal front end: drawing with ratatui, the event loop,
  worker threads for screenshots, files, network, GPU adapters and the
  arbitrary-precision view of the complex plane.
- `tests/` — tests of the library on concrete values.
