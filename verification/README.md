# pyo3_async_runtimes

Bridges Python's `asyncio` (and `trio`) event loops with a Rust async runtime:
Python awaitables become Rust futures, Rust futures become Python awaitables,
and the Rust runtime runs in the background while Python keeps the main thread.

## Layout

- `src/` — the library, proved with Verus. It holds every decision the bridge
  takes, over plain values and the crate's own types:
  - `handoff` — one-shot hand-off of a result (`futures_channel::oneshot`);
  - `locals` — the async library (asyncio or trio) of a Python task, the
    event loop (or trio token) and context a conversion uses, and the route
    each conversion takes under each library;
  - `cancellation` — how cancelling a Python future cancels the Rust future;
  - `completion` — when and how a Rust outcome completes a Python future,
    and the error that reports a panic;
  - `event_loop` — running a loop until a future completes and closing it;
  - `stream` — async generators as streams, with and without back-pressure;
  - `runtime` — start, shutdown and restart of the background runtime;
  - `park`, `coroutine` — awaiting Rust futures under trio: the park/wake
    protocol and the life of the coroutine object.
- `app/` — the PyO3/tokio layer that performs the Python calls, spawns tasks
  and awaits futures, asking the library at each decision.
- `tests/` — tests of the library on concrete values.
