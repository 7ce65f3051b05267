# clip-daemon

A Wayland clipboard collector and the `clip-api` service in front of a
[Ringboard](https://crates.io/crates/clipboard-history) history, with its logic
verified by Verus.

- `src/` is the verified library. What the daemon does is written as functions and
  small machines: a machine names the next action, the program performs it, and the
  machine is told what came of it.
  - `api`, `actions`, `protocol`, `client`, `daemon`: requests, replies and subscriptions.
  - `capture`: admission, transfers, the collector and its worker.
  - `ringboard`: the history, its identities, pages, details, changes and files.
  - `policy`, `limit`: what the Ringboard server does for the daemon's requests.
  - `settings`, `session`, `editing`, `editor`, `selection`, `history_search`, `lease`.
  - `classification`, `digest`, `stream`, `text`, `utf8`, `bytes`: the tools beneath.
- `app/` is the program around it: D-Bus, Wayland, sockets, files and processes.
- `tests/` runs the library on concrete values.
