# crownlines

The deterministic rules around a Crownlines match, stated as contracts and
proved with Verus: lobby rooms and their credentials, request and connection
limits, match actors and their decision caches, snapshot fan-out, restart
recovery checks, and the client's menu, lobby, connection, lifecycle, board
interaction, guided play, panel, help and playtest state machines.

Layout:

- `src/` is the verified library. Each module keeps its model (spec functions
  and views) beside the executable code; the public `law_*` proof functions
  state properties that span several operations.
- `tests/` runs the library on concrete values.
- `app/` is the server binary: configuration from the environment, SQLite,
  HTTP and WebSocket plumbing around the library's decisions.
