# signals_visualizer

A small web application that streams a sampled sine signal to browser clients
over a WebSocket and lets each client retune the amplitude and the frequency.

- `src/` is the verified library: the generator's shared state and the
  decision its sampling loop takes (`signals`), the client commands
  (`command`), and the per-event decisions of the two halves of a connection
  (`socket`).
- `app/` is the server around it: routing, the WebSocket plumbing, JSON, and
  the floating-point sampling itself.
- `tests/` exercises the library.
