# sgl_router

The decisions of an HTTP router for inference workers, verified with Verus.

- `src/` holds the library. `handlers` says what each endpoint asks of the worker router and what
  it answers, and `exchange` takes a request from its endpoint to its answer. `routes` says which
  paths there are, `cors` which other origins are let in, `logging` and `config` what follows from
  the configuration, `state` what the handlers share, and `startup` in what order the server comes
  up. `json` and `text` say how values are written, and `laws` states what holds of the whole.
- `tests/` runs the library on given values.
- `app/` is the server around it: sockets, signals, the HTTP client, and the conversion from the
  library's values to those of `axum`, `tower-http` and `http`.
