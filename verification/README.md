# warp

The decisions of a composable web server framework, written in Verus and
proved against their contracts: which requests a filter accepts, what it
extracts, how it rejects, and what the replies carry.

## Layout

- `src/` — the verified library.
  - `header_map`, `request`, `route`, `reply`, `reject`: header maps, the
    request a route is made of, responses and rejections (with their status
    codes and how two rejections combine).
  - `filter/`: the combinators (`and`, `or`, `map`, `and_then`, `recover`,
    `unify`, ...), each a state machine from what the futures it runs gave
    to what happens next, and the tuple algebra of what filters extract
    (`generic`, `filter/tuple`).
  - `filters/`: the built-in filters — paths, methods, headers, cookies,
    host, query, bodies and their limits, CORS, basic authentication,
    websocket upgrades, static files (conditional requests, byte ranges,
    safe paths), multipart checks, compression, logging and tracing.
  - `text`, `csv`, `entity`: byte and text helpers, comma-separated header
    lists, entity tags and conditional header values.
  - Calls into the outside crates (`headers`, `http`, `mime`,
    `mime_guess`, `percent-encoding`, `base64`, `flate2`, `bytes`) stand
    behind small trusted wrappers with their contracts stated where they
    are declared.
- `tests/` — tests of the library on concrete requests.
- `app/` — the input and output around the library: the hyper server loop,
  streaming of response bodies, files on disk, websocket sockets,
  multipart streams, blocking pools, and the serde end of the query, JSON
  and form filters.
