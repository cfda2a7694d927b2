# wrpc_interface_http

Conversions between the `wrpc:http` interface types and the `http` crate, verified with
Verus.

`src/` is the verified library:

- `types` — the `wrpc:http/types` values (method, scheme, fields, request and response
  heads, request options, error codes) and their views.
- `http_api` — the calls into the `http` crate, each with the contract that the crate's
  source shows.
- `fields` — header fields to and from `http::HeaderMap`, with the model of a map as
  groups of values under names, and the laws that relate the two directions.
- `method`, `scheme` — the standard methods and schemes and the others, by their text.
- `message` — request and response heads to and from `http`, with their round-trip laws.
- `options` — the timeouts of an outgoing request.
- `body` — what becomes of each frame of a streamed body and of its trailers.
- `handler` — what an invoker gets back and what a served handler sends back.

`app/` streams bodies and trailers with `tokio` and `futures`, implements
`http_body::Body`, glues served handlers together, and converts to and from the
`wasi:http` types of `wasmtime-wasi-http`; it takes every decision from the library.
