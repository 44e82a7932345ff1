# hello-rs

Two small services and a client: an HTTP server that greets a caller
(`GET /?name=Max` answers `Hello, Max!`), either itself or, with `proxy=true`,
by asking a gRPC greeter (`hello.Hello/SayHello`), and the greeter itself.
Both trace their requests with OpenTelemetry and propagate trace context.

- `src/` is the verified library: the greeting texts, how `GET /` is answered,
  the greeter's reply, the request the client sends, the client's endpoint (kept
  with the text it was parsed from), the metadata entries for trace context (with
  the bytes of their keys and values), the reading of header values as text, the
  sampling decision and the text of trace ids. Parsing URIs and building tonic's
  metadata keys and values are tonic's; `src/` states when they succeed and what
  they hold. `src/laws.rs` holds the properties that relate these parts.
- `app/` runs the services: configuration, servers, gRPC plumbing, tracing setup.
- `tests/` checks the library on concrete values.
