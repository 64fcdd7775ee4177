# zenoh_grpc

The verified core of a gRPC bridge to Zenoh: a Zenoh plugin that serves
Zenoh sessions over gRPC, and the client that talks to it.

`src/` is the library, verified with Verus:

- `config` — the plugin configuration, its defaults, and the endpoints the
  server listens on (`tcp://…`, `unix://…`, or `host:port` plus the Unix
  socket).
- `args` — the request records of the client API and their defaults.
- `wire`, `native` — the protocol's enum codes and the Zenoh options they
  select; unspecified and unknown codes fall back to the default option.
- `server` — the options the server hands to Zenoh for each request.
- `registry` — the server's registry of declared objects and queries in
  flight, with per-client ownership and cleanup.
- `queue` — the bounded queue that evicts its oldest item when full.
- `status`, `connect`, `client`, `messages` — how the client reads gRPC
  failures, parses endpoints, keeps its connection generation and remote
  handles, backs off between reconnections, tracks the queries it must
  answer, and decides what each background worker does next.

`app/` is a small command-line front end: it reads a configuration file,
applies the `--grpc-host`, `--grpc-port` and `--grpc-uds` overrides, and
prints the endpoints the server would listen on. It also holds the JSON form
of the configuration and thread-safe channels built on the library's queue.
