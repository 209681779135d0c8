# mini_redis configuration

The configuration pipeline of the mini-redis server, verified with Verus.

A configuration file moves through four phases. Parsing produces a spec whose
leaves keep the span they came from. Validation appends every problem to one
confval `Report`. A report that holds an error stops the load. Lowering narrows
the spec into the runtime configuration.

Layout:

- `src/conf/types/specification`: the parsed forms (`ServerSpec`,
  `BackoffSpec`, `LogLevel`, `ClientSpec`, and the service settings in
  `server_spec`), with their declared defaults (`src/conf/defaults.rs`).
- `src/conf/validation`: the rules, each stated as the exact sequence of issues
  it appends to the report.
- `src/conf/types/runtime`: the runtime forms and the lowering steps.
- `src/conf/address.rs`: the socket address the service settings resolve to,
  held as plain numbers. The standard library's network parser runs in `app/`
  (the library does not call it); its result is handed to validation and
  lowering.
- `src/conf/loader.rs`, `src/conf/resolve.rs`: the phases after parsing, and
  the `LoadError` a stopped load returns.
- `src/conf/diff.rs`: how far a reload of the service settings reaches into a
  running server.
- `src/conf/laws.rs`: what holds across the phases, proved.
- `src/conf/diagnostic.rs`, `src/conf/constraints.rs`: the confval items the
  library calls, each with the contract it is trusted to keep.
- `app/`: the server binary: command line, file reading, the TOML parse
  through confval's derive, logging, and the listener.
