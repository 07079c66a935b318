# ledger_grpc_reader

A reader of the ledger's gRPC query service. The library under `src/` decides how to connect, what to
ask, what a reply means, and how the frames of a list stream become one resumable page. It is verified
with Verus and performs no I/O.

- `src/` is the verified library. `src/outside.rs` lists every call into another crate with what is
  relied on; `src/laws.rs` states what holds of pages and drains as a whole.
- `tests/` runs the library on concrete values, with the real outside crates.
- `app/` connects the library to a service: the channel, the calls, the command line options and the
  error types.
