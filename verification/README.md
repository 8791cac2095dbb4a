# bridge

The decisions of a Node.js bridge to a KurrentDB client, verified with Verus.

- `src/js.rs` — a model of the JavaScript values the bridge reads (objects live in a
  `JsHeap`), property lookup, and what is thrown back (`Thrown`).
- `src/options.rs` — reading the arguments of `readStream(name, options)` and
  `readAll(options)` into plain read requests, with the exact error for every
  malformed option.
- `src/client.rs` — parsing the connection string, and building the client's
  read options from a read request.
- `src/error.rs` — the error kinds that JavaScript sees, how client errors and
  reports map to them, and what the thrown JavaScript error holds.
- `src/paging.rs` — cutting a stream of events into pages of at most 64.
- `src/text.rs` — decimal and `Debug` text.
- `src/laws.rs` — properties that span the readers.
- `app/lib.rs` — the Node.js glue: reading JavaScript arguments, running reads on
  the tokio runtime, and building JavaScript values.
