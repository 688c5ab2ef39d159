# mini_redis (verified core)

The logic of a Redis-compatible server, written in Verus and proved
against its contracts:

- `src/frame.rs`: protocol frames and the `Parse` cursor that commands read
  their arguments from.
- `src/cmd/`: the CONFIG, GC and INFO commands: reading them from frames and
  computing their replies.
- `src/gc_config.rs`, `src/gc_task.rs`: the settings of the background
  cleanup of expired keys, and its decisions (when to start a task, how a
  cleanup cycle goes from batch to batch).
- `src/metrics.rs`: the server's counters, and the INFO and Prometheus
  reports made of them.
- `src/text.rs`, `src/time.rs`: decimal writing and reading, UTF-8 and string
  helpers, and the calls into `std` that the library trusts.

`app/` holds the asynchronous edge around the library: the tokio task that
runs the cleanup cycles, and the `apply` step of each command that reads the
server state and writes the reply.
