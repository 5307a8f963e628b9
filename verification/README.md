# orchestration

The control plane's orchestration logic for a managed TCP/TLS proxy fabric,
written in Verus: canvases and their trees, servers, pods and the graph that
connects them, config derivation and its fences, worker rollout, health, and
the decisions of the operator and worker streams. Every function carries a
`requires`/`ensures` contract that Verus proves, except the small wrappers
marked `#[verifier::external_body]` in `clock.rs`, `config.rs` and
`rpc/wire.rs`: each makes one call into `chrono`, `time`, `serde_json` or
`std`, and its contract is trusted, not proved. Their doc comments say what
each one claims of the call.

## Layout

- `src/` — the verified library.
  - `clock.rs` — instants as microseconds since the epoch, and the calls into
    `chrono` and `time` that read, parse and write them.
  - `config.rs` — the orchestration settings and the durations derived from
    them.
  - `text.rs`, `decimal.rs`, `net.rs`, `vecs.rs` — text order and trimming,
    decimal rendering, IP address text.
  - `entities/` — the stored rows, the entities read from them, and the
    decisions the writes make under their locks (fences, claims, health).
  - `events/` — the periodic signals and the live-bus records.
  - `hooks/` — derivation, the steps of the certificate renewal, relay leaf
    rotation and stale-canvas sweep passes, job cadence, and the live
    subscriber's reconnect steps.
  - `rpc/` — wire messages checked into entities, and the steps of the
    worker and dashboard streams.
- `tests/` — tests of the library on concrete values.
- `app/` — the parts that do I/O: the Redis subscriber loop, the live bus,
  the settings document read with `serde`, and IP address parsing.
