# rsactor

An in-process actor runtime whose decision-making core is verified with Verus.

- `src/` — the verified library:
  - `identity.rs`: actor identities and their `Type(#id)` rendering;
  - `deadlock.rs`: the wait-for graph of outstanding asks — reachability
    search, path reconstruction, cycle rendering, edge registration and
    multiset removal, with the proof that the graph stays acyclic;
  - `error.rs`: the error type, its retry classification, debugging tips and
    rendering;
  - `dead_letter.rs`: dead-letter reasons, the dead-letter tally and how each
    failed delivery is reported;
  - `metrics.rs`: per-actor message counts and processing times;
  - `actor_result.rs`: the outcome of an actor's lifecycle;
  - `lifecycle.rs`: what each turn of an actor's processing loop does and how
    its lifecycle ends;
  - `spawn.rs`: spawn options and the default mailbox capacity;
  - `clock.rs`: readings of the system clocks.
- `app/` — the asynchronous runtime on Tokio (actor handles, channels, the
  processing loop, process-wide registries), which delegates its decisions to
  the library.
- `tests/` — tests of the library.
