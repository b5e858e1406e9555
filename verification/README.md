# introspect

The inspection-plane component of a Persona engine: a daemon that answers
typed observation queries, admits and coalesces targeted system events, keeps
component and delivery traces, and two command-line clients (`introspect`
and `meta-introspect`).

The decisions are a Verus-verified library under `src/`:

- `contract` — admission of system events and their exact-duplicate identity;
- `coalescer` — exact-duplicate windows: joining, interval closure, eviction,
  flushing, with laws on what every ingestion keeps;
- `store`, `store_record`, `key_text`, `ordering` — what a query selects from
  scanned rows and in what order, which rows a retention cap reclaims, and the
  record keys rows are stored under, with laws on how keys sort;
- `runtime` — how the root answers each query, whether the router is asked
  at all and how its reply is read as readiness, and the audit trail's
  numbering;
- `daemon`, `meta`, `command`, `supervision` — the daemon's reading of its
  configuration, the meta-plane policy, the clients' environments, and the
  supervision relation;
- `wire` — the typed values all of the above read.

`app/` is the process edge: sockets, the actor runtime, the durable store,
the datom text codec and the rkyv Signal frames, all calling into the library
for every decision.
