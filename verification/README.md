# zone_metrics

Verified building blocks of a blockchain node, proved with Verus.

- `src/metrics.rs`, `src/services.rs`: the record of each metric the node's
  services emit (instrument kind, name, value, attributes) and the value
  conversions behind them.
- `src/provider.rs`: the calls into the OpenTelemetry metrics API, with a log
  of what each call handed the meter provider.
- `src/registry.rs`: the OpenTelemetry instrument registry; one instrument per
  name and kind, created on first use.
- `src/hex_codec.rs`: hex encoding and decoding through the `hex` crate, and
  32-byte identifiers.
- `src/node_url.rs`: node URLs, parsed by the `url` crate through `reqwest`.
- `src/zone.rs`: inscription and query arguments, and channel queries over fetched blocks.
- `src/config/`: configuration defaults.
- `src/text.rs`, `src/sequencer.rs`, `src/indexer.rs`: the sqlite zone demo's
  query rules, replies, statement queueing and batching.
- `app/`: the runtime around the library (global registry, floating-point
  metrics, serde configuration forms, C bindings, database and HTTP services,
  the sequencer's start-up).
