# rumqtt_quic

The QUIC transport of an MQTT client and broker.

- `src/` is the verified library: the client's connection handshake
  (`client`) and the broker's accept handshake (`server`) as state machines
  with their error types, the outside types those errors carry (`outside`),
  and the benchmark report record with the naming of flamegraph files
  (`report`).
- `app/` runs the state machines against `quinn`'s endpoints, implements
  tokio's `AsyncRead`/`AsyncWrite` for the stream pair, and writes profiles
  with `pprof`.
- `tests/` exercises the library on concrete values.
