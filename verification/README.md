# aperture

The verified core of the Aperture OTLP gateway and its tenancy layer.

- `src/` holds the library, checked by Verus: token decoding (through
  `jsonwebtoken`), tenant validation and the tenant catalogue, readiness and
  shutdown state machines, the concurrency cap, body size caps for HTTP and
  gRPC, configuration building and validation, bind
  address rendering, the OTLP-to-pillar translation, record summaries, and the
  storage and forwarding sinks' decisions.
- `tests/` runs the library on concrete values.
- `app/` is the binary around it: argument and file handling, the axum and
  tonic servers, the clock and audit events, tracing and the storage back ends.
  It hands plain values to the library and acts on what comes back.
