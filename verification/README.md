# ytmusic-service

A gRPC front end for YouTube Music, with its decision logic verified in
Verus.

## Layout

- `src/` — the verified library:
  - `status`, `error`: gRPC status codes, the subsystem metadata entry, and
    the mapping of every service, catalogue-client and cipher failure to a
    status;
  - `requests`: validation of incoming requests (blank fields, search
    filters, watch-playlist combinations, continuation tokens) and their
    translation into catalogue queries;
  - `config`, `v1::config`: configuration decisions (order of checks, the
    per-RPC timeout setting);
  - `auth`: auth-context version labels and the reload state machine, in
    which only a candidate that passed its authenticated probe becomes
    active;
  - `catalogue`, `wire`, `wire_v2`, `mapping`, `music_mapping`: the upstream
    models, the wire messages, and the field-for-field translation between
    them;
  - `servers`, `client`, `adapters`: the per-service request checks and
    failure statuses, client-side status helpers, and the catalogue seam;
  - `text`, `clock`, `seqmap`: string, time and collection helpers.
- `tests/` — tests run against the compiled library.
- `app/` — the program: environment and file-system reads, listener
  binding, and the tonic server (health checks and reflection).
