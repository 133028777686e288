# util_libs

Shared libraries of the Holo hosting services: NATS clients and jetstream
services, MongoDB collections, the NSC proxy, leaf servers and squashfs
archives. The decisions they make are written in Verus and proved against
their contracts; the I/O around them is ordinary Rust.

- `src/` — the verified library. Each module states its behaviour in
  `requires`/`ensures` over mathematical models, and the properties that relate
  several functions as `law_*` proof functions.
  - `nats_names`, `stream_service`, `registry`, `endpoint`: naming, consumers and
    replies of jetstream services.
  - `connection`, `client_types`, `retry`, `leaf_server`, `microservice`,
    `hc_http_gw`, `claims`: NATS clients, servers and services.
  - `collection`, `documents`, `metadata_update`, `indices`, `schemas`,
    `hosting_schemas`: MongoDB documents and updates.
  - `nsc`: the NSC proxy's requests, checks and command lines.
  - `squashfs_paths`, `text`, `urls`, `errors`, `mocks`.
- `tests/` — tests of the library on concrete values.
- `app/` — the NSC proxy server and the asynchronous clients, services and
  stores that run the library's decisions against NATS, MongoDB, HTTP and the
  file system.
