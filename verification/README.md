# gz_transport

The Gazebo Transport protocol as a Verus-verified library, with the networking
around it in `app/`.

`src/` (verified):

- `partition` — validating topic and partition names, building and reading fully
  qualified names `@/<partition>@<topic>`; a built name reads back as its parts.
- `discovery::registry` — the registry of discovered topics (publishers by node UUID)
  and services, with its invariant (names unique, every topic has a publisher) and
  laws on adding, removing, process removal and cleanup.
- `discovery::client` — how a received discovery message changes the registry
  (partition isolation, ADVERTISE/UNADVERTISE/BYE), the messages this process sends,
  and the discovery state the network tasks share.
- `discovery::message` — the 2-byte little-endian length frame, and its round trip.
- `config` — configuration, builder, environment values, default partition.
- `transport` — publisher, subscriber and service-call frames; service addresses.
- `msgs` — the discovery messages as plain values.
- `text` — character-level helpers (white space, digits, decimal text, parsing).

`app/` holds the tokio tasks, UDP multicast and ZeroMQ sockets, the protobuf types,
and the error type with its `thiserror` and outside-crate variants.
