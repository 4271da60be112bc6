# edr_lite

The verified core of a small endpoint detection agent and its collection
server.

- `src/layout.rs`: little-endian field reads from raw buffers.
- `src/text.rs`: NUL-terminated buffers as text; decimal numerals.
- `src/agent.rs`: the kernel ring-buffer record, clock conversion and the
  record-to-event conversion.
- `src/telemetry.rs`: the published event.
- `src/store.rs`, `src/archive.rs`: storage keys and the stored encoding.
- `src/detect.rs`: Sigma and YARA rule loading and matching.
- `src/probe.rs`: process and file records of the older probe layout.
- `src/config.rs`, `src/server.rs`: stream settings and server replies.

`app/` holds the parts that talk to the kernel, the network and the disk.
