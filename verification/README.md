# arcrelay-print

Printer sharing between the devices of a local network. A device publishes its
printers; another device installs a local print queue whose jobs are forwarded
to the publisher.

The library under `src/` holds the rules and proves them with Verus. It performs
no input or output: an operation that waits for storage, the network or the
spooler is a *flow*, a value that says what it needs next (`action`) and is
resumed with the answer (`resume`). `app/` drives the flows with SQLite, the
file system, HTTP, the print system and the network between devices.

- `src/domain/`: printers, shares, queues and jobs, and their life cycles.
- `src/application/`: the services, as flows.
- `src/infrastructure/`: the messages of the print protocol and both of its
  sides (`quic/`), the Internet Printing Protocol bridge (`ipp/`), the spool,
  storage, and the print systems of Linux, macOS and Windows (`platform/`).
- `src/text.rs`, `parts.rs`, `bytes.rs`, `order.rs`, `model.rs`: text, numbers
  in bytes, orders and sequences.
- `src/hash.rs`, `src/unique.rs`: digests and random identifiers.

Functions whose names begin with `law_` state what holds across operations. A
few functions are trusted and say so in their comments: they call `sha2`,
`uuid`, `image`, `serde_json` or the standard library.
