# capture_transfer

The frame-transfer core of a desktop capture daemon, written in Verus: the
shared video control ring and its byte layout, session and event
bookkeeping, native surface pools and frame leases, the attach handshake,
the daemon's wire records, and the decisions of the C ABI and of the
Windows console worker. Every function in `src/` is verified against its
contract but one: `opaque_byte` in `native/attach.rs` is a trusted wrapper
around `std::hint::black_box`, whose contract (it returns its argument) is
taken on trust. The laws that relate several functions are public proof
functions named `law_*`.

Layout:

- `src/` — the verified library.
  - `control_page.rs`, `control_page/mapping.rs` — the ring, its configs and
    consumer cursors; the byte image a mapping of the page holds.
  - `state.rs`, `model.rs` — sources, tracks and the replayable event log.
  - `native.rs`, `native/` — the native producer over a surface backend, the
    attach endpoint, frame leases, a deterministic in-memory backend, the
    Linux grant records, the value-level rules of the synthetic, PipeWire and
    Vulkan Linux backends, and the macOS format and status numbers.
  - `daemon.rs`, `daemon/frames.rs`, `transfer_channel.rs` — the daemon's HTTP
    answers, session records and capture transfer channel.
  - `ffi.rs`, `ffi_native.rs` — the C ABI's numbers, records and decisions.
  - `fdpass.rs`, `shm.rs` — descriptor-passing checks and shared-memory
    segments.
  - `worker.rs` — the console worker's rendezvous names, helper policy and
    commit exchange.
- `tests/` — tests of the library, run against the compiled crate.
- `app/` — the host side: JSON encodings, Unix sockets and mappings, C
  pointers, and the Windows system calls of the console worker.
