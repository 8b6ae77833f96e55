# rust_gpu_driver_lab

A simulated GPU driver whose logic is specified and proved with Verus:
device lifecycle, DMA buffers, command validation, submission queues,
typed register access and interrupt/status polling.

## Layout

- `src/lib.rs` — `GpuDevice`: buffer allocation, writes, reads, release.
- `src/command.rs` — validation of raw commands (identifier, aligned range, priority).
- `src/device_state.rs` — firmware checking and the `Offline → FirmwareLoaded → Ready` lifecycle.
- `src/submission.rs` — validation of a command against a buffer's initialized data.
- `src/queue.rs`, `src/static_queue.rs`, `src/queue_backend.rs` — a growable and a
  ring-buffer FIFO without duplicate command identifiers, behind one queue trait.
- `src/driver.rs`, `src/generic_driver.rs` — driver facades combining the above.
- `src/typed_driver.rs`, `src/typed_generic_driver.rs`, `src/submission_session.rs` —
  lifecycle states as type markers, and exclusive submission sessions.
- `src/mmio.rs`, `src/registers.rs`, `src/register_fields.rs`, `src/interrupts.rs` —
  bounds-checked register regions, typed registers and bit fields.
- `src/polling.rs` — waiting for a device to become ready within a time budget.
- `app/lib.rs` — what needs the host: a wall-clock poll timer and register
  regions built from raw addresses.

Each public function states its result in `ensures`; the laws that relate
several operations are public proof functions next to the types they concern.
