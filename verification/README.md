# mpsc

Multi-producer, single-consumer FIFO channels, verified with Verus.

- `src/queue.rs`: the FIFO queue that buffers messages.
- `src/packet.rs`: the state shared by the two halves of a channel, with its
  mathematical model (`ChannelState`) and exact contracts for every operation.
- `src/laws.rs`: properties of channels proved over that model (FIFO order,
  bounded buffers, rendezvous, disconnection).
- `src/channel.rs`: the handles (`Sender`, `SyncSender`, `Receiver`) that share
  one packet behind a verified lock, and the single attempts of blocking
  operations.
- `src/error.rs`: the error types.
- `app/`: the waiting loops of blocking operations, error types with `Display`,
  and a stress program.

## Differences from `std::sync::mpsc`

- Handles disconnect only through `close(self)`. Verus does not accept a
  `Drop` for them, so a `Sender`, `SyncSender` or `Receiver` that is dropped
  without `close` leaves the channel connected for good, and the other side
  may wait forever.
- One packet type serves every channel; std's specialised packets for
  one-shot, single-producer and shared channels are not reproduced.
- Blocking is done in `app/` by repeating a verified attempt and yielding the
  thread between attempts; that waiting is not verified to end.
- Every property in `src/laws.rs` is stated over the model of the shared
  packet. A handle's own contract only says that its result is what the
  packet operation gives on some state that the lock can hold, since other
  threads act on the channel between two calls.
