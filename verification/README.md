# service_pre

Service traits and their implementation: a service is a process (function call, thread, pool
task) that reads commands on a channel and replies on another channel. Services can suspend
and resume, on their input channel or on an asynchronous transport.

## Layout

- `src/` is the library, verified with Verus.
  - `lib.rs`: the traits (`Service`, `Spawner`, `SpawnHandle`, `SpawnSend`, `SpawnRecv`, ...).
  - `error.rs`: the error kinds and their levels (panic, shut action, yield).
  - `spawn/`: the spawn loop as a machine (`SpawnLoop`) with its laws on runs, one turn of the
    loop with a service and its channels, or handing its commands out to a pool
    (`spawn/run.rs`), one call in a chain of pooled calls, the state behind a restart handle
    (`spawn/restart.rs`), the park flag of thread spawners,
    and the spawner that runs nothing (`spawn/void.rs`).
  - `channels/`: channels that carry nothing, local queues, std mpsc channels, channels with a
    default command, and channels registrable on a mio poll.
  - `eventloop/`: readiness, events and registration, and the mio poll.
  - `transport.rs`: what a read or write that yields on would block does after each attempt.
- `app/` holds what runs the loop to its exit (it may never end) and what needs threads, a
  thread pool, or std io traits: the blocking, restart, thread and cpu pool spawners, and the
  read and write adapters.
- `tests/` exercise the library on concrete values.
