# some_global_executor

A thread-pool executor for the `some_executor` framework, split in two:

- `src/` is a Verus library with the executor's decisions and their proofs:
  - `waker`: the wake word of a task and its transitions (wake, alert
    registration, reset), over a `std` atomic;
  - `drain`: the running-task count that a drain waits on, with the waker of
    a pending drain (`atomic-waker`);
  - `scheduler`: the queue of tasks pinned to one worker thread: ready tasks,
    tasks parked until a wake, and the id counter;
  - `worker`: what a worker's loop does with each event;
  - `threadpool`: resize plans and the default pool size (`num_cpus`);
  - `channel`: the locked state of the executor's channel on WebAssembly;
  - `close`: the close bookkeeping that keeps a web worker alive while its
    tasks run.
- `app/` is the executor itself: threads, channels, `std::task::Waker`s and
  the `SomeExecutor` implementations, driving the library.

`tests/` runs the library on concrete values.
