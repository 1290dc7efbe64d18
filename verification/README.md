# shpool_pty

Forking a program onto a fresh pseudo-terminal.

- `src/` is the verified library: how the return values of the pty system
  calls are read (`descriptor`, `fork::pty::master`, `fork::pty::slave`), the
  fork itself as a sequence of steps (`fork::ForkState`), what waiting on the
  child decides (`fork::wait_outcome`), and the laws that hold of every run of
  a fork (`fork::laws`).
- `app/` makes the system calls: `Master`, `Slave`, `descriptor::open`, and
  `ForkExt::new`, which performs the actions that `ForkState` asks for.
- `tests/` runs the library on concrete values.
