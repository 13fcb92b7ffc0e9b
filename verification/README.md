# noaxiom

The verified core of the NoAxiom kernel: signals, run queues, load
balancing, lock bookkeeping and the logic of its system calls, written in
Verus with their contracts proved.

- `src/signal`: signal numbers, signal sets, actions and their defaults,
  pending queues, alternate stacks, the masks of interruptible waits.
- `src/sched`: FIFO, two-queue, expiring and multi-level schedulers, the
  completely fair scheduler of one core, load balancing between cores, the
  requests for tasks between cores, the count of live tasks.
- `src/sync`: cells and the interrupt bookkeeping of nested spin locks.
- `src/task.rs`: what the system calls read and change of a task: IDs,
  credentials, the descriptor table, root and working directory, signal
  state.
- `src/syscall`: the system call table and the calls that are answered from
  that state; for calls that read user memory, files or the clock, the
  decisions before and after that work (`pselect6`, `futex`, `sigtimedwait`,
  `copy_file_range`, `splice`, `renameat2`, `ioctl`, `chroot`, `chdir`,
  `fchmodat`, `faccessat`, `socket`, `mmap`, `getsockopt`, `add_key`,
  `wait4`).
- `app`: the executor that runs futures on the verified schedulers with
  `async-task`, task spawning and counting, and the printing of signal sets.

Each law that the kernel keeps across calls is a `law_*` proof function
beside the functions it speaks of.
