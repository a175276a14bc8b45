# relibc on Seele, verified core

The platform layer of relibc for the Seele kernel, split in two:

- `src/` is a Verus library. It holds the decisions the layer makes around
  kernel calls (which requests are refused and with which `errno`, how
  Linux records map onto Seele's and back, the `epoll` bookkeeping, timer
  arithmetic, `posix_spawn` attributes and file actions, terminal settings,
  and the order of the calls of `socketpair` and `sendmsg`) with contracts
  that Verus proves, and laws (public proof functions named `lemma_*`) that
  relate the calls to each other. Two loops stay with the kernel calls: a
  spawned child's walk through its file actions (stopping at the first
  that fails), and `sigprocmask`'s conversion of the signal set into the
  kernel's own signal-set type.
- `app/` is ordinary Rust around it: the kernel calls themselves through
  `seele_sys`, process-wide state (locks, counters, `errno`), and the C
  entry points that hand raw pointers to the library as references.

`tests/` runs the library on concrete values.
