# cor

A small Linux container runtime whose decisions are verified with Verus.

- `src/` is the verified library. It describes every operation on the host
  as a plain value (`syscall::Syscall`, wrapped with its messages in a
  `syscall::Step`), sequences steps in plans that stop at the first failure
  (`plan`), and takes the runtime's decisions in two state machines
  (`runtime::RunMachine` for `run`, `runtime::ChildMachine` for `child`).
  The text of cgroup control files is rendered and read back by verified code
  (`decimal`, `text`).
- `app/main.rs` is the program: it reads the command line, makes the system
  calls that the library describes, and feeds their outcomes back to the
  machines.
- `tests/` exercises the library on concrete values.

Usage, as root, with a root file system under `rootfs`:

    cor run /bin/bash

Targets: 64-bit Linux with glibc (x86_64, aarch64). The library states the
values that the `libc` crate gives its constants there (`MS_*` as `u64`,
`SIGCHLD` 17, `SIGKILL` 9, `SA_RESTART` 0x10000000, `SA_NOCLDSTOP` 1); other
architectures (mips, sparc) and 32-bit targets differ.
