# hutch

Hutch runs programs written for the Glenda microkernel on a host operating system: a
program connects over a Unix socket and sends its system calls, and hutch answers them
with host resources.

- `src/` is the verified library. It holds the kernel's bookkeeping and the formats it
  speaks: the capability space with its derivation tree (`kernel::cspace`,
  `kernel::cdt`), endpoint IPC as a state machine whose steps tell the host what to
  deliver, whom to wake and what to wait for (`kernel::endpoint`), the IRQ table
  (`kernel::irq`), exception reports (`kernel::trap`), the capability invocations
  (`syscall`), the heap break and service registry (`service::resource`), the device
  database (`service::device`), sandbox paths, seeking and directory records
  (`service::fs`, `service::dirent`), the time service (`service::time`), the VFIO
  argument blocks (`io::vfio`) and the client framing (`proto`).
- `app/` is the host program: argument handling, the socket server, the threads that
  block on endpoints, the reply channels, host files, sockets, processes, terminals,
  VFIO ioctls and the I/O ring emulator. It speaks Glenda's wire protocol through the
  `glenda` library.
- `tests/` runs the library on concrete values.
