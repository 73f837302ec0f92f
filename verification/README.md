# forkbox

A rootless micro-sandbox for short-lived commands. A sandbox is a process that locks itself
into Linux namespaces of its own, mounts an overlay in memory over the host's files, limits
itself, puts a seccomp filter in force and then runs a shell command, while its parent reads what
the command writes, kills it when its time is over and clears away what it left behind.

The decisions are a library verified with Verus; the system calls are ordinary Rust around
it.

- `src/` holds the library. Work that alternates with system calls is a state machine: it
  says what to do next and is told what came of it. Public proof functions whose names
  begin with `law_` state what holds of the whole, such as what the filter decides for
  every system call, that no command runs on the host's own files or without the filter,
  and that a command that runs out of time is killed, however much it writes, and answered
  with exit code 124.
- `src/platform.rs` and one function of `src/output.rs` are trusted: they hand out
  constants of `libc` and `nix`, and call the standard library's lossy UTF-8 decoder.
- `tests/` runs the library on concrete values.
- `app/` is the program: `forkbox daemon` serves clients on `/tmp/forkbox.sock`, one JSON
  line each way; `forkbox exec <command>` runs one command; without arguments it shows what
  the sandbox does.

A sandbox that does not get its confinement ends instead of running its command: exit code
101 if it could not become root in a namespace of users, 102 if it could not leave the
host's other namespaces, 103 if it got no file system of its own, 104 if the kernel refused
the filter. The limits on processor time and processes are asked for and not insisted on.
