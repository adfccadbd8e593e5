# minidumper

The server of a crash monitor. Client processes connect to it, send it messages,
and ask it for a minidump of themselves when they crash.

- `src/` is the verified library. It decides: what a message means, whom to
  believe, when to answer, whom to drop, which system call comes next.
- `app/` makes the system calls that the library asks for, on sockets and on named
  pipes.
- `tests/` runs the library.

Every operation that alternates system calls and decisions is a state machine. Its
`next` is a specification function from an outcome to the state after it and the
next call; its `step` is proved to do that. What the server promises stands beside
the machines, as proof functions called `law_..`.

Bytes are read with `scroll`, crash contexts with `crash-context`, and socket
addresses are made with `uds`. These calls are the trusted ones, together with one
of the standard library, for the last error number. `uds` and the contexts that travel over sockets exist on
Linux and Android, which is where the library is built; what it decides for macOS
and Windows is part of it all the same.
