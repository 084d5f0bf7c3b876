# cancellable_io

Cancellable synchronous network I/O: TCP streams, TCP listeners and UDP sockets that are similar
to those of `std::net`, except that an operation on them can be cancelled from elsewhere through
the `Canceller` object that each of them is created with.

* `src/` is the library, verified with Verus. It takes the decisions: how a socket is set up, which
  address it ends up on, what a waiting operation does after each poll, and how a cancelled
  operation is recognised. It makes no system call of its own, but for waking a poll to cancel.
* `app/` holds the sockets. It polls, reads, writes and registers with `mio` as the library says.
* `tests/` runs the library, partly against real polls.

The contracts rest on a few facts about `mio` and the standard library that are not proved; each
is stated, with its contract, next to the call it is about.
