# ruactor

An actor runtime whose kernel is verified.

- `src/` is the kernel: what an actor keeps between messages (stash,
  timers with generations, children, receive timeout), the decisions of the
  dispatcher (internal messages, termination and watchers, routing of
  messages, receive timeouts, where the next message comes from), the flags
  of a mailbox and its message queue, the options an actor is created with,
  generated names, paths and the registry of top-level actors. The kernel's
  state is stated over mathematical models, and the laws that tie several
  operations together are proof functions. The message queue is shared by
  many threads, so of its length and of what a pop returns nothing is
  stated; a push to an unbounded queue always succeeds, and a message a
  bounded queue refuses comes back unchanged.
- `app/` is the runtime around the kernel: the `Actor` trait and its
  handlers, `ActorRef`, props, the mailbox on tokio and rayon, the
  dispatcher's loop that runs the handlers, the timer scheduler, the
  `ActorSystem`, and the `ask!` and `reply_to!` macros.
- `tests/` runs the kernel on concrete values.
