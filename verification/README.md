# wasmhost

Parts of a WebAssembly host, verified with Verus:

- `component`: the table that maps handles to resources, with its free list, its
  families of parents and children, and its account of the memory that the
  resources use. `table_view.rs` is the mathematical model, `table_laws.rs` says
  what holds across operations, and `history.rs` what the account comes to after
  any number of calls.
- `x64`: what each instruction of the x86-64 back end puts into the code buffer,
  as a list of steps. `emit.rs` is the entry, and `can_emit.rs` tests beforehand
  what it needs; `laws.rs` and `labels.rs` say what holds of all instructions.
- `tls`: client connections over TLS as resources of the table.
- `udp`, `contref`: datagram streams, and references to continuations.

`app/` is ordinary Rust around the library: asynchronous plumbing, a borrow that
is used like a reference, and a player that puts steps into a code buffer.
