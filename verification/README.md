# capstone

A session layer for the Capstone disassembly engine, verified with Verus.

The engine is a C library that does the disassembly. This crate keeps track of what an open engine
is set to, decides what the engine is asked, and turns the engine's answers into results:

- `src/session.rs` models an open engine (`Session`) and the changes that can be tried on it
  (`Change`);
- `src/engine.rs` models the exchanges with the engine: what its functions are handed, and what
  each answer comes to;
- `src/capstone.rs` is the executable session, `Capstone`, with contracts over these models;
- `src/laws.rs` states what holds over many operations, such as that a session always has the
  settings that the engine accepted last;
- `src/constants.rs`, `src/error.rs`, `src/instruction.rs`, `src/text.rs` and `src/arch/` hold the
  types that sessions are made of.

The library does not link the engine. Operations that need it take its functions as arguments, so
that their contracts hold for every answer of the engine. `app/` binds the session to the engine
through `capstone-sys`, and owns the memory that the engine allocates.

One thing is taken on trust: how `String::from_utf8_lossy` reads the names that the engine gives to
registers, instructions and groups.
