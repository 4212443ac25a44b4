# photolibrariancore

The core of a photo catalogue, verified with Verus.

- `src/catalogue.rs`: serialized access to the catalogue's one database connection.
- `src/handoff/`: the handoff of a catalogue between two processes. An agent holds it open; an app
  may write only once the agent has let go. Each part is a machine that is told what came of a step
  and says which step is next.
- `src/repro/`: the driver that replays the focus-analysis writeback against a copy of a catalogue:
  its settings, its queue, the rows that it synthesizes, what it makes of a receipt, and when it
  stops. Measured quantities are exact, in hundredths with a fraction over two to the power of 53.
- `src/text.rs`: numerals, substring search and the numbers accepted from the environment.
- `app/`: the program around it, with DuckDB, files, processes, the clock and tokio.

The library is generic in the connection and the error of the database engine; `app/` puts in
DuckDB's. What is not proved stands in the doc comments of the declared types of tokio, once_cell
and std, of `OnceCell::get` and `OnceCell::set`, and of `to_upper`.
