# apis

A reactive, session-oriented process-calculus framework. Processes are
threads that handle the messages of their channel endpoints and update in a
loop of one of three kinds; sessions are collections of processes and channels
in a fixed communication topology.

## Layout

- `src/` is the verified library:
  - `channel`: channel kinds and definitions, validated for well-formedness
    (a process at each end, no duplicates, no self-loops, as many producers
    and consumers as the kind admits);
  - `process`: process kinds and definitions, validated likewise; the life
    cycle of a process (`process::inner`); the decisions of the synchronous
    and asynchronous run loops (`process::run`);
  - `session`: session definitions, validated for a one-to-one
    correspondence between channel producers and consumers and process
    sourcepoints and endpoints; the life cycle of a session and the plan by
    which it starts its processes; the data-flow diagram as a graphviz DOT
    file (`session::dotfile`);
  - `lifecycle`: the `Ready`, `Running`, `Ended` machine that processes and
    sessions share;
  - `vec_maps` and `escape`: the calls into `vec_map` and `marksman_escape`.
- `app/` is the runtime: channels over `std::sync::mpsc`, processes on
  threads, sessions that spawn them and collect their results, and programs of
  sessions.
- `tests/` runs the library on concrete values.
