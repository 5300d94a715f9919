# springql-core (verified core)

The core of a stream-processing engine, written in Verus with its contracts
proved:

- `field`: resolution of `SELECT` field references (`attr`, `prefix.attr`)
  against the correlations of the `FROM` clause.
- `option`: `OPTIONS (...)` key-value pairs and the typed options read from
  them (in-memory queue name; network protocol, host and port).
- `row`: rows and the per-task row queues (first in, first out), shared
  under a verified reader-writer lock.
- `event`: events between workers and the blocking event queue that hands a
  published event to every subscriber of its tag.
- `query`: query plans, compiled into trees of query subtasks.
- `task`, `task_id`: source, pump and sink tasks and what one run does.
- `pipeline`: the pipeline graph and the task graph derived from it, held in
  a petgraph graph.
- `repositories`: the shared repositories of rows, source readers and sink
  writers, and the factories that read reader and writer options.
- `executor`, `worker`: the lock between pipeline updates and task runs, a
  pipeline update, and the decisions of the worker threads.

`app/` holds what needs threads, sockets and sleeping: starting worker
threads and network source readers.
