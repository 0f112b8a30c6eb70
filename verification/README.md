# graphflow_stream

Streaming events out of `graph_flow` task and graph runs.

- `src/` is the verified core (Verus): the `StreamEvent` type and its view,
  the lifecycle events of a wrapped non-streaming task (`Lifecycle`), turning
  a text stream into token events and token events back into text
  (`TextForwarder`, `TextCollector`), how a nested graph run picks its start
  task and names its session (`SubgraphTask`, `decimal`), and when a graph run
  is driven further (`RunStatus`). Laws about them are proof functions next
  to the code.
- `app/` is the async plumbing around it, with `tokio` and `graph_flow`:
  the task-local sender, `emit_*`, `spawn_task`, `spawn_graph`,
  `collect_text`, and the `graph_flow::Task` impls.
- `tests/` runs the core on concrete values.
