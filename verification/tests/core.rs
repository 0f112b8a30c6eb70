use std::future::Future;
use std::pin::Pin;
use std::sync::Arc;

use graph_flow::{Context, GraphBuilder, NextAction, Task, TaskResult};
use graphflow_stream::{
    finish_collect, session_id_for, start_task_or_error, Lifecycle, NextStep, NonStreaming, Phase, RunStatus,
    StreamEvent, SubgraphTask, TextCollector, TextForwarder,
};

fn started(id: &str) -> StreamEvent {
    StreamEvent::TaskStarted { task_id: id.to_string() }
}

fn token(id: &str, delta: &str) -> StreamEvent {
    StreamEvent::Token { task_id: id.to_string(), delta: delta.to_string() }
}

fn finished(id: &str) -> StreamEvent {
    StreamEvent::TaskFinished { task_id: id.to_string() }
}

fn failed(id: &str, error: &str) -> StreamEvent {
    StreamEvent::TaskFailed { task_id: id.to_string(), error: error.to_string() }
}

struct Greeter;

impl Task for Greeter {
    fn id(&self) -> &str {
        "greeter"
    }

    fn run<'life0, 'async_trait>(
        &'life0 self,
        _context: Context,
    ) -> Pin<Box<dyn Future<Output = graph_flow::Result<TaskResult>> + Send + 'async_trait>>
    where
        'life0: 'async_trait,
        Self: 'async_trait,
    {
        Box::pin(async move { Ok(TaskResult::new(None, NextAction::Continue)) })
    }
}

#[test]
fn wrapped_task_that_succeeds_reports_start_then_finish() {
    let wrapped = NonStreaming(7u32);
    assert_eq!(wrapped.0, 7);
    let mut life = Lifecycle::new("echo".to_string());
    assert_eq!(life.phase(), Phase::NotStarted);
    let first = life.start();
    assert_eq!(life.phase(), Phase::Running);
    let last = life.finish(Ok(()));
    assert_eq!(life.phase(), Phase::Ended);
    assert_eq!(vec![first, last], vec![started("echo"), finished("echo")]);
}

#[test]
fn wrapped_task_that_fails_reports_its_error_message() {
    let mut life = Lifecycle::new("echo".to_string());
    let first = life.start();
    let last = life.finish(Err("Task execution failed: boom".to_string()));
    assert_eq!(first, started("echo"));
    assert_eq!(last, failed("echo", "Task execution failed: boom"));
}

#[test]
fn forwarded_stream_sends_tokens_in_order_then_finish() {
    let mut fwd = TextForwarder::new("echo".to_string());
    let mut events = Vec::new();
    for delta in ["hel", "lo"] {
        events.push(fwd.token(delta.to_string()));
    }
    events.push(fwd.finish());
    assert_eq!(events, vec![token("echo", "hel"), token("echo", "lo"), finished("echo")]);
}

#[test]
fn empty_stream_sends_only_finish() {
    let mut fwd = TextForwarder::new("quiet".to_string());
    assert_eq!(fwd.finish(), finished("quiet"));
}

#[test]
fn collected_text_joins_token_deltas_in_order() {
    let events = vec![
        started("echo"),
        token("echo", "hel"),
        token("echo", "lo"),
        finished("echo"),
    ];
    let mut collector = TextCollector::new();
    for event in &events {
        collector.absorb(event);
    }
    assert_eq!(collector.into_text(), "hello");
}

#[test]
fn collecting_a_forwarded_stream_gives_its_text_back() {
    let mut fwd = TextForwarder::new("story".to_string());
    let mut collector = TextCollector::new();
    for delta in ["Once", " upon", " a", " time"] {
        collector.absorb(&fwd.token(delta.to_string()));
    }
    collector.absorb(&fwd.finish());
    assert_eq!(collector.into_text(), "Once upon a time");
}

#[test]
fn lifecycle_events_carry_no_text() {
    let mut collector = TextCollector::new();
    collector.absorb(&started("a"));
    collector.absorb(&failed("a", "nope"));
    collector.absorb(&finished("a"));
    assert_eq!(collector.into_text(), "");
}

#[test]
fn finish_collect_gives_text_on_success_and_error_otherwise() {
    let ok: Result<String, String> = finish_collect("hello".to_string(), Ok(()));
    assert_eq!(ok, Ok("hello".to_string()));
    let err: Result<String, String> = finish_collect("hel".to_string(), Err("join".to_string()));
    assert_eq!(err, Err("join".to_string()));
}

#[test]
fn only_a_paused_run_keeps_running() {
    let paused = RunStatus::Paused { next_task_id: "farewell".to_string(), reason: "step".to_string() };
    assert!(paused.keeps_running());
    assert!(!RunStatus::WaitingForInput.keeps_running());
    assert!(!RunStatus::Completed.keeps_running());
}

#[test]
fn nested_run_waiting_for_input_makes_outer_graph_wait() {
    assert_eq!(RunStatus::WaitingForInput.next_step(), NextStep::WaitForInput);
    assert_eq!(RunStatus::Completed.next_step(), NextStep::Continue);
    let paused = RunStatus::Paused { next_task_id: "x".to_string(), reason: "y".to_string() };
    assert_eq!(paused.next_step(), NextStep::Continue);
}

#[test]
fn session_id_is_task_id_colon_counter() {
    assert_eq!(session_id_for("subgraph", 42), "subgraph:42");
    assert_eq!(session_id_for("t", 0), "t:0");
    assert_eq!(session_id_for("t", 10), "t:10");
    assert_eq!(session_id_for("t", u64::MAX), "t:18446744073709551615");
    assert_eq!(session_id_for("", 7), ":7");
}

#[test]
fn start_task_is_the_graphs_start_or_an_error() {
    assert_eq!(start_task_or_error("inner", Some("greeter".to_string())), Ok("greeter".to_string()));
    assert_eq!(
        start_task_or_error("inner", None),
        Err("subgraph 'inner' has no start task".to_string())
    );
}

#[test]
fn distinct_counters_give_distinct_sessions() {
    assert_ne!(session_id_for("sub", 1), session_id_for("sub", 11));
    assert_ne!(session_id_for("sub", 1), session_id_for("sub", 10));
}

#[test]
fn session_ids_of_different_tasks_never_collide() {
    assert_ne!(session_id_for("a:1", 2), session_id_for("a", 12));
    assert_ne!(session_id_for("x:1", 2), session_id_for("x:12", 0));
    assert_eq!(session_id_for("x:1", 2), "x:1:2");
}

#[test]
fn subgraph_task_starts_at_its_graphs_start_task() {
    let graph = GraphBuilder::new("inner").add_task(Arc::new(Greeter)).build().unwrap();
    let task = SubgraphTask::new("subgraph".to_string(), Arc::new(graph));
    assert_eq!(task.id(), "subgraph");
    assert_eq!(task.graph().id, "inner");
    assert_eq!(task.start_task(), Ok("greeter".to_string()));
    assert_eq!(task.session_id(5), "subgraph:5");
}

#[test]
fn subgraph_task_over_graph_without_start_fails() {
    let task = SubgraphTask::new("subgraph".to_string(), Arc::new(graph_flow::Graph::new("empty")));
    assert_eq!(task.start_task(), Err("subgraph 'empty' has no start task".to_string()));
}
