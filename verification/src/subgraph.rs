//! A task that runs a whole nested graph in a session of its own.
use vstd::prelude::*;
use std::sync::Arc;
use graph_flow::Graph;
use crate::decimal::{
    decimal, decimal_value, is_digit, lemma_decimal_canonical, lemma_decimal_injective,
    lemma_decimal_no_colon, lemma_decimal_value, push_decimal,
};

verus! {

/// `graph_flow::Graph`, carried through as an opaque value.
#[verifier::external_type_specification]
#[verifier::external_body]
pub struct ExGraph(Graph);

/// The start task that a graph was built with, as its id's text.
pub uninterp spec fn graph_start_of(graph: Graph) -> Option<Seq<char>>;

/// The id of a graph, as text.
pub uninterp spec fn graph_id_of(graph: Graph) -> Seq<char>;

/// Calls `Graph::start_task_id` and copies the id out. The call returns the
/// start task stored in the graph, which never changes after the graph is
/// built; the contract names that task `graph_start_of`.
#[verifier::external_body]
fn graph_start_task_id(graph: &Graph) -> (start: Option<String>)
    ensures
        match start {
            Some(s) => graph_start_of(*graph) == Some(s@),
            None => graph_start_of(*graph) is None,
        },
{
    graph.start_task_id().map(String::from)
}

/// Reads the public field `Graph::id`; the contract names its text
/// `graph_id_of`.
#[verifier::external_body]
fn graph_id(graph: &Graph) -> (id: String)
    ensures
        id@ == graph_id_of(*graph),
{
    graph.id.clone()
}

/// The id of the session of a nested run: the task's id, a colon, and the
/// run counter in decimal.
pub open spec fn session_id_of(task_id: Seq<char>, counter: nat) -> Seq<char> {
    task_id + seq![':'] + decimal(counter)
}

/// Runs of a nested graph task numbered differently get different sessions:
/// for one task id, distinct run counters give distinct session ids.
pub proof fn lemma_session_ids_distinct(task_id: Seq<char>, a: nat, b: nat)
    requires
        a != b,
    ensures
        session_id_of(task_id, a) != session_id_of(task_id, b),
{
    lemma_decimal_injective(a, b);
    let sa = session_id_of(task_id, a);
    let sb = session_id_of(task_id, b);
    let k = task_id.len() + 1;
    assert(sa.subrange(k as int, sa.len() as int) =~= decimal(a));
    assert(sb.subrange(k as int, sb.len() as int) =~= decimal(b));
}

/// What a session id is made of: the task's id, then a single colon, then
/// the counter's digits and nothing else. Everything after the colon is a
/// digit, there are no leading zeros (a `'0'` right after the colon only for
/// counter zero), and the digits read back as the counter.
pub proof fn lemma_session_id_shape(task_id: Seq<char>, counter: nat)
    ensures
        session_id_of(task_id, counter).subrange(0, task_id.len() as int) == task_id,
        session_id_of(task_id, counter)[task_id.len() as int] == ':',
        forall|i: int|
            task_id.len() < i < session_id_of(task_id, counter).len() ==> is_digit(
                #[trigger] session_id_of(task_id, counter)[i],
            ),
        session_id_of(task_id, counter)[task_id.len() as int + 1] == '0' ==> counter == 0,
        decimal_value(
            session_id_of(task_id, counter).subrange(
                task_id.len() as int + 1,
                session_id_of(task_id, counter).len() as int,
            ),
        ) == counter,
{
    lemma_decimal_canonical(counter);
    let s = session_id_of(task_id, counter);
    let k = task_id.len() + 1;
    assert(s.subrange(0, task_id.len() as int) =~= task_id);
    assert(s.subrange(k as int, s.len() as int) =~= decimal(counter));
    assert forall|i: int| task_id.len() < i < s.len() implies is_digit(#[trigger] s[i]) by {
        assert(s[i] == decimal(counter)[i - k]);
    }
    assert(s[k as int] == decimal(counter)[0]);
}

/// A session id tells both the task and the run counter it was made from:
/// runs of different tasks, or different runs of one task, never share a
/// session id. (The counter is written in digits only, so the id's last
/// colon is the one that separates the task id from the counter.)
pub proof fn lemma_session_id_unique(t1: Seq<char>, a: nat, t2: Seq<char>, b: nat)
    ensures
        session_id_of(t1, a) == session_id_of(t2, b) ==> t1 == t2 && a == b,
{
    let s1 = session_id_of(t1, a);
    let s2 = session_id_of(t2, b);
    if s1 == s2 {
        lemma_decimal_no_colon(a);
        lemma_decimal_no_colon(b);
        lemma_decimal_value(a);
        lemma_decimal_value(b);
        if t1.len() < t2.len() {
            let k = t2.len() as int;
            let p1 = t1 + seq![':'];
            assert(s1 == p1 + decimal(a));
            assert(s1.len() == s2.len());
            assert(p1.len() <= k < s1.len());
            assert(s2[k] == ':');
            assert(s1[k] == decimal(a)[k - p1.len()]);
            assert(false);
        } else if t2.len() < t1.len() {
            let k = t1.len() as int;
            let p2 = t2 + seq![':'];
            assert(s2 == p2 + decimal(b));
            assert(s1.len() == s2.len());
            assert(p2.len() <= k < s2.len());
            assert(s1[k] == ':');
            assert(s2[k] == decimal(b)[k - p2.len()]);
            assert(false);
        }
        assert(t1 =~= s1.subrange(0, t1.len() as int));
        assert(t2 =~= s2.subrange(0, t2.len() as int));
        let k = t1.len() + 1;
        assert(s1.subrange(k as int, s1.len() as int) =~= decimal(a));
        assert(s2.subrange(k as int, s2.len() as int) =~= decimal(b));
        if a != b {
            lemma_decimal_injective(a, b);
        }
    }
}

/// The error message when a nested graph has no start task.
pub open spec fn missing_start_message(graph_id: Seq<char>) -> Seq<char> {
    "subgraph '"@ + graph_id + "' has no start task"@
}

/// The task at which a nested run starts: the nested graph's start task
/// `start`; with none, the run fails with the message for `graph_id`.
pub fn start_task_or_error(graph_id: &str, start: Option<String>) -> (res: Result<String, String>)
    ensures
        match start {
            None => res matches Err(msg) && msg@ == missing_start_message(graph_id@),
            Some(s) => res matches Ok(t) && t@ == s@,
        },
{
    match start {
        None => {
            let mut msg = String::from_str("subgraph '");
            msg.append(graph_id);
            msg.append("' has no start task");
            proof {
                reveal_strlit("subgraph '");
                reveal_strlit("' has no start task");
            }
            Err(msg)
        },
        Some(start_task_id) => Ok(start_task_id),
    }
}

/// The id of the session of the nested run numbered `counter` of task
/// `task_id`: the task's id, a colon, and the counter in decimal.
pub fn session_id_for(task_id: &str, counter: u64) -> (id: String)
    ensures
        id@ == session_id_of(task_id@, counter as nat),
        id@.len() == task_id@.len() + 1 + decimal(counter as nat).len(),
        id@.subrange(0, task_id@.len() as int) == task_id@,
        id@[task_id@.len() as int] == ':',
        id@.subrange(task_id@.len() as int + 1, id@.len() as int) == decimal(counter as nat),
{
    let mut id = String::from_str(task_id);
    id.append(":");
    push_decimal(&mut id, counter);
    proof {
        reveal_strlit(":");
        let t = task_id@;
        assert(id@.subrange(0, t.len() as int) =~= t);
        assert(id@.subrange(t.len() as int + 1, id@.len() as int) =~= decimal(counter as nat));
    }
    id
}

/// A task that runs a nested graph to completion in a session of its own,
/// so that its streamed events reach the listener of the task around it.
pub struct SubgraphTask {
    id: String,
    graph: Arc<Graph>,
}

impl SubgraphTask {
    /// The task's id, as the outer graph knows it.
    pub closed spec fn spec_id(&self) -> Seq<char> {
        self.id@
    }

    /// The nested graph.
    pub closed spec fn spec_graph(&self) -> Arc<Graph> {
        self.graph
    }

    /// A task with id `id` that runs `graph`.
    pub fn new(id: String, graph: Arc<Graph>) -> (task: SubgraphTask)
        ensures
            task.spec_id() == id@,
            task.spec_graph() == graph,
    {
        SubgraphTask { id, graph }
    }

    /// The task's id.
    pub fn id(&self) -> (id: &str)
        ensures
            id@ == self.spec_id(),
    {
        self.id.as_str()
    }

    /// The nested graph.
    pub fn graph(&self) -> (graph: &Arc<Graph>)
        ensures
            *graph == self.spec_graph(),
    {
        &self.graph
    }

    /// The task at which a run starts: the nested graph's start task; when
    /// the graph has none, the run fails with the message for the graph's id.
    pub fn start_task(&self) -> (res: Result<String, String>)
        ensures
            match graph_start_of(*self.spec_graph()) {
                Some(s) => res matches Ok(t) && t@ == s,
                None => res matches Err(msg) && msg@ == missing_start_message(
                    graph_id_of(*self.spec_graph()),
                ),
            },
    {
        let start = graph_start_task_id(&self.graph);
        let gid = graph_id(&self.graph);
        start_task_or_error(gid.as_str(), start)
    }

    /// The id of the session of the run numbered `counter`.
    pub fn session_id(&self, counter: u64) -> (id: String)
        ensures
            id@ == session_id_of(self.spec_id(), counter as nat),
    {
        session_id_for(self.id.as_str(), counter)
    }
}

} // verus!
