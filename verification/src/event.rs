//! The events that a streaming run sends to its listener.
use vstd::prelude::*;

verus! {

/// One event of a streamed run: a task started, produced a piece of text,
/// finished, or failed with an error message.
#[derive(Debug, Clone, PartialEq, Eq)]
pub enum StreamEvent {
    TaskStarted { task_id: String },
    Token { task_id: String, delta: String },
    TaskFinished { task_id: String },
    TaskFailed { task_id: String, error: String },
}

/// The mathematical value of a [`StreamEvent`]: its variant and the text of
/// each of its fields.
pub enum EventView {
    Started { task_id: Seq<char> },
    Token { task_id: Seq<char>, delta: Seq<char> },
    Finished { task_id: Seq<char> },
    Failed { task_id: Seq<char>, error: Seq<char> },
}

impl View for StreamEvent {
    type V = EventView;

    open spec fn view(&self) -> EventView {
        match self {
            StreamEvent::TaskStarted { task_id } => EventView::Started { task_id: task_id@ },
            StreamEvent::Token { task_id, delta } => EventView::Token {
                task_id: task_id@,
                delta: delta@,
            },
            StreamEvent::TaskFinished { task_id } => EventView::Finished { task_id: task_id@ },
            StreamEvent::TaskFailed { task_id, error } => EventView::Failed {
                task_id: task_id@,
                error: error@,
            },
        }
    }
}

impl EventView {
    /// The id of the task that the event is about.
    pub open spec fn task_id(self) -> Seq<char> {
        match self {
            EventView::Started { task_id } => task_id,
            EventView::Token { task_id, .. } => task_id,
            EventView::Finished { task_id } => task_id,
            EventView::Failed { task_id, .. } => task_id,
        }
    }

    /// The text that the event contributes to the streamed answer: the
    /// delta of a token, nothing for any other event.
    pub open spec fn text(self) -> Seq<char> {
        match self {
            EventView::Token { delta, .. } => delta,
            _ => Seq::empty(),
        }
    }

    /// Whether the event closes a task's run.
    pub open spec fn is_terminal(self) -> bool {
        self is Finished || self is Failed
    }
}

} // verus!
