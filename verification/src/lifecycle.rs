//! The lifecycle events of a task that does not stream by itself.
use vstd::prelude::*;
use crate::event::{EventView, StreamEvent};
use crate::text::streamed_text;

verus! {

/// Wraps a task that streams nothing by itself, so that a listener still
/// hears when it starts and how it ends.
pub struct NonStreaming<T>(pub T);

/// Where a wrapped run stands.
#[derive(Debug, Clone, Copy, PartialEq, Eq)]
pub enum Phase {
    /// Nothing sent yet.
    NotStarted,
    /// The start was sent; the wrapped task runs.
    Running,
    /// The run's end was sent.
    Ended,
}

/// The event that closes a wrapped run of task `task_id`: its finish when
/// the run succeeded, its failure with the error's message otherwise.
pub open spec fn closing_event(task_id: Seq<char>, outcome: Result<(), Seq<char>>) -> EventView {
    match outcome {
        Ok(()) => EventView::Finished { task_id },
        Err(msg) => EventView::Failed { task_id, error: msg },
    }
}

/// The events that a wrapped run has sent in each phase.
pub open spec fn lifecycle_events(task_id: Seq<char>, phase: Phase, outcome: Result<(), Seq<char>>)
    -> Seq<EventView> {
    match phase {
        Phase::NotStarted => Seq::empty(),
        Phase::Running => seq![EventView::Started { task_id }],
        Phase::Ended => seq![EventView::Started { task_id }, closing_event(task_id, outcome)],
    }
}

/// The view of an error message in a run's outcome.
pub open spec fn outcome_view(outcome: Result<(), String>) -> Result<(), Seq<char>> {
    match outcome {
        Ok(()) => Ok(()),
        Err(msg) => Err(msg@),
    }
}

/// The events of one wrapped run of a task: its start before the task
/// runs, then exactly one closing event once it has returned.
pub struct Lifecycle {
    task_id: String,
    phase: Phase,
    outcome: Ghost<Result<(), Seq<char>>>,
}

impl Lifecycle {
    /// The id of the wrapped task.
    pub closed spec fn spec_task_id(&self) -> Seq<char> {
        self.task_id@
    }

    /// Where the run stands.
    pub closed spec fn spec_phase(&self) -> Phase {
        self.phase
    }

    /// How the run ended, once it has.
    pub closed spec fn spec_outcome(&self) -> Result<(), Seq<char>> {
        self.outcome@
    }

    /// The events sent so far.
    pub open spec fn sent(&self) -> Seq<EventView> {
        lifecycle_events(self.spec_task_id(), self.spec_phase(), self.spec_outcome())
    }

    /// The lifecycle of a run of task `task_id` that has not started.
    pub fn new(task_id: String) -> (l: Lifecycle)
        ensures
            l.spec_task_id() == task_id@,
            l.spec_phase() == Phase::NotStarted,
            l.sent() == Seq::<EventView>::empty(),
    {
        Lifecycle { task_id, phase: Phase::NotStarted, outcome: Ghost(Ok(())) }
    }

    /// Where the run stands.
    pub fn phase(&self) -> (p: Phase)
        ensures
            p == self.spec_phase(),
    {
        self.phase
    }

    /// The event sent before the wrapped task runs: its start.
    pub fn start(&mut self) -> (event: StreamEvent)
        requires
            old(self).spec_phase() == Phase::NotStarted,
        ensures
            event@ == (EventView::Started { task_id: old(self).spec_task_id() }),
            final(self).spec_task_id() == old(self).spec_task_id(),
            final(self).spec_phase() == Phase::Running,
            final(self).sent() == old(self).sent().push(event@),
    {
        self.phase = Phase::Running;
        let event = StreamEvent::TaskStarted { task_id: self.task_id.clone() };
        assert(self.sent() =~= seq![event@]);
        event
    }

    /// The event sent once the wrapped task has returned: its finish when
    /// `outcome` is `Ok`, its failure carrying the error's message otherwise.
    pub fn finish(&mut self, outcome: Result<(), String>) -> (event: StreamEvent)
        requires
            old(self).spec_phase() == Phase::Running,
        ensures
            event@ == closing_event(old(self).spec_task_id(), outcome_view(outcome)),
            outcome is Ok ==> event@ == (EventView::Finished { task_id: old(self).spec_task_id() }),
            outcome matches Err(m) ==> event@ == (EventView::Failed {
                task_id: old(self).spec_task_id(),
                error: m@,
            }),
            final(self).spec_task_id() == old(self).spec_task_id(),
            final(self).spec_phase() == Phase::Ended,
            final(self).spec_outcome() == outcome_view(outcome),
            final(self).sent() == old(self).sent().push(event@),
    {
        self.phase = Phase::Ended;
        self.outcome = Ghost(outcome_view(outcome));
        let event = match outcome {
            Ok(()) => StreamEvent::TaskFinished { task_id: self.task_id.clone() },
            Err(error) => StreamEvent::TaskFailed { task_id: self.task_id.clone(), error },
        };
        assert(self.sent() =~= old(self).sent().push(event@));
        event
    }
}

/// A wrapped run that has ended sent exactly two events, both about the
/// wrapped task: first its start, then one closing event, which is its
/// finish exactly when the run succeeded and its failure with the error's
/// message otherwise.
pub proof fn lemma_lifecycle_complete(task_id: Seq<char>, outcome: Result<(), Seq<char>>)
    ensures
        lifecycle_events(task_id, Phase::Ended, outcome).len() == 2,
        lifecycle_events(task_id, Phase::Ended, outcome)[0] == (EventView::Started { task_id }),
        lifecycle_events(task_id, Phase::Ended, outcome)[1].is_terminal(),
        !lifecycle_events(task_id, Phase::Ended, outcome)[0].is_terminal(),
        lifecycle_events(task_id, Phase::Ended, outcome)[1].task_id() == task_id,
        (lifecycle_events(task_id, Phase::Ended, outcome)[1] is Finished) <==> (outcome is Ok),
        outcome matches Err(msg) ==> lifecycle_events(task_id, Phase::Ended, outcome)[1]
            == (EventView::Failed { task_id, error: msg }),
{
}

/// A wrapped task's own lifecycle events add nothing to the streamed
/// answer: collected, they give the empty text in every phase.
pub proof fn lemma_lifecycle_carries_no_text(
    task_id: Seq<char>,
    phase: Phase,
    outcome: Result<(), Seq<char>>,
)
    ensures
        streamed_text(lifecycle_events(task_id, phase, outcome)) == Seq::<char>::empty(),
{
    let e = lifecycle_events(task_id, phase, outcome);
    let one = seq![EventView::Started { task_id }];
    assert(streamed_text(Seq::<EventView>::empty()) == Seq::<char>::empty());
    assert(one.drop_last() =~= Seq::<EventView>::empty());
    assert(streamed_text(one) =~= Seq::<char>::empty());
    if phase == Phase::Ended {
        assert(e.drop_last() =~= one);
        assert(closing_event(task_id, outcome).text() == Seq::<char>::empty());
        assert(streamed_text(e) =~= Seq::<char>::empty());
    }
}

/// A run's outcome keeps its meaning in the view: a success stays a
/// success, and a failure stays a failure with the very same message, so a
/// failed run is never reported as finished.
pub proof fn lemma_outcome_view_faithful(outcome: Result<(), String>)
    ensures
        outcome is Ok <==> outcome_view(outcome) is Ok,
        outcome matches Err(m) ==> outcome_view(outcome) == Err::<(), Seq<char>>(m@),
        outcome matches Err(m) ==> closing_event(Seq::<char>::empty(), outcome_view(outcome))
            == (EventView::Failed { task_id: Seq::<char>::empty(), error: m@ }),
{
}

} // verus!
