//! Text streams and token events: forwarding a stream of text deltas as
//! token events, and collecting the text of token events back.
use vstd::prelude::*;
use crate::event::{EventView, StreamEvent};

verus! {

/// The text of a sequence of deltas written one after another.
pub open spec fn joined(deltas: Seq<Seq<char>>) -> Seq<char>
    decreases deltas.len(),
{
    if deltas.len() == 0 {
        Seq::empty()
    } else {
        joined(deltas.drop_last()) + deltas.last()
    }
}

/// The streamed answer in a sequence of events: the deltas of its token
/// events, in order; other events add nothing.
pub open spec fn streamed_text(events: Seq<EventView>) -> Seq<char>
    decreases events.len(),
{
    if events.len() == 0 {
        Seq::empty()
    } else {
        streamed_text(events.drop_last()) + events.last().text()
    }
}

/// One token event of task `task_id` for each delta, in order.
pub open spec fn token_events(task_id: Seq<char>, deltas: Seq<Seq<char>>) -> Seq<EventView> {
    Seq::new(deltas.len(), |i: int| EventView::Token { task_id, delta: deltas[i] })
}

/// The events that forwarding a text stream of task `task_id` sends: a token
/// for each delta, then, once the stream has ended, the task's finish.
pub open spec fn forwarded_events(task_id: Seq<char>, deltas: Seq<Seq<char>>, ended: bool)
    -> Seq<EventView> {
    if ended {
        token_events(task_id, deltas).push(EventView::Finished { task_id })
    } else {
        token_events(task_id, deltas)
    }
}

/// Turns a stream of text deltas of one task into events: one token per
/// delta, in the order the stream yields them, and the task's finish when
/// the stream ends.
pub struct TextForwarder {
    task_id: String,
    ended: bool,
    deltas: Ghost<Seq<Seq<char>>>,
}

impl TextForwarder {
    /// The id of the task whose text is forwarded.
    pub closed spec fn spec_task_id(&self) -> Seq<char> {
        self.task_id@
    }

    /// Whether the stream has ended and the finish has been sent.
    pub closed spec fn spec_ended(&self) -> bool {
        self.ended
    }

    /// The deltas forwarded so far.
    pub closed spec fn spec_deltas(&self) -> Seq<Seq<char>> {
        self.deltas@
    }

    /// The events sent so far.
    pub open spec fn sent(&self) -> Seq<EventView> {
        forwarded_events(self.spec_task_id(), self.spec_deltas(), self.spec_ended())
    }

    /// A forwarder for the text of task `task_id` that has sent nothing yet.
    pub fn new(task_id: String) -> (f: TextForwarder)
        ensures
            f.spec_task_id() == task_id@,
            !f.spec_ended(),
            f.spec_deltas() == Seq::<Seq<char>>::empty(),
    {
        TextForwarder { task_id, ended: false, deltas: Ghost(Seq::empty()) }
    }

    /// The event for the next delta of the stream: a token of the forwarded task
    /// carrying `delta`.
    pub fn token(&mut self, delta: String) -> (event: StreamEvent)
        requires
            !old(self).spec_ended(),
        ensures
            event@ == (EventView::Token { task_id: old(self).spec_task_id(), delta: delta@ }),
            final(self).spec_task_id() == old(self).spec_task_id(),
            !final(self).spec_ended(),
            final(self).spec_deltas() == old(self).spec_deltas().push(delta@),
            final(self).sent() == old(self).sent().push(event@),
    {
        let ghost d = delta@;
        let event = StreamEvent::Token { task_id: self.task_id.clone(), delta };
        self.deltas = Ghost(self.deltas@.push(d));
        assert(token_events(self.task_id@, self.deltas@) =~= token_events(
            self.task_id@,
            old(self).deltas@,
        ).push(event@));
        event
    }

    /// The event that closes the stream: the forwarded task's finish.
    pub fn finish(&mut self) -> (event: StreamEvent)
        requires
            !old(self).spec_ended(),
        ensures
            event@ == (EventView::Finished { task_id: old(self).spec_task_id() }),
            final(self).spec_task_id() == old(self).spec_task_id(),
            final(self).spec_ended(),
            final(self).spec_deltas() == old(self).spec_deltas(),
            final(self).sent() == old(self).sent().push(event@),
    {
        self.ended = true;
        StreamEvent::TaskFinished { task_id: self.task_id.clone() }
    }
}

/// Collects the streamed answer out of the events of a run, as they arrive.
pub struct TextCollector {
    text: String,
}

impl TextCollector {
    /// The text collected so far.
    pub closed spec fn spec_text(&self) -> Seq<char> {
        self.text@
    }

    /// A collector that has collected nothing.
    pub fn new() -> (c: TextCollector)
        ensures
            c.spec_text() == Seq::<char>::empty(),
    {
        TextCollector { text: String::new() }
    }

    /// Takes in the next event: a token's delta is appended to the text;
    /// any other event leaves it as it is.
    pub fn absorb(&mut self, event: &StreamEvent)
        ensures
            final(self).spec_text() == old(self).spec_text() + event@.text(),
    {
        match event {
            StreamEvent::Token { delta, .. } => {
                self.text.append(delta.as_str());
            },
            _ => {
                assert(old(self).spec_text() + event@.text() =~= old(self).spec_text());
            },
        }
    }

    /// The text collected.
    pub fn into_text(self) -> (text: String)
        ensures
            text@ == self.spec_text(),
    {
        self.text
    }
}

/// The answer of a collecting run: the collected text when the run
/// succeeded, the run's error otherwise.
pub fn finish_collect<E>(text: String, outcome: Result<(), E>) -> (answer: Result<String, E>)
    ensures
        match outcome {
            Ok(()) => answer matches Ok(t) && t@ == text@,
            Err(e) => answer == Err::<String, E>(e),
        },
{
    match outcome {
        Ok(()) => Ok(text),
        Err(e) => Err(e),
    }
}

/// The streamed answer of events in two parts is that of the first part
/// followed by that of the second.
pub proof fn lemma_streamed_text_append(a: Seq<EventView>, b: Seq<EventView>)
    ensures
        streamed_text(a + b) == streamed_text(a) + streamed_text(b),
    decreases b.len(),
{
    if b.len() == 0 {
        assert(a + b =~= a);
        assert(streamed_text(a) + streamed_text(b) =~= streamed_text(a));
    } else {
        lemma_streamed_text_append(a, b.drop_last());
        assert((a + b).drop_last() =~= a + b.drop_last());
        assert(streamed_text(a) + streamed_text(b) =~= streamed_text(a) + streamed_text(
            b.drop_last(),
        ) + b.last().text());
    }
}

/// The tokens of a stream of deltas carry exactly the deltas' text.
pub proof fn lemma_token_events_text(task_id: Seq<char>, deltas: Seq<Seq<char>>)
    ensures
        streamed_text(token_events(task_id, deltas)) == joined(deltas),
    decreases deltas.len(),
{
    if deltas.len() > 0 {
        lemma_token_events_text(task_id, deltas.drop_last());
        assert(token_events(task_id, deltas).drop_last() =~= token_events(
            task_id,
            deltas.drop_last(),
        ));
    }
}

/// Collecting the events that forwarding a text stream sends gives back the
/// stream's text: the deltas joined in the order the stream yielded them,
/// whether or not the stream has ended yet.
pub proof fn lemma_collect_forwarded(task_id: Seq<char>, deltas: Seq<Seq<char>>, ended: bool)
    ensures
        streamed_text(forwarded_events(task_id, deltas, ended)) == joined(deltas),
{
    lemma_token_events_text(task_id, deltas);
    if ended {
        let e = forwarded_events(task_id, deltas, ended);
        assert(e.drop_last() =~= token_events(task_id, deltas));
        assert(joined(deltas) + e.last().text() =~= joined(deltas));
    }
}

/// A forwarded stream that has ended sends the task's finish exactly once,
/// as its last event; every event it sends is about the forwarding task.
pub proof fn lemma_forwarded_ends_once(task_id: Seq<char>, deltas: Seq<Seq<char>>)
    ensures
        forwarded_events(task_id, deltas, true).last() == (EventView::Finished { task_id }),
        forall|i: int|
            0 <= i < forwarded_events(task_id, deltas, true).len() - 1
                ==> !(#[trigger] forwarded_events(task_id, deltas, true)[i]).is_terminal(),
        forall|i: int|
            0 <= i < forwarded_events(task_id, deltas, true).len()
                ==> (#[trigger] forwarded_events(task_id, deltas, true)[i]).task_id() == task_id,
{
}

} // verus!
