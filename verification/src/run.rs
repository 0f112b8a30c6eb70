//! What a graph run reported, and how the library acts on it.
use vstd::prelude::*;

verus! {

/// The status with which one step of a graph run returned: paused on the
/// way to a next task, waiting for input from outside, or completed.
#[derive(Debug, Clone, PartialEq, Eq)]
pub enum RunStatus {
    Paused { next_task_id: String, reason: String },
    WaitingForInput,
    Completed,
}

/// How a nested graph run hands control back to the graph around it.
#[derive(Debug, Clone, Copy, PartialEq, Eq)]
pub enum NextStep {
    /// Go on along the outer graph.
    Continue,
    /// Stop and wait for input from outside.
    WaitForInput,
}

impl RunStatus {
    /// Whether a run that returned with this status is driven on: a paused
    /// run goes on by itself, and is run again until it stops pausing.
    pub fn keeps_running(&self) -> (more: bool)
        ensures
            more == (self is Paused),
    {
        match self {
            RunStatus::Paused { .. } => true,
            _ => false,
        }
    }

    /// The step that a nested graph run takes in the outer graph once it has
    /// settled with this status: a run that waits for input makes the outer
    /// graph wait too; any other status lets the outer graph continue.
    pub fn next_step(&self) -> (step: NextStep)
        ensures
            step == (if self is WaitingForInput { NextStep::WaitForInput } else { NextStep::Continue }),
    {
        match self {
            RunStatus::WaitingForInput => NextStep::WaitForInput,
            _ => NextStep::Continue,
        }
    }
}

} // verus!
