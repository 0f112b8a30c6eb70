//! Verified core of a streaming layer for `graph_flow` tasks: the events a
//! run streams out, the order in which a wrapped task reports its lifecycle,
//! how a text stream becomes token events and how token events become text
//! again, how a nested graph run names its session, and when a graph run is
//! driven further.
use vstd::prelude::*;

pub mod decimal;
pub mod event;
pub mod lifecycle;
pub mod run;
pub mod subgraph;
pub mod text;

pub use event::{EventView, StreamEvent};
pub use lifecycle::{Lifecycle, NonStreaming, Phase};
pub use run::{NextStep, RunStatus};
pub use subgraph::{session_id_for, start_task_or_error, SubgraphTask};
pub use text::{finish_collect, TextCollector, TextForwarder};
