//! Supervision of background tasks: what a task's outcome is, how a task is
//! configured, and the bookkeeping by which a manager admits tasks, broadcasts
//! cancellation and drains.
//!
//! The crate holds the decisions only. It never polls a future: the host's
//! executor glue hands it what happened (a body finished, a critical body
//! panicked, a shutdown was asked for) and acts on what it answers.

pub mod laws;
pub mod manager;
pub mod model;
pub mod outcome;
pub mod task;

pub use crate::manager::RaceStep;
pub use crate::manager::ShutdownStatus;
pub use crate::manager::SpawnError;
pub use crate::manager::TaskId;
pub use crate::manager::TaskManager;
pub use crate::outcome::PanicPayload;
pub use crate::outcome::PanickedTaskError;
pub use crate::outcome::TaskResult;
pub use crate::task::CriticalTaskBuilder;
pub use crate::task::Layer;
pub use crate::task::Task;
pub use crate::task::TaskBuilder;
