//! Verified core of a pseudo-terminal process runner for a task command line.

pub mod args;
pub mod command;
pub mod descriptors;
pub mod dispatch;
pub mod launch;
pub mod sequence;
pub mod status;
pub mod stream;
pub mod task_args;
