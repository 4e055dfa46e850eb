//! Pure domain types with no I/O dependencies.

pub mod change;
pub mod history;
pub mod message;
pub mod queue;
pub mod rel_path;
pub mod snapshot;
pub mod vault;
