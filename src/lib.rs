//! Task tracking with a lossy event fan-out: a registry of task records, a
//! bounded broadcaster of progress events, the staged task executor and the
//! per-connection relay decisions.

pub mod task;
pub mod registry;
pub mod events;
pub mod broadcaster;
pub mod text;
pub mod executor;
pub mod error;
pub mod kasm;
pub mod api;
pub mod session;
