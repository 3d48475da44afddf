//! Lifecycle core of an archive-installing bootstrap service: progress events,
//! transfer progress, the install pipeline, the shutdown slot and the process
//! supervisor.
pub mod config;
pub mod events;
pub mod initialization;
pub mod install;
pub mod pipeline;
pub mod shutdown;
pub mod supervisor;
pub mod text;
pub mod transfer;
