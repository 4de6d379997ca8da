//! Idempotent patch-and-publish pipeline for a fleet of repositories.
//!
//! The library decides; the caller performs. `executor::PlanExecutor` is a
//! state machine that names the next version-control command, file operation
//! or pull-request call, and moves on from the outcome it is handed.
pub mod command;
pub mod executor;
pub mod model;
pub mod path;
pub mod transform;
