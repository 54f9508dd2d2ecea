//! Orchestration rules for a camera watcher that runs several cascade
//! detectors over every captured frame: which detectors exist and how each is
//! parameterised, the order in which a frame passes through them, when a
//! snapshot is persisted, and where staged definitions and snapshots live.

pub mod bridge;
pub mod detector;
pub mod error;
mod host;
pub mod moment;
pub mod paths;
pub mod pipeline;
pub mod provision;
pub mod stage;
