//! Supervision of a desktop application's local backend process: where the
//! backend is found, how stale instances are reaped, the order in which a start
//! proceeds, and how window close requests and exits treat the owned process.
use vstd::prelude::*;

pub mod launch;
pub mod path_model;
pub mod reaper;
pub mod resolver;
pub mod shutdown;
pub mod startup;
pub mod supervisor;

verus! {

/// Milliseconds to wait after reaping stale backends, so that the port they held is released.
pub const SETTLE_DELAY_MS: u64 = 1000;

/// The local TCP port the backend serves on, which the health probe connects to.
pub const BACKEND_PORT: u16 = 5000;

} // verus!
