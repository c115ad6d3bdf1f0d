//! Core of a desktop shell that supervises two long-running worker
//! processes (a backend server and a trading-monitoring script).
//!
//! The library holds everything that can be stated and proved: the
//! per-worker start/stop state machine, command-line resolution for
//! launching each worker, the log-line relay (trim, filter, wrap into
//! structured events), path resolution for the settings and stats
//! files, and the fallback logic for the monitoring-stats and
//! opportunity read APIs. Process spawning, pipe reading, and file
//! I/O live outside the library and hand it plain values.

pub(crate) mod clock;
pub mod launch;
pub mod messages;
pub mod paths;
pub mod relay;
pub mod settings;
pub mod stats;
pub mod text;
pub mod worker;

pub use worker::{WorkerCell, WorkerName, WorkerState};
