//! A verified core of a Redis-compatible server: the frames and the cursor
//! that commands read their arguments from, the CONFIG, GC and INFO
//! commands, the garbage collection settings and scheduling decisions, and
//! the server metrics with their INFO and Prometheus reports.

pub mod cmd;
pub mod frame;
pub mod gc_config;
pub mod gc_task;
pub mod metrics;
pub mod text;
pub mod time;

pub use cmd::config::{ConfigCmd, ConfigSubcommand};
pub use cmd::gc::Gc;
pub use cmd::info::Info;
pub use cmd::CommandError;
pub use frame::{Frame, Parse, ParseError};
pub use gc_config::GcConfig;
pub use gc_task::{BatchStep, CleanupCycle, GcControl, GcDecision};
pub use metrics::Metrics;
