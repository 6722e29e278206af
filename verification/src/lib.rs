//! A liveness watchdog.
//!
//! Code that is being watched reports a heartbeat at a regular cadence. A
//! watcher looks at the shared record once per interval and, for as long as
//! no heartbeat arrives, climbs a ladder of alarm levels, naming at each rung
//! the callback that is due.
//!
//! This crate holds the record and every decision taken on it. Threads,
//! sleeping and the invocation of callbacks are left to the embedding
//! program, which drives [`Vigil::tick`] once per interval.

pub mod laws;
pub mod level;
pub mod reaction;
pub mod state;
pub mod trace;
pub mod vigil;

pub use level::AlarmLevel;
pub use reaction::{Reaction, Severity, Signal, TickOutcome};
pub use state::VigilState;
pub use trace::Event;
pub use vigil::{Vigil, VigilCallbacks};
