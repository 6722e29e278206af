//! The mathematical model of the watch record.

use crate::level::AlarmLevel;
use crate::reaction::{level_after, Reaction, TickOutcome};
use vstd::prelude::*;

verus! {

/// What a watch record holds, as plain mathematical values.
pub struct VigilState {
    /// The current alarm level.
    pub level: AlarmLevel,
    /// The expected gap between heartbeats, in milliseconds.
    pub interval: nat,
    /// Whether the watcher has been asked to stop.
    pub terminated: bool,
}

impl VigilState {
    /// The record as it is created: passive until the first heartbeat.
    pub open spec fn initial(interval: nat) -> VigilState {
        VigilState { level: AlarmLevel::Uninitialized, interval, terminated: false }
    }

    /// The record after a heartbeat.
    pub open spec fn heartbeat(self) -> VigilState {
        VigilState { level: AlarmLevel::Live, ..self }
    }

    /// The record after the expected interval was changed, which counts as a
    /// heartbeat too.
    pub open spec fn with_interval(self, interval: nat) -> VigilState {
        VigilState { interval, ..self }.heartbeat()
    }

    /// The record after the watcher was asked to stop.
    pub open spec fn disposed(self) -> VigilState {
        VigilState { terminated: true, ..self }
    }

    /// The record after the watcher reacted to a reading of the alarm level
    /// that it took earlier.
    pub open spec fn react(self, observed: int) -> VigilState {
        VigilState { level: level_after(self.level, observed), ..self }
    }

    /// The record after one tick that reads and reacts without interruption.
    pub open spec fn tick(self) -> VigilState {
        if self.terminated {
            self
        } else {
            self.react(self.level.rank() as int)
        }
    }

    /// What one uninterrupted tick reports.
    pub open spec fn tick_outcome(self) -> TickOutcome {
        if self.terminated {
            TickOutcome::Terminated
        } else {
            TickOutcome::Reacted(Reaction::of(self.level.rank() as usize))
        }
    }
}

} // verus!
