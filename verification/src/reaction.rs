//! What the watcher decides on one look at the alarm level.

use crate::level::AlarmLevel;
use vstd::prelude::*;

verus! {

/// Names the callback that is due.
#[derive(Clone, Copy, Debug, PartialEq, Eq, Structural, Hash)]
pub enum Signal {
    /// A due heartbeat did not arrive.
    Missed,
    /// Heartbeats kept failing to arrive.
    AtRisk,
    /// The monitored code is taken to be stalled.
    Stalled,
}

/// How loudly a tick's decision is to be logged.
#[derive(Clone, Copy, Debug, PartialEq, Eq, Structural, Hash)]
pub enum Severity {
    Info,
    Warn,
    Error,
}

/// The callback that falls due when the watcher reads `observed` as the
/// alarm level: none below `Tested`, and none for a word that names no level.
pub open spec fn signal_at(observed: int) -> Option<Signal> {
    match AlarmLevel::at_rank(observed) {
        Some(AlarmLevel::Tested) => Some(Signal::Missed),
        Some(AlarmLevel::AtRisk) => Some(Signal::AtRisk),
        Some(AlarmLevel::Stalled) => Some(Signal::Stalled),
        _ => None,
    }
}

/// The severity at which the watcher reports reading `observed`: a warning
/// for `Tested` and for a word that names no level, an error from `AtRisk`
/// upwards, information otherwise.
pub open spec fn severity_at(observed: int) -> Severity {
    match AlarmLevel::at_rank(observed) {
        Some(AlarmLevel::Uninitialized) | Some(AlarmLevel::Live) => Severity::Info,
        Some(AlarmLevel::Tested) | None => Severity::Warn,
        Some(AlarmLevel::AtRisk) | Some(AlarmLevel::Stalled) => Severity::Error,
    }
}

/// The alarm level that a tick leaves behind, given the level `current` that
/// the record holds when the tick writes and the word `observed` that the
/// tick read beforehand.
///
/// `Live` is overwritten by `Tested` whatever the record holds by then. From
/// `Tested` and `AtRisk` the record climbs one rung only if it still holds
/// the level that was read, so a heartbeat that slipped in between wins.
/// `Uninitialized` and `Stalled` write nothing, and a word that names no level
/// puts the record back to `Uninitialized`.
pub open spec fn level_after(current: AlarmLevel, observed: int) -> AlarmLevel {
    match AlarmLevel::at_rank(observed) {
        None => AlarmLevel::Uninitialized,
        Some(AlarmLevel::Live) => AlarmLevel::Tested,
        Some(seen) => if current == seen {
            seen.escalated()
        } else {
            current
        },
    }
}

/// The outward part of one tick: what was read, which callback is due and
/// how the reading is to be logged.
#[derive(Clone, Copy, Debug, PartialEq, Eq)]
pub struct Reaction {
    /// The word that the tick read as the alarm level.
    pub observed: usize,
    /// The callback to invoke, if one is due.
    pub signal: Option<Signal>,
    /// The severity of the log entry for this tick.
    pub severity: Severity,
}

impl Reaction {
    /// The reaction that belongs to a reading. It depends on the reading
    /// alone, not on what the record holds by the time the tick writes.
    pub open spec fn of(observed: usize) -> Reaction {
        Reaction {
            observed,
            signal: signal_at(observed as int),
            severity: severity_at(observed as int),
        }
    }

    /// Computes the reaction to a reading.
    pub fn to(observed: usize) -> (reaction: Reaction)
        ensures
            reaction == Reaction::of(observed),
    {
        let (signal, severity) = match AlarmLevel::from_raw(observed) {
            Some(AlarmLevel::Uninitialized) => (None, Severity::Info),
            Some(AlarmLevel::Live) => (None, Severity::Info),
            Some(AlarmLevel::Tested) => (Some(Signal::Missed), Severity::Warn),
            Some(AlarmLevel::AtRisk) => (Some(Signal::AtRisk), Severity::Error),
            Some(AlarmLevel::Stalled) => (Some(Signal::Stalled), Severity::Error),
            None => (None, Severity::Warn),
        };
        Reaction { observed, signal, severity }
    }
}

/// How one tick of the watcher ended.
#[derive(Clone, Copy, Debug, PartialEq, Eq)]
pub enum TickOutcome {
    /// The record was found terminated: the watcher is to stop, and nothing
    /// was read or written.
    Terminated,
    /// The watcher read the alarm level and reacted to it.
    Reacted(Reaction),
}

} // verus!
