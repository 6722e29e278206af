//! The escalation ladder.

use std::cmp::Ordering;
use vstd::prelude::*;
use vstd::std_specs::cmp::PartialOrdSpecImpl;

verus! {

/// How strongly the watcher suspects that the monitored code has stopped
/// making progress. The variants are declared in escalating order.
#[derive(Clone, Copy, Debug, PartialEq, Eq, Structural, Ord, Hash)]
pub enum AlarmLevel {
    /// No heartbeat has been seen yet; the watcher stays passive.
    Uninitialized,
    /// A heartbeat arrived since the watcher last looked.
    Live,
    /// One interval has passed since the last heartbeat; a fresh one is due.
    Tested,
    /// A due heartbeat was missed.
    AtRisk,
    /// Several heartbeats in a row were missed.
    Stalled,
}

impl AlarmLevel {
    /// Position on the ladder, counted from `Uninitialized` at zero.
    pub open spec fn rank(self) -> nat {
        match self {
            AlarmLevel::Uninitialized => 0,
            AlarmLevel::Live => 1,
            AlarmLevel::Tested => 2,
            AlarmLevel::AtRisk => 3,
            AlarmLevel::Stalled => 4,
        }
    }

    /// The level that stands at a ladder position, if any does.
    pub open spec fn at_rank(raw: int) -> Option<AlarmLevel> {
        if raw == 0 {
            Some(AlarmLevel::Uninitialized)
        } else if raw == 1 {
            Some(AlarmLevel::Live)
        } else if raw == 2 {
            Some(AlarmLevel::Tested)
        } else if raw == 3 {
            Some(AlarmLevel::AtRisk)
        } else if raw == 4 {
            Some(AlarmLevel::Stalled)
        } else {
            None
        }
    }

    /// The rung that follows on an interval without a heartbeat. The two ends
    /// of the ladder stay where they are: `Uninitialized` waits for the first
    /// heartbeat, and nothing lies beyond `Stalled`.
    pub open spec fn escalated(self) -> AlarmLevel {
        match self {
            AlarmLevel::Uninitialized => AlarmLevel::Uninitialized,
            AlarmLevel::Live => AlarmLevel::Tested,
            AlarmLevel::Tested => AlarmLevel::AtRisk,
            AlarmLevel::AtRisk => AlarmLevel::Stalled,
            AlarmLevel::Stalled => AlarmLevel::Stalled,
        }
    }

    /// The ladder position as a machine word.
    pub fn to_raw(self) -> (raw: usize)
        ensures
            raw == self.rank(),
    {
        match self {
            AlarmLevel::Uninitialized => 0,
            AlarmLevel::Live => 1,
            AlarmLevel::Tested => 2,
            AlarmLevel::AtRisk => 3,
            AlarmLevel::Stalled => 4,
        }
    }

    /// Reads a machine word as a ladder position. Words beyond the top of the
    /// ladder name no level.
    pub fn from_raw(raw: usize) -> (level: Option<AlarmLevel>)
        ensures
            level == AlarmLevel::at_rank(raw as int),
    {
        if raw == 0 {
            Some(AlarmLevel::Uninitialized)
        } else if raw == 1 {
            Some(AlarmLevel::Live)
        } else if raw == 2 {
            Some(AlarmLevel::Tested)
        } else if raw == 3 {
            Some(AlarmLevel::AtRisk)
        } else if raw == 4 {
            Some(AlarmLevel::Stalled)
        } else {
            None
        }
    }
}

/// Levels compare by their position on the ladder.
impl PartialOrd for AlarmLevel {
    fn partial_cmp(&self, other: &Self) -> (order: Option<Ordering>) {
        let mine: usize = self.to_raw();
        let theirs: usize = other.to_raw();
        if mine < theirs {
            Some(Ordering::Less)
        } else if mine == theirs {
            Some(Ordering::Equal)
        } else {
            Some(Ordering::Greater)
        }
    }
}

impl PartialOrdSpecImpl for AlarmLevel {
    open spec fn obeys_partial_cmp_spec() -> bool {
        true
    }

    open spec fn partial_cmp_spec(&self, other: &Self) -> Option<Ordering> {
        if self.rank() < other.rank() {
            Some(Ordering::Less)
        } else if self.rank() == other.rank() {
            Some(Ordering::Equal)
        } else {
            Some(Ordering::Greater)
        }
    }
}

} // verus!
