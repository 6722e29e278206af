//! The watch record and the operations of its two users: the monitored code,
//! which reports heartbeats, and the watcher, which ticks.

use crate::level::AlarmLevel;
use crate::reaction::{Reaction, Signal, TickOutcome};
use crate::state::VigilState;
use vstd::prelude::*;

verus! {

/// The three optional callbacks of a watcher, one per rung at which an alarm
/// is raised. They are fixed when the watch is created.
pub struct VigilCallbacks<F> {
    /// Due when a heartbeat was missed once.
    pub missed_test_cb: Option<F>,
    /// Due when heartbeats were missed repeatedly.
    pub at_risk_cb: Option<F>,
    /// Due on every tick for as long as the watch is stalled.
    pub stall_detected_cb: Option<F>,
}

impl<F> VigilCallbacks<F> {
    /// The slot that a signal addresses.
    pub open spec fn slot(self, signal: Signal) -> Option<F> {
        match signal {
            Signal::Missed => self.missed_test_cb,
            Signal::AtRisk => self.at_risk_cb,
            Signal::Stalled => self.stall_detected_cb,
        }
    }

    /// The callback to invoke for a signal, or `None` where the slot that the
    /// signal addresses was left empty.
    pub fn select(&self, signal: Signal) -> (callback: Option<&F>)
        ensures
            match callback {
                Some(found) => self.slot(signal) == Some(*found),
                None => self.slot(signal) is None,
            },
    {
        match signal {
            Signal::Missed => self.missed_test_cb.as_ref(),
            Signal::AtRisk => self.at_risk_cb.as_ref(),
            Signal::Stalled => self.stall_detected_cb.as_ref(),
        }
    }
}

/// A single watch over monitored code: the alarm level, the expected
/// interval between heartbeats and the termination flag.
///
/// The interval is positive at all times.
#[derive(Debug)]
pub struct Vigil {
    alarm_level: AlarmLevel,
    tick_interval: usize,
    terminated: bool,
}

impl View for Vigil {
    type V = VigilState;

    closed spec fn view(&self) -> VigilState {
        VigilState {
            level: self.alarm_level,
            interval: self.tick_interval as nat,
            terminated: self.terminated,
        }
    }
}

impl Vigil {
    #[verifier::type_invariant]
    spec fn positive_interval(self) -> bool {
        self.tick_interval > 0
    }

    /// Creates a watch that expects a heartbeat every `interval_ms`
    /// milliseconds, together with the callbacks that its watcher will own.
    /// The watch starts passive: no callback falls due before the first
    /// heartbeat.
    pub fn create<F>(
        interval_ms: usize,
        missed_test_cb: Option<F>,
        at_risk_cb: Option<F>,
        stall_detected_cb: Option<F>,
    ) -> (made: (Vigil, VigilCallbacks<F>))
        requires
            interval_ms > 0,
        ensures
            made.0@ == VigilState::initial(interval_ms as nat),
            made.1 == (VigilCallbacks { missed_test_cb, at_risk_cb, stall_detected_cb }),
    {
        let vigil = Vigil {
            alarm_level: AlarmLevel::Uninitialized,
            tick_interval: interval_ms,
            terminated: false,
        };
        (vigil, VigilCallbacks { missed_test_cb, at_risk_cb, stall_detected_cb })
    }

    /// Reports a heartbeat: the alarm level becomes `Live`, whatever it was.
    pub fn notify(&mut self)
        ensures
            final(self)@ == old(self)@.heartbeat(),
    {
        proof {
            use_type_invariant(&*self);
        }
        self.alarm_level = AlarmLevel::Live;
    }

    /// Changes the expected interval between heartbeats and reports a
    /// heartbeat. The new interval applies from the watcher's next sleep on
    /// and stays until it is changed again.
    pub fn set_interval(&mut self, interval_ms: usize)
        requires
            interval_ms > 0,
        ensures
            final(self)@ == old(self)@.with_interval(interval_ms as nat),
    {
        self.tick_interval = interval_ms;
        self.notify();
    }

    /// Asks the watcher to stop at its next tick. Nothing else changes, and
    /// the request cannot be taken back.
    pub fn terminate(&mut self)
        ensures
            final(self)@ == old(self)@.disposed(),
    {
        proof {
            use_type_invariant(&*self);
        }
        self.terminated = true;
    }

    /// The current alarm level.
    pub fn level(&self) -> (level: AlarmLevel)
        ensures
            level == self@.level,
    {
        self.alarm_level
    }

    /// The expected interval between heartbeats, in milliseconds: the time
    /// for which the watcher is to sleep before its next tick.
    pub fn interval(&self) -> (interval_ms: usize)
        ensures
            interval_ms == self@.interval,
            interval_ms > 0,
    {
        proof {
            use_type_invariant(self);
        }
        self.tick_interval
    }

    /// Whether the watcher has been asked to stop.
    pub fn is_terminated(&self) -> (terminated: bool)
        ensures
            terminated == self@.terminated,
    {
        self.terminated
    }

    /// Writes `new` as the alarm level if the record still holds `expected`,
    /// and says whether it did.
    fn advance(&mut self, expected: AlarmLevel, new: AlarmLevel) -> (swapped: bool)
        ensures
            swapped == (old(self)@.level == expected),
            final(self)@ == (VigilState {
                level: if swapped { new } else { old(self)@.level },
                ..old(self)@
            }),
    {
        proof {
            use_type_invariant(&*self);
        }
        if self.alarm_level == expected {
            self.alarm_level = new;
            true
        } else {
            false
        }
    }

    /// Reacts to a reading of the alarm level that was taken earlier, as the
    /// second half of a tick. The record may have received heartbeats since
    /// the reading: the callback of the reading falls due all the same, and
    /// only the level that is written gives way to them.
    pub fn react(&mut self, observed: usize) -> (reaction: Reaction)
        ensures
            final(self)@ == old(self)@.react(observed as int),
            reaction == Reaction::of(observed),
    {
        proof {
            use_type_invariant(&*self);
        }
        match AlarmLevel::from_raw(observed) {
            None => {
                self.alarm_level = AlarmLevel::Uninitialized;
            },
            Some(AlarmLevel::Uninitialized) => {},
            Some(AlarmLevel::Live) => {
                self.alarm_level = AlarmLevel::Tested;
            },
            Some(AlarmLevel::Tested) => {
                self.advance(AlarmLevel::Tested, AlarmLevel::AtRisk);
            },
            Some(AlarmLevel::AtRisk) => {
                self.advance(AlarmLevel::AtRisk, AlarmLevel::Stalled);
            },
            Some(AlarmLevel::Stalled) => {},
        }
        Reaction::to(observed)
    }

    /// Runs one tick of the watcher: stops if the record is terminated, and
    /// otherwise reads the alarm level and reacts to it.
    pub fn tick(&mut self) -> (outcome: TickOutcome)
        ensures
            final(self)@ == old(self)@.tick(),
            outcome == old(self)@.tick_outcome(),
    {
        if self.terminated {
            TickOutcome::Terminated
        } else {
            let observed = self.alarm_level.to_raw();
            TickOutcome::Reacted(self.react(observed))
        }
    }
}

} // verus!
