//! Histories of a watch: the operations applied to one record, in order.

use crate::reaction::{signal_at, Signal};
use crate::state::VigilState;
use vstd::prelude::*;

verus! {

/// One operation on a watch record.
pub enum Event {
    /// The monitored code reported a heartbeat.
    Notify,
    /// The monitored code changed the expected interval to the given number
    /// of milliseconds.
    SetInterval(nat),
    /// The watcher was asked to stop.
    Terminate,
    /// The watcher ran one uninterrupted tick.
    Tick,
}

impl Event {
    /// Whether the operation counts as a heartbeat.
    pub open spec fn is_heartbeat(self) -> bool {
        self is Notify || self is SetInterval
    }
}

/// The history that consists of `n` ticks and nothing else.
pub open spec fn ticks(n: nat) -> Seq<Event> {
    Seq::new(n, |i: int| Event::Tick)
}

/// Between any two ticks of the history lies a heartbeat.
pub open spec fn paced(events: Seq<Event>) -> bool {
    forall|i: int, j: int|
        0 <= i < j < events.len() && events[i] is Tick && events[j] is Tick ==> exists|k: int|
            i < k < j && #[trigger] events[k].is_heartbeat()
}

/// The history holds no heartbeat.
pub open spec fn silent(events: Seq<Event>) -> bool {
    forall|k: int| 0 <= k < events.len() ==> !#[trigger] events[k].is_heartbeat()
}

impl VigilState {
    /// The record after one operation.
    pub open spec fn apply(self, event: Event) -> VigilState {
        match event {
            Event::Notify => self.heartbeat(),
            Event::SetInterval(interval) => self.with_interval(interval),
            Event::Terminate => self.disposed(),
            Event::Tick => self.tick(),
        }
    }

    /// The callback that falls due when the operation is applied to this
    /// record. Only a tick of a watch that is not terminated can name one.
    pub open spec fn signal_on(self, event: Event) -> Option<Signal> {
        if event is Tick && !self.terminated {
            signal_at(self.level.rank() as int)
        } else {
            None
        }
    }

    /// The record after a whole history.
    pub open spec fn run(self, events: Seq<Event>) -> VigilState
        decreases events.len(),
    {
        if events.len() == 0 {
            self
        } else {
            self.run(events.drop_last()).apply(events.last())
        }
    }

    /// The callbacks that fall due over a whole history, in the order in
    /// which they do.
    pub open spec fn signals(self, events: Seq<Event>) -> Seq<Signal>
        decreases events.len(),
    {
        if events.len() == 0 {
            Seq::empty()
        } else {
            let earlier = self.signals(events.drop_last());
            match self.run(events.drop_last()).signal_on(events.last()) {
                Some(signal) => earlier.push(signal),
                None => earlier,
            }
        }
    }
}

} // verus!
