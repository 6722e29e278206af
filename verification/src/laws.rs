//! Laws of the watch, proved over its model.

use crate::level::AlarmLevel;
use crate::reaction::{signal_at, Reaction, Signal, TickOutcome};
use crate::state::VigilState;
use crate::trace::{paced, silent, ticks, Event};
use vstd::prelude::*;

verus! {

/// Every level has a ladder position of its own, from which it can be read
/// back, and the positions are exactly those from zero to four.
pub proof fn law_rank_names_the_level(level: AlarmLevel, raw: int)
    ensures
        AlarmLevel::at_rank(level.rank() as int) == Some(level),
        AlarmLevel::at_rank(raw) is Some <==> 0 <= raw <= 4,
        AlarmLevel::at_rank(raw) matches Some(found) ==> found.rank() == raw,
{
}

/// A heartbeat brings the alarm level to `Live` from every level, `Stalled`
/// included, and leaves the rest of the record alone. Repeating it changes
/// nothing more.
pub proof fn law_heartbeat_resets(s: VigilState)
    ensures
        s.heartbeat().level == AlarmLevel::Live,
        s.heartbeat().interval == s.interval,
        s.heartbeat().terminated == s.terminated,
        s.heartbeat().heartbeat() == s.heartbeat(),
{
}

/// Changing the interval resets the alarm level as a heartbeat does, and the
/// interval that was set last is the one that stays.
pub proof fn law_interval_change_is_a_heartbeat(s: VigilState, first: nat, second: nat)
    ensures
        s.with_interval(first).level == AlarmLevel::Live,
        s.with_interval(first).interval == first,
        s.with_interval(first).terminated == s.terminated,
        s.with_interval(first).heartbeat() == s.with_interval(first),
        s.with_interval(first).with_interval(second) == s.with_interval(second),
{
}

/// A heartbeat that is reported while the level is `Live` already cannot be
/// observed: the record is the same with and without it, and so are the
/// record and the callbacks of every history that follows.
pub proof fn law_heartbeat_when_live_changes_nothing(s: VigilState, later: Seq<Event>)
    requires
        s.level == AlarmLevel::Live,
    ensures
        s.heartbeat() == s,
        s.signal_on(Event::Notify) is None,
        s.heartbeat().run(later) == s.run(later),
        s.heartbeat().signals(later) == s.signals(later),
{
}

/// A heartbeat that arrives between the watcher's reading of the level and
/// its writing survives the tick, unless the reading was `Live`, which is
/// overwritten by `Tested`, or named no level, which puts the record back to
/// `Uninitialized`. The callback of the reading falls due in every case.
pub proof fn law_heartbeat_during_tick(s: VigilState, observed: usize)
    ensures
        match AlarmLevel::at_rank(observed as int) {
            Some(AlarmLevel::Live) => s.heartbeat().react(observed as int).level
                == AlarmLevel::Tested,
            Some(_) => s.heartbeat().react(observed as int) == s.heartbeat(),
            None => s.heartbeat().react(observed as int).level == AlarmLevel::Uninitialized,
        },
        Reaction::of(observed).signal == signal_at(observed as int),
{
}

/// Whether every tick of the history has a heartbeat somewhere after it.
spec fn rested(events: Seq<Event>) -> bool {
    forall|i: int|
        0 <= i < events.len() && events[i] is Tick ==> exists|k: int|
            i < k < events.len() && #[trigger] events[k].is_heartbeat()
}

proof fn lemma_paced_prefix(events: Seq<Event>)
    requires
        events.len() > 0,
        paced(events),
    ensures
        paced(events.drop_last()),
        events.last() is Tick ==> rested(events.drop_last()),
{
    let before = events.drop_last();
    let n = before.len() as int;
    assert forall|i: int, j: int|
        0 <= i < j < before.len() && before[i] is Tick && before[j] is Tick implies exists|k: int|
        i < k < j && #[trigger] before[k].is_heartbeat() by {
        assert(events[i] is Tick && events[j] is Tick);
        let k = choose|k: int| i < k < j && #[trigger] events[k].is_heartbeat();
        assert(before[k].is_heartbeat());
    }
    if events.last() is Tick {
        assert forall|i: int| 0 <= i < before.len() && before[i] is Tick implies exists|k: int|
            i < k < before.len() && #[trigger] before[k].is_heartbeat() by {
            assert(events[i] is Tick && events[n] is Tick);
            let k = choose|k: int| i < k < n && #[trigger] events[k].is_heartbeat();
            assert(before[k].is_heartbeat());
        }
    }
}

proof fn lemma_rested_prefix(events: Seq<Event>)
    requires
        events.len() > 0,
        rested(events),
        !events.last().is_heartbeat(),
    ensures
        rested(events.drop_last()),
        !(events.last() is Tick),
{
    let before = events.drop_last();
    let n = before.len() as int;
    assert forall|i: int| 0 <= i < before.len() && before[i] is Tick implies exists|k: int|
        i < k < before.len() && #[trigger] before[k].is_heartbeat() by {
        assert(events[i] is Tick);
        let k = choose|k: int| i < k < events.len() && #[trigger] events[k].is_heartbeat();
        assert(before[k].is_heartbeat());
    }
    if events.last() is Tick {
        assert(events[n] is Tick);
        let k = choose|k: int| n < k < events.len() && #[trigger] events[k].is_heartbeat();
    }
}

proof fn lemma_paced_run(s: VigilState, events: Seq<Event>)
    requires
        s.level == AlarmLevel::Uninitialized || s.level == AlarmLevel::Live,
        paced(events),
    ensures
        s.signals(events) == Seq::<Signal>::empty(),
        s.run(events).level.rank() <= AlarmLevel::Tested.rank(),
        rested(events) ==> s.run(events).level.rank() <= AlarmLevel::Live.rank(),
    decreases events.len(),
{
    if events.len() > 0 {
        lemma_paced_prefix(events);
        lemma_paced_run(s, events.drop_last());
        if rested(events) && !events.last().is_heartbeat() {
            lemma_rested_prefix(events);
        }
    }
}

proof fn lemma_paced_take(events: Seq<Event>, n: int)
    requires
        0 <= n <= events.len(),
        paced(events),
    ensures
        paced(events.take(n)),
{
    let head = events.take(n);
    assert forall|i: int, j: int|
        0 <= i < j < head.len() && head[i] is Tick && head[j] is Tick implies exists|k: int|
        i < k < j && #[trigger] head[k].is_heartbeat() by {
        assert(events[i] is Tick && events[j] is Tick);
        let k = choose|k: int| i < k < j && #[trigger] events[k].is_heartbeat();
        assert(head[k].is_heartbeat());
    }
}

/// Heartbeats that keep pace with the watcher raise no alarm. For a watch
/// that is passive or live, and a history in which a heartbeat lies between
/// any two ticks, every tick finds the level at `Uninitialized` or `Live`, no
/// callback ever falls due, and the level never climbs beyond `Tested`, the
/// rung on which a tick leaves a live watch.
pub proof fn law_paced_heartbeats_raise_no_alarm(s: VigilState, events: Seq<Event>)
    requires
        s.level == AlarmLevel::Uninitialized || s.level == AlarmLevel::Live,
        paced(events),
    ensures
        s.signals(events) == Seq::<Signal>::empty(),
        s.run(events).level.rank() <= AlarmLevel::Tested.rank(),
        forall|i: int|
            0 <= i < events.len() && events[i] is Tick ==> {
                let found = #[trigger] s.run(events.take(i)).level;
                found == AlarmLevel::Uninitialized || found == AlarmLevel::Live
            },
{
    lemma_paced_run(s, events);
    assert forall|i: int| 0 <= i < events.len() && events[i] is Tick implies {
        let found = #[trigger] s.run(events.take(i)).level;
        found == AlarmLevel::Uninitialized || found == AlarmLevel::Live
    } by {
        let upto = events.take(i + 1);
        lemma_paced_take(events, i + 1);
        assert(upto.last() is Tick);
        assert(upto.drop_last() == events.take(i));
        lemma_paced_prefix(upto);
        lemma_paced_take(events, i);
        lemma_paced_run(s, events.take(i));
    }
}

/// Before the first heartbeat the watch stays passive: over a history without
/// heartbeats a watch that starts out `Uninitialized` stays so and no callback
/// falls due.
pub proof fn law_no_alarm_before_first_heartbeat(s: VigilState, events: Seq<Event>)
    requires
        s.level == AlarmLevel::Uninitialized,
        silent(events),
    ensures
        s.run(events).level == AlarmLevel::Uninitialized,
        s.run(events).interval == s.interval,
        s.signals(events) == Seq::<Signal>::empty(),
    decreases events.len(),
{
    if events.len() > 0 {
        let before = events.drop_last();
        assert forall|k: int| 0 <= k < before.len() implies !#[trigger] before[k].is_heartbeat() by {
            assert(!events[k].is_heartbeat());
        }
        law_no_alarm_before_first_heartbeat(s, before);
        assert(!events[events.len() - 1].is_heartbeat());
    }
}

/// The level of a live watch after `n` ticks without a heartbeat: one rung
/// per tick, up to `Stalled`.
pub open spec fn rung_after(n: nat) -> AlarmLevel {
    if n == 0 {
        AlarmLevel::Live
    } else if n == 1 {
        AlarmLevel::Tested
    } else if n == 2 {
        AlarmLevel::AtRisk
    } else {
        AlarmLevel::Stalled
    }
}

/// The callbacks that fall due over `n` ticks of a live watch without a
/// heartbeat: none at the first tick, then `Missed`, then `AtRisk`, then
/// `Stalled` at every further tick.
pub open spec fn alarms_after(n: nat) -> Seq<Signal> {
    Seq::new(
        if n == 0 {
            0
        } else {
            (n - 1) as nat
        },
        |i: int|
            if i == 0 {
                Signal::Missed
            } else if i == 1 {
                Signal::AtRisk
            } else {
                Signal::Stalled
            },
    )
}

/// Silence climbs the ladder one rung per tick. A live watch that receives
/// no heartbeat stands at `Tested` after one tick, at `AtRisk` after two and
/// at `Stalled` from the third on; the second tick names the callback for a
/// missed heartbeat, the third the one for a watch at risk, and every tick
/// from the fourth on the one for a stalled watch.
pub proof fn law_silence_climbs_the_ladder(s: VigilState, n: nat)
    requires
        s.level == AlarmLevel::Live,
        !s.terminated,
    ensures
        s.run(ticks(n)) == (VigilState { level: rung_after(n), ..s }),
        s.signals(ticks(n)) == alarms_after(n),
    decreases n,
{
    if n > 0 {
        let before = (n - 1) as nat;
        assert(ticks(n).drop_last() == ticks(before));
        assert(ticks(n).last() == Event::Tick);
        law_silence_climbs_the_ladder(s, before);
        if n == 1 {
            assert(alarms_after(n) == alarms_after(before));
        } else {
            let due = if n == 2 {
                Signal::Missed
            } else if n == 3 {
                Signal::AtRisk
            } else {
                Signal::Stalled
            };
            assert(alarms_after(n) == alarms_after(before).push(due));
        }
    } else {
        assert(s.signals(ticks(n)) == alarms_after(n));
    }
}

/// A stalled watch stays stalled and names the callback for a stalled watch
/// at every tick, until a heartbeat arrives.
pub proof fn law_stalled_watch_keeps_alarming(s: VigilState, n: nat)
    requires
        s.level == AlarmLevel::Stalled,
        !s.terminated,
    ensures
        s.run(ticks(n)) == s,
        s.signals(ticks(n)) == Seq::new(n, |i: int| Signal::Stalled),
        s.heartbeat().level == AlarmLevel::Live,
    decreases n,
{
    if n > 0 {
        let before = (n - 1) as nat;
        assert(ticks(n).drop_last() == ticks(before));
        assert(ticks(n).last() == Event::Tick);
        law_stalled_watch_keeps_alarming(s, before);
        assert(Seq::new(n, |i: int| Signal::Stalled) == Seq::new(before, |i: int| Signal::Stalled).push(
            Signal::Stalled,
        ));
    } else {
        assert(s.signals(ticks(n)) == Seq::new(n, |i: int| Signal::Stalled));
    }
}

proof fn lemma_terminated_run(s: VigilState, events: Seq<Event>)
    requires
        s.terminated,
    ensures
        s.run(events).terminated,
        s.signals(events) == Seq::<Signal>::empty(),
    decreases events.len(),
{
    if events.len() > 0 {
        lemma_terminated_run(s, events.drop_last());
    }
}

/// Disposal stops the watcher at its next tick and for good. Once the watch
/// was asked to stop, the next tick reports so without reading or writing
/// the level, and over every later history the watch stays terminated and no
/// callback falls due.
pub proof fn law_disposal_stops_the_watcher(s: VigilState, later: Seq<Event>)
    ensures
        s.disposed().tick_outcome() == TickOutcome::Terminated,
        s.disposed().tick() == s.disposed(),
        s.disposed().level == s.level,
        s.disposed().interval == s.interval,
        s.disposed().run(later).terminated,
        s.disposed().signals(later) == Seq::<Signal>::empty(),
{
    lemma_terminated_run(s.disposed(), later);
}

/// The level moves along the ladder only. A heartbeat puts it to `Live`, a
/// request to stop leaves it alone, and an uninterrupted tick of a watch that
/// is not terminated moves it one rung up, except at the two ends of the
/// ladder, and names the callback of the rung that it found.
pub proof fn law_level_moves_along_the_ladder(s: VigilState, event: Event)
    ensures
        event.is_heartbeat() ==> s.apply(event).level == AlarmLevel::Live,
        event is Terminate ==> s.apply(event).level == s.level,
        event is Tick && s.terminated ==> s.apply(event) == s,
        event is Tick && !s.terminated ==> s.apply(event) == (VigilState {
            level: s.level.escalated(),
            ..s
        }),
        event is Tick && !s.terminated ==> s.tick_outcome() == TickOutcome::Reacted(
            Reaction::of(s.level.rank() as usize),
        ),
        event is Tick && !s.terminated ==> s.signal_on(event) == Reaction::of(
            s.level.rank() as usize,
        ).signal,
{
}

/// Every interval that is set is positive.
pub open spec fn positive_intervals(events: Seq<Event>) -> bool {
    forall|k: int|
        0 <= k < events.len() ==> (#[trigger] events[k] matches Event::SetInterval(interval)
            ==> interval > 0)
}

/// The interval stays positive: it is whatever was set last, or the one that
/// the watch began with.
pub proof fn law_interval_stays_positive(s: VigilState, events: Seq<Event>)
    requires
        s.interval > 0,
        positive_intervals(events),
    ensures
        s.run(events).interval > 0,
    decreases events.len(),
{
    if events.len() > 0 {
        let before = events.drop_last();
        assert forall|k: int| 0 <= k < before.len() implies (#[trigger] before[k] matches Event::SetInterval(
            interval,
        ) ==> interval > 0) by {
            assert(before[k] == events[k]);
        }
        law_interval_stays_positive(s, before);
        assert(events.last() == events[events.len() - 1]);
    }
}

} // verus!
