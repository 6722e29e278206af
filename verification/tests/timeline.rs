use std::sync::atomic::{AtomicUsize, Ordering};
use std::sync::Arc;
use vigil::{TickOutcome, Vigil, VigilCallbacks};

const INIT: usize = 0;
const TEST: usize = 2;
const RISK: usize = 3;
const DEAD: usize = 4;

type Callback = Box<dyn Fn() + Send + 'static>;

fn create_callbacks(status: Arc<AtomicUsize>) -> (Callback, Callback, Callback) {
    (
        Box::new({
            let status = status.clone();
            move || status.store(TEST, Ordering::Relaxed)
        }),
        Box::new({
            let status = status.clone();
            move || status.store(RISK, Ordering::Relaxed)
        }),
        Box::new({
            let status = status.clone();
            move || status.store(DEAD, Ordering::Relaxed)
        }),
    )
}

/// A watch and its watcher on a clock that the test moves by hand. The
/// watcher ticks when the watch is created and from then on sleeps, after
/// each tick, for the interval that the record holds at that moment.
struct Bench {
    vigil: Vigil,
    callbacks: VigilCallbacks<Callback>,
    now: u64,
    next_tick: Option<u64>,
    fired: usize,
}

impl Bench {
    fn start(interval_ms: usize, status: Arc<AtomicUsize>) -> Bench {
        let (a, b, c) = create_callbacks(status);
        let (vigil, callbacks) = Vigil::create(interval_ms, Some(a), Some(b), Some(c));
        let mut bench = Bench { vigil, callbacks, now: 0, next_tick: Some(0), fired: 0 };
        bench.sleep(0);
        bench
    }

    fn sleep(&mut self, ms: u64) {
        let until: u64 = self.now + ms;
        while let Some(due) = self.next_tick {
            if due > until {
                break;
            }
            self.now = due;
            match self.vigil.tick() {
                TickOutcome::Terminated => {
                    self.next_tick = None;
                }
                TickOutcome::Reacted(reaction) => {
                    if let Some(signal) = reaction.signal {
                        if let Some(callback) = self.callbacks.select(signal) {
                            callback();
                            self.fired += 1;
                        }
                    }
                    self.next_tick = Some(due + self.vigil.interval() as u64);
                }
            }
        }
        self.now = until;
    }
}

/// Heartbeats every 50 ms, then a change of the interval and a pause, then
/// the usual interval and heartbeats again. Gives back the last callback that
/// was invoked and the number of invocations.
fn run(pause_ms: u64, interval_ms: usize) -> (usize, usize) {
    let status = Arc::new(AtomicUsize::new(INIT));
    let mut bench: Bench = Bench::start(100, status.clone());
    for _ in 1..10 {
        bench.sleep(50);
        bench.vigil.notify();
    }
    bench.vigil.set_interval(interval_ms);
    bench.sleep(pause_ms);
    bench.vigil.set_interval(100);
    for _ in 1..10 {
        bench.sleep(50);
        bench.vigil.notify();
    }
    let seen: usize = status.load(Ordering::Relaxed);
    let fired: usize = bench.fired;

    bench.vigil.terminate();
    bench.sleep(100);
    assert_eq!(bench.next_tick, None);
    assert_eq!(bench.fired, fired);
    (seen, fired)
}

#[test]
fn no_false_positives() {
    let (status, fired) = run(0, 100);
    assert_eq!(INIT, status);
    assert_eq!(fired, 0);
}

#[test]
fn miss_single_test() {
    let (status, fired) = run(200, 100);
    assert_eq!(TEST, status);
    assert_eq!(fired, 1);
}

#[test]
fn miss_multiple_tests() {
    let (status, fired) = run(300, 100);
    assert_eq!(RISK, status);
    assert_eq!(fired, 2);
}

#[test]
fn complete_stall() {
    let (status, fired) = run(500, 100);
    assert_eq!(DEAD, status);
    assert_eq!(fired, 4);
}

#[test]
fn predicted_stall() {
    let (status, fired) = run(500, 750);
    assert_eq!(INIT, status);
    assert_eq!(fired, 0);
}

#[test]
fn stall_keeps_alarming_until_a_heartbeat_arrives() {
    let status = Arc::new(AtomicUsize::new(INIT));
    let mut bench: Bench = Bench::start(100, status.clone());
    bench.vigil.notify();
    bench.sleep(1000);
    assert_eq!(status.load(Ordering::Relaxed), DEAD);
    assert_eq!(bench.fired, 9);
    bench.vigil.notify();
    bench.sleep(100);
    assert_eq!(bench.fired, 9);
}

#[test]
fn new_interval_applies_from_the_next_sleep() {
    let status = Arc::new(AtomicUsize::new(INIT));
    let mut bench: Bench = Bench::start(100, status.clone());
    bench.sleep(50);
    bench.vigil.set_interval(10);
    assert_eq!(bench.next_tick, Some(100));
    bench.sleep(50);
    assert_eq!(bench.next_tick, Some(110));
    bench.sleep(10);
    assert_eq!(bench.next_tick, Some(120));
    assert_eq!(bench.fired, 1);
}

#[test]
fn disposed_watch_ends_within_one_interval() {
    let status = Arc::new(AtomicUsize::new(INIT));
    let mut bench: Bench = Bench::start(100, status.clone());
    bench.vigil.notify();
    bench.sleep(250);
    assert_eq!(bench.fired, 1);
    bench.vigil.terminate();
    assert_eq!(bench.next_tick, Some(300));
    bench.sleep(50);
    assert_eq!(bench.next_tick, None);
    bench.sleep(1000);
    assert_eq!(bench.fired, 1);
    assert_eq!(status.load(Ordering::Relaxed), TEST);
}
