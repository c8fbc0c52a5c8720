use std::cell::Cell;

use render_baby::deferred::{DeferredIterator, Quality, TemporaryLow};

#[derive(Default)]
struct Modes {
    low: Cell<u32>,
    normal: Cell<u32>,
    busy: bool,
}

impl TemporaryLow for Modes {
    fn callback_low(&self) {
        self.low.set(self.low.get() + 1);
    }
    fn callback_normal(&self) {
        self.normal.set(self.normal.get() + 1);
    }
    fn busy(&self) -> bool {
        self.busy
    }
    fn is_active(&self) -> bool {
        self.busy
    }
}

fn perform(d: &DeferredIterator<Modes>, switch: Quality) {
    match switch {
        Quality::Low => d.temporary_low().callback_low(),
        Quality::Normal => d.temporary_low().callback_normal(),
    }
}

#[test]
fn only_latest_schedule_fires() {
    let mut d = DeferredIterator::new(Modes::default(), 250);
    assert_eq!(d.delay_ms(), 250);
    assert!(!d.is_active());
    let (s1, t1) = d.schedule();
    perform(&d, s1);
    let (s2, t2) = d.schedule();
    perform(&d, s2);
    assert_eq!(s1, Quality::Low);
    assert_eq!(t1, 1);
    assert_eq!(t2, 2);
    assert_eq!(d.temporary_low().low.get(), 2);
    assert_eq!(d.fire(t1), None);
    let s = d.fire(t2);
    assert_eq!(s, Some(Quality::Normal));
    perform(&d, s.unwrap());
    assert_eq!(d.temporary_low().normal.get(), 1);
    assert!(d.is_active());
}

#[test]
fn force_cancels_pending_schedule() {
    let mut d = DeferredIterator::new(Modes::default(), 10);
    let (_, t) = d.schedule();
    assert_eq!(d.force(), Quality::Normal);
    assert_eq!(d.fire(t), None);
    assert!(d.is_active());
}

#[test]
fn is_active_asks_implementor_at_generation_zero() {
    let d = DeferredIterator::new(Modes { busy: true, ..Modes::default() }, 10);
    assert!(d.is_active());
    let d = DeferredIterator::new(Modes::default(), 10);
    assert!(!d.is_active());
}
