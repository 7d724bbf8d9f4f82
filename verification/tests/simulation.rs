use demo_things::clock::Span;
use demo_things::door::{DoorSimulation, LockStatus, SimulationStreamItem};
use demo_things::polled::Polled;
use demo_things::simulation::SimulationStream;

fn step(secs: u64, open: Option<bool>, lock: Option<LockStatus>) -> DoorSimulation {
    DoorSimulation {
        wait: Span::from_secs(secs),
        open,
        lock,
    }
}

fn effect(open: Option<bool>, lock: Option<LockStatus>) -> Polled<Option<SimulationStreamItem>> {
    Polled::Ready(Some(SimulationStreamItem { open, lock }))
}

#[test]
fn script_is_followed_in_order() {
    let mut stream = SimulationStream::new(vec![
        step(5, Some(true), None),
        step(7, None, Some(LockStatus::Jammed)),
        step(1, Some(false), Some(LockStatus::Locked)),
    ]);
    assert_eq!(stream.wait(), Some(Span::from_secs(5)));
    assert!(!stream.is_terminated());
    assert_eq!(stream.poll_next(true), effect(Some(true), None));
    assert_eq!(stream.wait(), Some(Span::from_secs(7)));
    assert_eq!(
        stream.poll_next(true),
        effect(None, Some(LockStatus::Jammed))
    );
    assert_eq!(stream.wait(), Some(Span::from_secs(1)));
    assert_eq!(
        stream.poll_next(true),
        effect(Some(false), Some(LockStatus::Locked))
    );
    assert_eq!(stream.wait(), None);
    assert!(stream.is_terminated());
}

#[test]
fn script_that_is_over_stays_over() {
    let mut stream = SimulationStream::new(vec![step(1, Some(true), None)]);
    assert_eq!(stream.poll_next(true), effect(Some(true), None));
    for slept in [true, false, true] {
        assert_eq!(stream.poll_next(slept), Polled::Ready(None));
        assert!(stream.is_terminated());
    }
}

#[test]
fn empty_script_is_over_at_once() {
    let mut stream = SimulationStream::<DoorSimulation>::new(vec![]);
    assert!(stream.is_terminated());
    assert_eq!(stream.wait(), None);
    assert_eq!(stream.poll_next(false), Polled::Ready(None));
}

#[test]
fn early_poll_changes_nothing() {
    let mut stream = SimulationStream::new(vec![step(5, Some(true), None)]);
    assert_eq!(stream.poll_next(false), Polled::Pending);
    assert_eq!(stream.poll_next(false), Polled::Pending);
    assert_eq!(stream.wait(), Some(Span::from_secs(5)));
    assert_eq!(stream.poll_next(true), effect(Some(true), None));
}
