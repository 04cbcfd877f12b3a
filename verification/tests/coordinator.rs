use supipi::coordinator::{Coordinator, RETRY_DELAY_MS};
use supipi::input::KeyEvent;

const MS: u128 = 1_000_000;

fn super_press() -> KeyEvent {
    KeyEvent::new(1, 125, 1)
}

#[test]
fn new_coordinator_runs() {
    let c = Coordinator::new(240, 7);
    assert!(!c.is_stopped());
    assert_eq!(c.detector().timeout_ms(), 240);
    assert_eq!(c.detector().last_press(), 7);
    assert_eq!(c.detector().tap_count(), 0);
}

#[test]
fn checkpoint_lets_a_running_loop_go_on() {
    let mut c = Coordinator::new(240, 0);
    assert!(c.checkpoint(true));
    assert!(c.checkpoint(true));
    assert!(!c.is_stopped());
}

#[test]
fn events_reach_the_detector_while_running() {
    let mut c = Coordinator::new(200, 0);
    assert!(c.checkpoint(true));
    assert!(!c.on_event(super_press(), 0));
    assert!(c.on_event(super_press(), 150 * MS));
    assert!(c.checkpoint(true));
    assert!(!c.on_event(super_press(), 600 * MS));
    assert_eq!(c.detector().tap_count(), 1);
    assert_eq!(c.detector().last_press(), 600 * MS);
}

#[test]
fn stop_ends_the_loop_at_the_next_checkpoint() {
    let mut c = Coordinator::new(200, 0);
    assert!(c.checkpoint(true));
    assert!(!c.on_event(super_press(), 1_000 * MS));
    assert!(!c.checkpoint(false));
    assert!(c.is_stopped());
}

#[test]
fn stop_is_final() {
    let mut c = Coordinator::new(200, 0);
    assert!(!c.on_event(super_press(), 1_000 * MS));
    assert!(!c.checkpoint(false));
    let stopped = c;
    assert!(!c.checkpoint(true));
    assert!(!c.checkpoint(true));
    assert!(!c.checkpoint(false));
    assert!(!c.on_event(super_press(), 1_100 * MS));
    assert!(!c.on_event(super_press(), 1_150 * MS));
    assert_eq!(c.on_fetch_failure(), 100);
    assert_eq!(c, stopped);
    assert!(c.is_stopped());
    assert_eq!(c.detector().tap_count(), 1);
    assert_eq!(c.detector().last_press(), 1_000 * MS);
}

#[test]
fn ignored_events_leave_the_coordinator_alone() {
    let mut c = Coordinator::new(200, 0);
    assert!(!c.on_event(super_press(), 1_000 * MS));
    let before = c;
    assert!(!c.on_event(KeyEvent::new(1, 125, 0), 1_010 * MS));
    assert!(!c.on_event(KeyEvent::new(1, 125, 2), 1_020 * MS));
    assert!(!c.on_event(KeyEvent::new(1, 42, 1), 1_030 * MS));
    assert!(!c.on_event(KeyEvent::new(3, 125, 1), 1_040 * MS));
    assert_eq!(c, before);
}

#[test]
fn failed_read_waits_a_tenth_of_a_second_and_goes_on() {
    let mut c = Coordinator::new(200, 0);
    assert!(!c.on_event(super_press(), 1_000 * MS));
    let before = c;
    assert_eq!(RETRY_DELAY_MS, 100);
    assert_eq!(c.on_fetch_failure(), RETRY_DELAY_MS);
    assert_eq!(c, before);
    assert!(c.checkpoint(true));
    assert!(c.on_event(super_press(), 1_100 * MS));
}
