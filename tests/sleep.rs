use xpbd_chain::sleep::{SleepTimer, SLEEP_DELAY_US};

#[test]
fn sleeping_body_freezes_after_delay() {
    let mut t = SleepTimer::new(true, 1_000_000);
    t.ready_sleep(1_200_000);
    assert!(!t.frozen);
    t.ready_sleep(1_350_000);
    assert!(!t.frozen);
    t.ready_sleep(1_350_001);
    assert!(t.frozen);
    assert_eq!(SLEEP_DELAY_US, 350_000);
}

#[test]
fn frozen_body_stays_frozen() {
    let mut t = SleepTimer::new(true, 0);
    t.ready_sleep(400_000);
    assert!(t.frozen);
    t.set_sleep(false);
    t.ready_sleep(0);
    assert!(t.frozen);
    assert!(!t.sleep);
}

#[test]
fn awake_body_never_freezes() {
    let mut t = SleepTimer::new(false, 0);
    t.ready_sleep(10_000_000);
    assert!(!t.frozen);
}

#[test]
fn time_before_record_does_not_freeze() {
    let mut t = SleepTimer::new(true, 5_000_000);
    t.ready_sleep(0);
    assert!(!t.frozen);
}

#[test]
fn set_sleep_arms_timer() {
    let mut t = SleepTimer::new(false, 100);
    t.set_sleep(true);
    assert!(t.sleep);
    assert_eq!(t.sleep_time, 100);
    t.ready_sleep(350_101);
    assert!(t.frozen);
}
