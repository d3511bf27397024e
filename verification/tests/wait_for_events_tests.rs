use std::time::Duration;

use agent_core::wait_for_events::{
    watchdog_timeout_for_stamped_seconds, CLIENT_WATCHDOG_SAFETY_MARGIN_SECS,
    DEFAULT_ORCHESTRATED_IDLE_TIMEOUT_SECONDS, HARD_FLOOR_SECS, WaitForEventsExecutor,
};

fn timeout(stamped: i32) -> Duration {
    Duration::from_secs(watchdog_timeout_for_stamped_seconds(stamped))
}

#[test]
fn watchdog_timeout_subtracts_the_safety_margin() {
    assert_eq!(timeout(60), Duration::from_secs(30));
}

#[test]
fn watchdog_timeout_clamps_short_values_to_the_hard_floor() {
    assert_eq!(timeout(10), Duration::from_secs(HARD_FLOOR_SECS));
}

#[test]
fn watchdog_timeout_uses_the_default_when_unset_or_negative() {
    let expected = Duration::from_secs(DEFAULT_ORCHESTRATED_IDLE_TIMEOUT_SECONDS as u64)
        - Duration::from_secs(CLIENT_WATCHDOG_SAFETY_MARGIN_SECS);
    assert_eq!(timeout(0), expected);
    assert_eq!(timeout(-42), expected);
}

#[test]
fn watchdog_timeout_preserves_large_values_after_the_margin() {
    assert_eq!(timeout(900), Duration::from_secs(870));
}

#[test]
fn watchdog_timeout_edges_around_the_floor() {
    assert_eq!(watchdog_timeout_for_stamped_seconds(34), 5);
    assert_eq!(watchdog_timeout_for_stamped_seconds(35), 5);
    assert_eq!(watchdog_timeout_for_stamped_seconds(36), 6);
    assert_eq!(watchdog_timeout_for_stamped_seconds(i32::MAX), i32::MAX as u64 - 30);
}

#[test]
fn a_wait_ends_once_by_completion_or_watchdog() {
    let mut executor = WaitForEventsExecutor::new();
    let start = executor.execute("conv", "call-1", 60);
    assert_eq!(start.timeout_secs, 30);
    assert_eq!(start.generation, 1);
    assert_eq!(start.replaced, None);
    assert_eq!(executor.complete_execution("call-1"), Some("conv".to_string()));
    assert_eq!(executor.complete_execution("call-1"), None);
    // The completed wait's watchdog finds nothing to end.
    assert!(!executor.fire_watchdog_if_current("conv", "call-1", start.generation));
}

#[test]
fn watchdog_ends_only_the_wait_it_was_armed_for() {
    let mut executor = WaitForEventsExecutor::new();
    let first = executor.execute("conv", "call-1", 0);
    assert_eq!(first.timeout_secs, 1770);
    let second = executor.execute("conv", "call-2", 10);
    assert_eq!(second.replaced, Some("call-1".to_string()));
    assert_eq!(second.generation, 2);
    assert_eq!(second.timeout_secs, 5);
    assert!(!executor.fire_watchdog_if_current("conv", "call-1", first.generation));
    assert!(!executor.fire_watchdog_if_current("conv", "call-2", first.generation));
    assert!(executor.fire_watchdog_if_current("conv", "call-2", second.generation));
    assert!(!executor.fire_watchdog_if_current("conv", "call-2", second.generation));
}

#[test]
fn cancelled_wait_disarms_its_watchdog() {
    let mut executor = WaitForEventsExecutor::new();
    let start = executor.execute("conv", "call-1", 900);
    let other = executor.execute("other", "call-9", 900);
    assert_eq!(other.generation, 1);
    assert_eq!(executor.cancel_execution("call-1"), Some("conv".to_string()));
    assert_eq!(executor.cancel_execution("call-1"), None);
    assert!(!executor.fire_watchdog_if_current("conv", "call-1", start.generation));
    let again = executor.execute("conv", "call-3", 900);
    assert_eq!(again.generation, 3);
    assert_eq!(again.replaced, None);
    assert!(executor.fire_watchdog_if_current("other", "call-9", other.generation));
}
