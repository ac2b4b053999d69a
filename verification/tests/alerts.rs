use niva_dashboard::alerts::alert::Alert;
use niva_dashboard::clock::nanos_between;
use niva_dashboard::alerts::alert_manager::{lookup_reading, vec_contains, AlertManager, Severity};
use niva_dashboard::alerts::watchdog::Watchdog;
use niva_dashboard::alerts::watchdogs::{Watchdog as EventWatchdog, WatchdogSeverity};
use niva_dashboard::hardware::hw_providers::HWInput;
use niva_dashboard::hardware::sensor_value::AlarmLevel;
use std::time::{Duration, Instant};

const MS: u128 = 1_000_000;

/// Waits (busy) until `ms` milliseconds have passed.
fn wait_ms(ms: u64) {
    let start = Instant::now();
    while start.elapsed() < Duration::from_millis(ms) {}
}

// ---------------------------------------------------------------- Alert

#[test]
fn test_new_alert_is_active_when_no_display_timeout() {
    let alert = Alert::new("test".to_string(), Severity::Warning, None, None);
    assert!(alert.is_active());
}

#[test]
fn test_alert_becomes_inactive_after_display_timeout_elapses() {
    let alert = Alert::new("test".to_string(), Severity::Warning, Some(Duration::from_millis(10)), None);
    assert!(alert.is_active(), "should still be active immediately after creation");

    wait_ms(30);
    assert!(!alert.is_active(), "should be inactive once display_timeout has elapsed");
}

#[test]
fn test_suppress_forces_alert_inactive_immediately() {
    let mut alert = Alert::new("test".to_string(), Severity::Critical, None, Some(Duration::from_millis(50)));
    assert!(alert.is_active());

    alert.suppress();
    assert!(!alert.is_active(), "suppress() should force the alert inactive right away");
}

#[test]
fn test_no_remove_timeout_expires_immediately_once_inactive() {
    let mut alert = Alert::new("test".to_string(), Severity::Warning, None, None);
    alert.suppress();
    assert!(alert.is_expired(), "remove_timeout: None means expire as soon as inactive");
}

#[test]
fn test_active_alert_never_expires_even_with_remove_timeout_set() {
    let alert = Alert::new("test".to_string(), Severity::Warning, None, Some(Duration::from_millis(10)));
    wait_ms(20);
    assert!(!alert.is_expired(), "an alert with display_timeout: None is always active, so never expires");
}

#[test]
fn test_alert_expires_only_after_remove_timeout_since_going_inactive() {
    let mut alert = Alert::new("test".to_string(), Severity::Warning, None, Some(Duration::from_millis(30)));
    alert.suppress(); // goes inactive now, remove_timeout countdown starts

    assert!(!alert.is_expired(), "remove_timeout hasn't elapsed yet");

    wait_ms(50);
    assert!(alert.is_expired(), "remove_timeout has now elapsed since the alert went inactive");
}

#[test]
fn test_message_and_severity_accessors() {
    let alert = Alert::new("engine hot".to_string(), Severity::Critical, None, None);
    assert_eq!(alert.message(), "engine hot");
    assert!(matches!(alert.severity(), Severity::Critical));
}

#[test]
fn alert_without_remove_timeout_does_not_expire_while_shown() {
    let alert = Alert::new("t".to_string(), Severity::Warning, Some(Duration::from_millis(100)), None);
    assert!(alert.is_active_at(99 * MS));
    assert!(!alert.is_expired_at(99 * MS), "still shown, so not expired");
    assert!(!alert.is_active_at(100 * MS));
    assert!(alert.is_expired_at(100 * MS), "no remove timeout: expired as soon as it stops showing");
}

#[test]
fn alert_remove_timeout_counts_from_end_of_display() {
    let alert = Alert::new(
        "t".to_string(),
        Severity::Warning,
        Some(Duration::from_millis(100)),
        Some(Duration::from_millis(50)),
    );
    assert!(!alert.is_expired_at(149 * MS));
    assert!(alert.is_expired_at(150 * MS));
}

// ---------------------------------------------------------------- Watchdog

fn overheating(trigger_duration: Option<Duration>) -> Watchdog {
    Watchdog::new(
        HWInput::HwEngineCoolantTemp,
        "overheating".to_string(),
        Severity::Critical,
        None,
        None,
        trigger_duration,
    )
}

// Coolant thresholds used below: warning from 70, critical from 90.
// 95 reads critical, 75 reads warning, 50 reads normal.

#[test]
fn test_check_triggers_immediately_without_trigger_duration() {
    let mut watchdog = overheating(None);
    assert!(
        watchdog.check(Some(AlarmLevel::Critical)),
        "no trigger_duration means the condition fires on the first check"
    );
}

#[test]
fn test_check_does_not_trigger_when_condition_not_met() {
    let mut watchdog = overheating(None);
    assert!(!watchdog.check(Some(AlarmLevel::Normal)));
}

#[test]
fn test_check_respects_severity_warning_vs_critical() {
    let reading = Some(AlarmLevel::Warning);
    let mut warning_watchdog =
        Watchdog::new(HWInput::HwEngineCoolantTemp, "warm".to_string(), Severity::Warning, None, None, None);
    let mut critical_watchdog = overheating(None);

    assert!(warning_watchdog.check(reading));
    assert!(!critical_watchdog.check(reading));
}

#[test]
fn test_check_requires_condition_to_persist_for_trigger_duration() {
    let mut watchdog = overheating(Some(Duration::from_millis(20)));
    let reading = Some(AlarmLevel::Critical);
    assert!(!watchdog.check(reading), "first check only starts the persistence timer");
    wait_ms(30);
    assert!(watchdog.check(reading), "condition has now persisted past trigger_duration");
}

#[test]
fn test_check_resets_persistence_timer_when_condition_clears() {
    let mut watchdog = overheating(Some(Duration::from_millis(20)));
    let triggering = Some(AlarmLevel::Critical);
    let clear = Some(AlarmLevel::Normal);
    assert!(!watchdog.check(triggering), "starts the timer");
    assert!(!watchdog.check(clear), "condition clears, timer resets");
    wait_ms(30);
    assert!(!watchdog.check(triggering), "timer restarts rather than reusing the stale start time");
}

#[test]
fn test_accessors_return_constructor_values() {
    let display_timeout = Some(Duration::from_secs(5));
    let remove_timeout = Some(Duration::from_secs(10));
    let watchdog = Watchdog::new(
        HWInput::HwEngineCoolantTemp,
        "overheating".to_string(),
        Severity::Critical,
        display_timeout,
        remove_timeout,
        None,
    );

    assert_eq!(watchdog.hw_input(), HWInput::HwEngineCoolantTemp);
    assert_eq!(watchdog.message(), "overheating");
    assert!(matches!(watchdog.severity(), Severity::Critical));
    assert_eq!(watchdog.alert_display_timeout(), display_timeout);
    assert_eq!(watchdog.alert_remove_timeout(), remove_timeout);
}

#[test]
fn watchdog_without_reading_does_not_fire() {
    let mut watchdog = overheating(None);
    assert!(!watchdog.check(None));
}

#[test]
fn warning_watchdog_ignores_critical_reading() {
    let mut w = Watchdog::new(HWInput::HwOilPress, "low".to_string(), Severity::Warning, None, None, None);
    assert!(!w.check(Some(AlarmLevel::Critical)), "critical overrides warning");
}

#[test]
fn watchdog_fires_exactly_at_trigger_duration() {
    let mut watchdog = overheating(Some(Duration::from_millis(20)));
    let t0 = Instant::now();
    assert!(!watchdog.step(true, t0, 0));
    assert!(!watchdog.step(true, t0, 20 * MS - 1));
    assert!(watchdog.step(true, t0, 20 * MS));
}

// ---------------------------------------------------------------- AlertManager

fn triggering_watchdog() -> Watchdog {
    overheating(None)
}

fn hot() -> Vec<(HWInput, AlarmLevel)> {
    vec![(HWInput::HwEngineCoolantTemp, AlarmLevel::Critical)]
}

fn cool() -> Vec<(HWInput, AlarmLevel)> {
    vec![(HWInput::HwEngineCoolantTemp, AlarmLevel::Normal)]
}

#[test]
fn test_disabled_manager_does_not_raise_alerts() {
    let mut manager = AlertManager::new(false);
    manager.add_watchdog(triggering_watchdog());

    let logged = manager.check_watchdogs(&hot());

    assert_eq!(manager.alert_count(), 0, "a disabled manager must not poll watchdogs at all");
    assert!(logged.is_empty());
}

#[test]
fn test_check_watchdogs_raises_alert_for_triggering_condition() {
    let mut manager = AlertManager::new(true);
    manager.add_watchdog(triggering_watchdog());

    let logged = manager.check_watchdogs(&hot());

    assert_eq!(manager.alert_count(), 1);
    assert_eq!(logged, vec![0]);
    let (id, alert) = manager.alert(0);
    assert_eq!(id, 0);
    assert_eq!(alert.message(), "overheating");
    assert!(matches!(alert.severity(), Severity::Critical));
}

#[test]
fn test_check_watchdogs_does_not_raise_duplicate_while_alert_active() {
    let mut manager = AlertManager::new(true);
    manager.add_watchdog(triggering_watchdog());

    manager.check_watchdogs(&hot());
    let second = manager.check_watchdogs(&hot());
    manager.check_watchdogs(&hot());

    assert_eq!(manager.alert_count(), 1, "a watchdog with an already-queued alert must not raise a second one");
    assert!(second.is_empty());
}

#[test]
fn test_check_watchdogs_refreshes_self_expiring_alert_in_the_same_cycle_it_expires() {
    let mut manager = AlertManager::new(true);
    manager.add_watchdog(Watchdog::new(
        HWInput::HwEngineCoolantTemp,
        "sticky".to_string(),
        Severity::Critical,
        Some(Duration::from_millis(10)),
        Some(Duration::ZERO),
        None,
    ));

    manager.check_watchdogs(&hot());
    assert_eq!(manager.alert_count(), 1);
    assert!(manager.alert(0).1.is_active(), "sanity check: freshly raised alert is active");

    wait_ms(20); // past display_timeout

    let logged = manager.check_watchdogs(&hot());
    assert_eq!(manager.alert_count(), 1, "condition still holds, so exactly one alert stays queued");
    assert!(
        manager.alert(0).1.is_active(),
        "a persisting condition must raise a fresh alert in the same call its old one expires"
    );
    assert!(logged.is_empty(), "a refresh in the same cycle is not a new occurrence");
}

#[test]
fn zero_timeout_alert_is_replaced_every_cycle() {
    let mut manager = AlertManager::new(true);
    manager.add_watchdog(Watchdog::new(
        HWInput::HwEngineCoolantTemp,
        "sticky".to_string(),
        Severity::Critical,
        Some(Duration::ZERO),
        Some(Duration::ZERO),
        None,
    ));
    let first = manager.check_watchdogs(&hot());
    assert_eq!(first, vec![0], "the first alert is a new occurrence");
    assert!(manager.alert(0).1.is_expired());
    let second = manager.check_watchdogs(&hot());
    assert_eq!(manager.alert_count(), 1);
    assert!(second.is_empty());
}

#[test]
fn test_check_watchdogs_is_noop_when_condition_not_met() {
    let mut manager = AlertManager::new(true);
    manager.add_watchdog(triggering_watchdog());

    manager.check_watchdogs(&cool());

    assert_eq!(manager.alert_count(), 0);
}

#[test]
fn test_suppress_alerts_marks_every_queued_alert_inactive() {
    let mut manager = AlertManager::new(true);
    manager.add_watchdog(triggering_watchdog());

    manager.check_watchdogs(&hot());
    assert_eq!(manager.alert_count(), 1);
    assert!(manager.alert(0).1.is_active(), "sanity check: alert starts out active");

    manager.suppress_alerts();

    for k in 0..manager.alert_count() {
        assert!(!manager.alert(k).1.is_active());
    }
}

#[test]
fn manager_without_reading_for_input_raises_nothing() {
    let mut manager = AlertManager::new(true);
    manager.add_watchdog(triggering_watchdog());
    manager.check_watchdogs(&vec![(HWInput::HwOilPress, AlarmLevel::Critical)]);
    assert_eq!(manager.alert_count(), 0);
}

#[test]
fn suppressed_alert_is_purged_next_cycle() {
    let mut manager = AlertManager::new(true);
    manager.add_watchdog(triggering_watchdog());
    manager.check_watchdogs(&hot());
    manager.suppress_alerts();
    let purged = manager.purge_expired();
    assert_eq!(purged, vec![0], "no remove timeout: a suppressed alert expires at once");
    assert_eq!(manager.alert_count(), 0);
    assert!(!manager.has_alert_for(0));
}

#[test]
fn purge_keeps_alerts_that_never_expire() {
    let mut manager = AlertManager::new(true);
    manager.add_watchdog(triggering_watchdog());
    manager.check_watchdogs(&hot());
    let purged = manager.purge_expired();
    assert!(purged.is_empty());
    assert_eq!(manager.alert_count(), 1);
    assert!(manager.has_alert_for(0));
    assert!(!manager.has_alert_for(1));
}

#[test]
fn display_order_puts_critical_alerts_first() {
    let mut manager = AlertManager::new(true);
    manager.add_watchdog(Watchdog::new(HWInput::HwOilPress, "oil".to_string(), Severity::Warning, None, None, None));
    manager.add_watchdog(Watchdog::new(
        HWInput::HwEngineCoolantTemp,
        "hot".to_string(),
        Severity::Critical,
        None,
        None,
        None,
    ));
    manager.add_watchdog(Watchdog::new(HWInput::HwFuelLvl, "fuel".to_string(), Severity::Warning, None, None, None));
    let readings = vec![
        (HWInput::HwOilPress, AlarmLevel::Warning),
        (HWInput::HwEngineCoolantTemp, AlarmLevel::Critical),
        (HWInput::HwFuelLvl, AlarmLevel::Warning),
    ];
    let logged = manager.check_watchdogs(&readings);
    assert_eq!(logged, vec![0, 1, 2]);
    assert_eq!(manager.alert_count(), 3);
    assert!(manager.has_active_alerts());
    assert_eq!(manager.display_order(), vec![1, 0, 2]);

    manager.suppress_alerts();
    assert!(!manager.has_active_alerts());
    assert!(manager.display_order().is_empty());
}

#[test]
fn set_enabled_toggles_polling() {
    let mut manager = AlertManager::new(false);
    assert!(!manager.is_enabled());
    manager.add_watchdog(triggering_watchdog());
    manager.check_watchdogs(&hot());
    assert_eq!(manager.alert_count(), 0);
    manager.set_enabled(true);
    assert!(manager.is_enabled());
    manager.check_watchdogs(&hot());
    assert_eq!(manager.alert_count(), 1);
}

#[test]
fn poll_reports_only_watchdogs_not_purged() {
    let mut manager = AlertManager::new(true);
    manager.add_watchdog(triggering_watchdog());
    let logged = manager.poll_watchdogs(&hot(), &vec![0]);
    assert_eq!(manager.alert_count(), 1);
    assert!(logged.is_empty(), "watchdog 0 was listed as purged, so this is a refresh");
}

#[test]
fn lookup_reading_takes_first_entry() {
    let readings = vec![
        (HWInput::HwOilPress, AlarmLevel::Warning),
        (HWInput::HwOilPress, AlarmLevel::Critical),
    ];
    assert_eq!(lookup_reading(&readings, HWInput::HwOilPress), Some(AlarmLevel::Warning));
    assert_eq!(lookup_reading(&readings, HWInput::Hw12v), None);
}

#[test]
fn vec_contains_finds_members() {
    let v = vec![3u32, 5, 8];
    assert!(vec_contains(&v, 5));
    assert!(!vec_contains(&v, 4));
    assert!(!vec_contains(&Vec::new(), 0));
}

// ---------------------------------------------------------------- event watchdog

#[test]
fn event_watchdog_emits_event_on_condition() {
    let w = EventWatchdog::new(HWInput::HwOilPressLow, "oil!".to_string(), WatchdogSeverity::Critical, 3000);
    let ev = w.check(Some(AlarmLevel::Critical)).expect("critical reading triggers");
    assert_eq!(ev.hw_input, HWInput::HwOilPressLow);
    assert_eq!(ev.message, "oil!");
    assert_eq!(ev.timeout_ms, 3000);
    assert!(w.check(Some(AlarmLevel::Warning)).is_none());
    assert!(w.check(Some(AlarmLevel::Normal)).is_none());
    assert!(w.check(None).is_none());
}

#[test]
fn event_watchdog_warning_level() {
    let w = EventWatchdog::new(HWInput::HwFuelLvl, "fuel".to_string(), WatchdogSeverity::Warning, 10);
    assert!(w.check(Some(AlarmLevel::Warning)).is_some());
    assert!(w.check(Some(AlarmLevel::Critical)).is_none());
}

#[test]
fn zero_trigger_duration_fires_on_first_poll() {
    let mut watchdog = overheating(Some(Duration::ZERO));
    assert!(watchdog.check(Some(AlarmLevel::Critical)), "a zero duration has already elapsed when the condition is first seen");
    assert!(watchdog.check(Some(AlarmLevel::Critical)));
    assert!(!watchdog.check(Some(AlarmLevel::Normal)));
    assert!(watchdog.check(Some(AlarmLevel::Critical)));
}

// ---------------------------------------------------------------- clock measurements

#[test]
fn nanos_between_measures_forward_and_saturates_backward() {
    let earlier = Instant::now();
    wait_ms(20);
    let later = Instant::now();
    assert!(nanos_between(&later, &earlier) >= 20 * MS);
    assert_eq!(nanos_between(&earlier, &later), 0);
    assert_eq!(nanos_between(&earlier, &earlier), 0);
}

#[test]
fn suppress_at_restarts_the_remove_countdown_from_the_given_instant() {
    let mut a = Alert::new("test".to_string(), Severity::Warning, None, Some(Duration::from_millis(30)));
    assert!(a.is_active());
    let start = Instant::now() + Duration::from_millis(100);
    a.suppress_at(start);
    assert!(!a.is_active());
    assert!(!a.is_expired());
    wait_ms(50);
    // The clock has not reached the suppression instant yet: no time counts.
    assert!(!a.is_expired());
    wait_ms(90);
    assert!(a.is_expired());
    assert_eq!(a.message(), "test");
    assert_eq!(a.severity(), Severity::Warning);
}
