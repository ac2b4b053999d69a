//! Monitors one hardware input and reports when it should raise an alert.
//!
//! A watchdog fires once the reading of its input has stayed at its severity level
//! for at least its trigger duration (at once when it has none or it is zero); the persistence
//! timer restarts whenever the condition clears.

use crate::alerts::alert::timeout_nanos;
use crate::alerts::alert_manager::Severity;
use crate::clock::{duration_as_nanos, instant_now, nanos_between, nanos_of, since};
use crate::hardware::hw_providers::HWInput;
use crate::hardware::sensor_value::AlarmLevel;
use std::time::{Duration, Instant};
use vstd::prelude::*;

verus! {

/// Abstract state of a watchdog; the trigger duration is in nanoseconds.
pub struct WatchdogView {
    pub hw_input: HWInput,
    pub message: Seq<char>,
    pub severity: Severity,
    pub display_timeout: Option<Duration>,
    pub remove_timeout: Option<Duration>,
    pub trigger_start: Option<Instant>,
    pub trigger_duration: Option<nat>,
}

/// Whether a reading meets the condition a watchdog of `severity` watches for. A
/// missing reading never does.
pub open spec fn condition_met(severity: Severity, reading: Option<AlarmLevel>) -> bool {
    match reading {
        None => false,
        Some(level) => match severity {
            Severity::Warning => level == AlarmLevel::Warning,
            Severity::Critical => level == AlarmLevel::Critical,
        },
    }
}

impl WatchdogView {
    /// Nanoseconds the persistence timer has run at the clock reading `now` (zero while
    /// it is stopped).
    pub open spec fn timer_at(self, now: Instant) -> nat {
        match self.trigger_start {
            Some(start) => since(now, start),
            None => 0,
        }
    }

    /// One poll: the condition's current truth value, the clock reading `now`, and the
    /// nanoseconds elapsed since the persistence timer started (used only when it runs).
    /// Gives the new state and whether the watchdog fires: a met condition fires once
    /// it has held for the trigger duration (at once without one or with a zero one; the
    /// first met poll starts the timer), and a cleared condition stops the timer.
    pub open spec fn step(self, trigger: bool, now: Instant, elapsed: nat) -> (WatchdogView, bool) {
        if !trigger {
            (WatchdogView { trigger_start: None, ..self }, false)
        } else {
            match self.trigger_duration {
                None => (self, true),
                Some(d) => match self.trigger_start {
                    None => (WatchdogView { trigger_start: Some(now), ..self }, d == 0),
                    Some(_) => (self, elapsed >= d),
                },
            }
        }
    }
}

pub struct Watchdog {
    hw_input: HWInput,
    alert_message: String,
    severity: Severity,
    alert_display_timeout: Option<Duration>,
    alert_remove_timeout: Option<Duration>,
    trigger_start_time: Option<Instant>,
    trigger_duration_ns: Option<u128>,
}

impl View for Watchdog {
    type V = WatchdogView;

    closed spec fn view(&self) -> WatchdogView {
        WatchdogView {
            hw_input: self.hw_input,
            message: self.alert_message@,
            severity: self.severity,
            display_timeout: self.alert_display_timeout,
            remove_timeout: self.alert_remove_timeout,
            trigger_start: self.trigger_start_time,
            trigger_duration: match self.trigger_duration_ns {
                Some(d) => Some(d as nat),
                None => None,
            },
        }
    }
}

impl Watchdog {
    /// A watchdog for `hw_input` that fires `alert_message` at `severity` once the
    /// condition has persisted for `trigger_duration` (at once when `None`). The two
    /// alert timeouts are handed unchanged to the alert it raises.
    pub fn new(
        hw_input: HWInput,
        alert_message: String,
        severity: Severity,
        alert_display_timeout: Option<Duration>,
        alert_remove_timeout: Option<Duration>,
        trigger_duration: Option<Duration>,
    ) -> (w: Self)
        ensures
            w@.hw_input == hw_input,
            w@.message == alert_message@,
            w@.severity == severity,
            w@.display_timeout == alert_display_timeout,
            w@.remove_timeout == alert_remove_timeout,
            w@.trigger_start is None,
            w@.trigger_duration == timeout_nanos(trigger_duration),
    {
        let trigger_duration_ns = match trigger_duration {
            Some(d) => Some(duration_as_nanos(d)),
            None => None,
        };
        Watchdog {
            hw_input,
            alert_message,
            severity,
            alert_display_timeout,
            alert_remove_timeout,
            trigger_start_time: None,
            trigger_duration_ns,
        }
    }

    /// One poll with an explicit clock: `now` is the current instant and `elapsed_ns`
    /// the time passed since the persistence timer started.
    pub fn step(&mut self, trigger: bool, now: Instant, elapsed_ns: u128) -> (fired: bool)
        ensures
            (final(self)@, fired) == old(self)@.step(trigger, now, elapsed_ns as nat),
    {
        if trigger {
            match self.trigger_duration_ns {
                Some(d) => {
                    if self.trigger_start_time.is_some() {
                        elapsed_ns >= d
                    } else {
                        self.trigger_start_time = Some(now);
                        d == 0
                    }
                },
                None => true,
            }
        } else {
            self.trigger_start_time = None;
            false
        }
    }

    /// One poll against the clock: `trigger` is whether the watched condition holds now.
    /// The clock is read once; the timer is measured from its start to that reading, and
    /// a timer started by this poll starts at that reading.
    pub fn check_condition(&mut self, trigger: bool) -> (fired: bool)
        ensures
            exists|now: Instant|
                (final(self)@, fired) == old(self)@.step(
                    trigger,
                    now,
                    #[trigger] old(self)@.timer_at(now),
                ),
    {
        let now = instant_now();
        let elapsed = match &self.trigger_start_time {
            Some(start) => nanos_between(&now, start),
            None => 0,
        };
        let ghost before = self@;
        assert(elapsed == before.timer_at(now));
        self.step(trigger, now, elapsed)
    }

    /// Polls with the current reading of the watched input (`None` when the input has
    /// no value) and returns whether the condition has persisted long enough to fire.
    pub fn check(&mut self, reading: Option<AlarmLevel>) -> (fired: bool)
        ensures
            exists|now: Instant|
                (final(self)@, fired) == old(self)@.step(
                    condition_met(old(self)@.severity, reading),
                    now,
                    #[trigger] old(self)@.timer_at(now),
                ),
    {
        let trigger = match reading {
            Some(level) => match self.severity {
                Severity::Warning => level.is_warning(),
                Severity::Critical => level.is_critical(),
            },
            None => false,
        };
        assert(trigger == condition_met(self@.severity, reading));
        self.check_condition(trigger)
    }

    /// The hardware input this watchdog monitors.
    pub fn hw_input(&self) -> (r: HWInput)
        ensures
            r == self@.hw_input,
    {
        self.hw_input
    }

    /// The message of the alert this watchdog raises.
    pub fn message(&self) -> (r: &String)
        ensures
            r@ == self@.message,
    {
        &self.alert_message
    }

    /// The severity of the alert this watchdog raises.
    pub fn severity(&self) -> (r: Severity)
        ensures
            r == self@.severity,
    {
        self.severity
    }

    /// How long the raised alert is displayed; `None` until manually suppressed.
    pub fn alert_display_timeout(&self) -> (r: Option<Duration>)
        ensures
            r == self@.display_timeout,
    {
        self.alert_display_timeout
    }

    /// How long the raised alert stays queued once no longer shown; `None` removes it
    /// at once.
    pub fn alert_remove_timeout(&self) -> (r: Option<Duration>)
        ensures
            r == self@.remove_timeout,
    {
        self.alert_remove_timeout
    }
}

/// When the condition does not hold, the watchdog does not fire and its timer is reset.
pub proof fn lemma_clear_resets_timer(w: WatchdogView, now: Instant, e: nat)
    ensures
        !w.step(false, now, e).1,
        w.step(false, now, e).0.trigger_start is None,
{
}

/// Without a trigger duration, a met condition fires on the first poll.
pub proof fn lemma_fires_immediately_without_duration(w: WatchdogView, now: Instant, e: nat)
    requires
        w.trigger_duration is None,
    ensures
        w.step(true, now, e).1,
{
}

/// With a trigger duration, the first poll of a met condition (timer not running)
/// starts the timer, and fires only when the duration is zero: the condition has then
/// already held for the whole duration.
pub proof fn lemma_first_poll_starts_timer(w: WatchdogView, now: Instant, e: nat)
    requires
        w.trigger_duration is Some,
        w.trigger_start is None,
    ensures
        w.step(true, now, e).1 == (w.trigger_duration->0 == 0),
        w.step(true, now, e).0.trigger_start == Some(now),
{
}

/// A met condition fires exactly once it has held for the trigger duration: at once
/// without one or with a zero one, else once the time from the timer's start to the
/// clock reading `now` has reached it.
pub proof fn lemma_fires_when_persisted(w: WatchdogView, now: Instant)
    ensures
        w.step(true, now, w.timer_at(now)).1 == match w.trigger_duration {
            None => true,
            Some(d) => d == 0 || match w.trigger_start {
                Some(start) => since(now, start) >= d,
                None => false,
            },
        },
{
}

/// Two met polls in a row, the first with the timer stopped: the second fires exactly
/// when the trigger duration is zero or the time between the two clock readings has
/// reached it.
pub proof fn lemma_second_poll_fires_after_duration(w: WatchdogView, t1: Instant, t2: Instant)
    requires
        w.trigger_duration is Some,
        w.trigger_start is None,
    ensures
        ({
            let w1 = w.step(true, t1, w.timer_at(t1)).0;
            w1.step(true, t2, w1.timer_at(t2)).1 == (w.trigger_duration->0 == 0 || since(t2, t1) >= w.trigger_duration->0)
        }),
{
}

/// A condition that clears between two polls restarts the wait: after a clear, the
/// next met poll fires only when the trigger duration is zero, however long ago the
/// first poll was.
pub proof fn lemma_clear_restarts_wait(w: WatchdogView, t1: Instant, t2: Instant, t3: Instant, e1: nat, e2: nat, e3: nat)
    requires
        w.trigger_duration is Some,
    ensures
        w.step(true, t1, e1).0.step(false, t2, e2).0.step(true, t3, e3).1 == (w.trigger_duration->0 == 0),
{
}

/// Polling never changes what the watchdog reports about itself.
pub proof fn lemma_step_keeps_configuration(w: WatchdogView, trigger: bool, now: Instant, e: nat)
    ensures
        w.step(trigger, now, e).0.hw_input == w.hw_input,
        w.step(trigger, now, e).0.message == w.message,
        w.step(trigger, now, e).0.severity == w.severity,
        w.step(trigger, now, e).0.display_timeout == w.display_timeout,
        w.step(trigger, now, e).0.remove_timeout == w.remove_timeout,
        w.step(trigger, now, e).0.trigger_duration == w.trigger_duration,
{
}

/// A watchdog's condition holds exactly when the reading is present and sits at the
/// watchdog's own level: a warning watchdog reacts to a warning reading only (neither to
/// a normal nor to a critical one), a critical watchdog to a critical reading only, and
/// a missing reading never meets either.
pub proof fn lemma_condition_is_own_level(severity: Severity, reading: Option<AlarmLevel>)
    ensures
        condition_met(Severity::Warning, reading) <==> reading == Some(AlarmLevel::Warning),
        condition_met(Severity::Critical, reading) <==> reading == Some(AlarmLevel::Critical),
        reading is None ==> !condition_met(severity, reading),
        reading == Some(AlarmLevel::Normal) ==> !condition_met(severity, reading),
{
}

/// A poll whose condition does not hold never fires, whatever the timer and the clock.
pub proof fn lemma_unmet_condition_never_fires(w: WatchdogView, reading: Option<AlarmLevel>, now: Instant, e: nat)
    requires
        w.severity == Severity::Warning ==> reading != Some(AlarmLevel::Warning),
        w.severity == Severity::Critical ==> reading != Some(AlarmLevel::Critical),
    ensures
        !w.step(condition_met(w.severity, reading), now, e).1,
{
}

/// A met poll never moves a running persistence timer: its start stays where it was,
/// whether or not the poll fires. Only a cleared condition stops it.
pub proof fn lemma_met_poll_keeps_running_timer(w: WatchdogView, now: Instant, e: nat)
    requires
        w.trigger_start is Some,
    ensures
        w.step(true, now, e).0.trigger_start == w.trigger_start,
{
}

/// Once the condition has persisted for the trigger duration, it keeps firing on every
/// later met poll: two met polls at readings `t1` and `t2`, both at least the trigger
/// duration after the timer's start `s`, both fire, and the second still measures from `s`.
pub proof fn lemma_persisting_condition_keeps_firing(w: WatchdogView, s: Instant, t1: Instant, t2: Instant)
    requires
        w.trigger_duration is Some,
        w.trigger_start == Some(s),
        since(t1, s) >= w.trigger_duration->0,
        since(t2, s) >= w.trigger_duration->0,
    ensures
        w.step(true, t1, w.timer_at(t1)).1,
        ({
            let w1 = w.step(true, t1, w.timer_at(t1)).0;
            &&& w1.trigger_start == Some(s)
            &&& w1.timer_at(t2) == since(t2, s)
            &&& w1.step(true, t2, w1.timer_at(t2)).1
        }),
{
}

} // verus!
