//! Event-emitting watchdog: instead of queueing an alert itself, it produces an
//! "alert triggered" event for the UI's event channel each time its condition holds.

use crate::hardware::hw_providers::HWInput;
use crate::hardware::sensor_value::AlarmLevel;
use vstd::prelude::*;

verus! {

/// Which threshold level an event-emitting watchdog watches.
#[derive(Debug, Clone, Copy, PartialEq, Eq, Structural)]
pub enum WatchdogSeverity {
    Warning,
    Critical,
}

/// The event a watchdog hands to the UI: the input concerned, the message to show, and
/// for how many milliseconds to show it.
#[derive(Debug, Clone, PartialEq, Eq)]
pub struct AlertTriggered {
    pub hw_input: HWInput,
    pub message: String,
    pub timeout_ms: u32,
}

/// Whether `reading` meets the condition a watchdog of `severity` watches for.
pub open spec fn event_condition(severity: WatchdogSeverity, reading: Option<AlarmLevel>) -> bool {
    match reading {
        None => false,
        Some(level) => match severity {
            WatchdogSeverity::Warning => level == AlarmLevel::Warning,
            WatchdogSeverity::Critical => level == AlarmLevel::Critical,
        },
    }
}

pub struct Watchdog {
    hw_input: HWInput,
    alert_message: String,
    severity: WatchdogSeverity,
    timeout_ms: u32,
}

impl Watchdog {
    pub closed spec fn spec_hw_input(&self) -> HWInput {
        self.hw_input
    }

    pub closed spec fn spec_message(&self) -> Seq<char> {
        self.alert_message@
    }

    pub closed spec fn spec_severity(&self) -> WatchdogSeverity {
        self.severity
    }

    pub closed spec fn spec_timeout_ms(&self) -> u32 {
        self.timeout_ms
    }

    pub fn new(hw_input: HWInput, alert_message: String, severity: WatchdogSeverity, timeout_ms: u32) -> (w: Self)
        ensures
            w.spec_hw_input() == hw_input,
            w.spec_message() == alert_message@,
            w.spec_severity() == severity,
            w.spec_timeout_ms() == timeout_ms,
    {
        Watchdog { hw_input, alert_message, severity, timeout_ms }
    }

    /// Checks the current reading of the watched input (`None` when it has none) and
    /// returns the event to send when the condition holds.
    pub fn check(&self, reading: Option<AlarmLevel>) -> (event: Option<AlertTriggered>)
        ensures
            event is Some <==> event_condition(self.spec_severity(), reading),
            event matches Some(ev) ==> {
                &&& ev.hw_input == self.spec_hw_input()
                &&& ev.message@ == self.spec_message()
                &&& ev.timeout_ms == self.spec_timeout_ms()
            },
    {
        let condition = match reading {
            Some(level) => match self.severity {
                WatchdogSeverity::Warning => level.is_warning(),
                WatchdogSeverity::Critical => level.is_critical(),
            },
            None => false,
        };
        if condition {
            Some(AlertTriggered { hw_input: self.hw_input, message: self.alert_message.clone(), timeout_ms: self.timeout_ms })
        } else {
            None
        }
    }
}

} // verus!
