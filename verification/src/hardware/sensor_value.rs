//! Context carried with sensor readings.

use vstd::prelude::*;

verus! {

/// Descriptive metadata of a sensor value.
#[derive(Debug, Clone, PartialEq, Eq)]
pub struct ValueMetadata {
    /// Unit of measurement ("°C", "V", "RPM", ...).
    pub unit: String,
    /// Human-readable label ("Engine Temp", ...).
    pub label: String,
    /// Sensor identifier for debugging.
    pub sensor_id: String,
}

impl ValueMetadata {
    pub fn new(unit: String, label: String, sensor_id: String) -> (m: Self)
        ensures
            m.unit@ == unit@,
            m.label@ == label@,
            m.sensor_id@ == sensor_id@,
    {
        ValueMetadata { unit, label, sensor_id }
    }
}

/// The kind of value a reading carries, without the value itself: what an indicator
/// decides whether it can show.
#[derive(Debug, Clone, Copy, PartialEq, Eq, Structural)]
pub enum ValueDataKind {
    Empty,
    Digital,
    Analog,
    Percentage,
    Integer,
}

/// Where a reading stands against its thresholds. A reading past a critical threshold
/// is `Critical` and never also `Warning`: critical overrides warning.
#[derive(Debug, Clone, Copy, PartialEq, Eq, Structural)]
pub enum AlarmLevel {
    Normal,
    Warning,
    Critical,
}

impl AlarmLevel {
    /// Combines the two threshold checks of a reading; the critical check wins.
    pub fn from_checks(critical: bool, warning: bool) -> (l: AlarmLevel)
        ensures
            critical ==> l == AlarmLevel::Critical,
            !critical && warning ==> l == AlarmLevel::Warning,
            !critical && !warning ==> l == AlarmLevel::Normal,
    {
        if critical {
            AlarmLevel::Critical
        } else if warning {
            AlarmLevel::Warning
        } else {
            AlarmLevel::Normal
        }
    }

    /// Whether the reading is in a critical range.
    pub fn is_critical(&self) -> (r: bool)
        ensures
            r == (*self == AlarmLevel::Critical),
    {
        match self {
            AlarmLevel::Critical => true,
            _ => false,
        }
    }

    /// Whether the reading is in a warning range (and not a critical one).
    pub fn is_warning(&self) -> (r: bool)
        ensures
            r == (*self == AlarmLevel::Warning),
    {
        match self {
            AlarmLevel::Warning => true,
            _ => false,
        }
    }
}

/// A reading is never reported as both critical and warning.
pub proof fn lemma_critical_excludes_warning(l: AlarmLevel)
    ensures
        !(l == AlarmLevel::Critical && l == AlarmLevel::Warning),
{
}

} // verus!
