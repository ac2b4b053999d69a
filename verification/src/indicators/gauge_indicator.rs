//! The circular gauge indicator (its drawing lives with the display backend).

use crate::hardware::sensor_value::ValueDataKind;
use vstd::prelude::*;

verus! {

/// A circular gauge with a rotating needle; it carries no configuration of its own.
#[derive(Debug, Clone, Copy, PartialEq, Eq, Structural)]
pub struct GaugeIndicator;

impl GaugeIndicator {
    pub fn new() -> (g: Self)
        ensures
            g == GaugeIndicator,
    {
        GaugeIndicator
    }

    /// The name this indicator is known by.
    pub fn indicator_type(&self) -> (r: &'static str)
        ensures
            r@ == "gauge"@,
    {
        "gauge"
    }

    /// A gauge shows analog and percentage values only.
    pub fn supports_value_type(&self, kind: ValueDataKind) -> (r: bool)
        ensures
            r == (kind == ValueDataKind::Analog || kind == ValueDataKind::Percentage),
    {
        match kind {
            ValueDataKind::Analog | ValueDataKind::Percentage => true,
            _ => false,
        }
    }
}

} // verus!
