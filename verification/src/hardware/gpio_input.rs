//! Logical state of a GPIO input pin.

use rppal::gpio::Level;
use vstd::prelude::*;

verus! {

#[verifier::external_type_specification]
#[verifier::external_body]
pub struct ExLevel(Level);

/// Represents the logical state of a GPIO input pin.
#[derive(Debug, Clone, Copy, PartialEq, Eq, Structural)]
pub enum PinState {
    High,
    Low,
}

/// Whether an rppal `Level` is `Level::High`.
pub uninterp spec fn level_is_high(level: Level) -> bool;

/// Tells the two variants of rppal's `Level` apart: true for `Level::High`, false for
/// `Level::Low`.
#[verifier::external_body]
fn level_high(level: Level) -> (r: bool)
    ensures
        r == level_is_high(level),
{
    match level {
        Level::High => true,
        Level::Low => false,
    }
}

/// Builds rppal's `Level::High` (`true`) or `Level::Low` (`false`).
#[verifier::external_body]
fn make_level(high: bool) -> (r: Level)
    ensures
        level_is_high(r) == high,
{
    if high {
        Level::High
    } else {
        Level::Low
    }
}

/// The pin state an rppal level denotes.
pub open spec fn state_of_level(level: Level) -> PinState {
    if level_is_high(level) { PinState::High } else { PinState::Low }
}

impl From<Level> for PinState {
    fn from(level: Level) -> (s: PinState) {
        PinState::from_level(level)
    }
}

impl vstd::std_specs::convert::FromSpecImpl<Level> for PinState {
    open spec fn obeys_from_spec() -> bool {
        true
    }

    open spec fn from_spec(level: Level) -> PinState {
        state_of_level(level)
    }
}

impl PinState {
    /// The pin state that an rppal level denotes.
    pub fn from_level(level: Level) -> (s: PinState)
        ensures
            s == state_of_level(level),
    {
        if level_high(level) {
            PinState::High
        } else {
            PinState::Low
        }
    }

    /// The rppal level that this pin state denotes.
    pub fn to_level(self) -> (l: Level)
        ensures
            level_is_high(l) == (self == PinState::High),
    {
        match self {
            PinState::High => make_level(true),
            PinState::Low => make_level(false),
        }
    }

    /// The text shown for the state: "HIGH" or "LOW".
    pub fn to_display_string(&self) -> (s: String)
        ensures
            s@ == (match self {
                PinState::High => "HIGH"@,
                PinState::Low => "LOW"@,
            }),
    {
        match self {
            PinState::High => String::from_str("HIGH"),
            PinState::Low => String::from_str("LOW"),
        }
    }

    /// Whether the input counts as active: a low level when the pin is wired active-low,
    /// a high level otherwise.
    pub fn is_active(self, active_low: bool) -> (r: bool)
        ensures
            r == (if active_low { self == PinState::Low } else { self == PinState::High }),
    {
        if active_low {
            self == PinState::Low
        } else {
            self == PinState::High
        }
    }
}

/// Converting a pin state to an rppal level and back gives the same state.
pub proof fn lemma_level_round_trip(s: PinState, l: Level)
    requires
        level_is_high(l) == (s == PinState::High),
    ensures
        state_of_level(l) == s,
{
}

/// Internal pull resistor setting of an input pin.
#[derive(Debug, Clone, Copy, PartialEq, Eq, Structural)]
pub enum PinBias {
    Off,
    PullDown,
    PullUp,
}

/// Configuration for a GPIO input pin.
#[derive(Debug, Clone, Copy, PartialEq, Eq, Structural)]
pub struct GpioInputConfig {
    pub pin_number: u8,
    pub bias: PinBias,
    /// If true, a low level means active (pressed).
    pub active_low: bool,
}

impl Default for GpioInputConfig {
    /// Pin 2 with the pull-up enabled, active low: the usual wiring of a push button
    /// that shorts the pin to ground.
    fn default() -> (c: Self)
        ensures
            c.pin_number == 2,
            c.bias == PinBias::PullUp,
            c.active_low,
    {
        GpioInputConfig { pin_number: 2, bias: PinBias::PullUp, active_low: true }
    }
}

impl GpioInputConfig {
    /// The default configuration (see `Default`) on pin `pin_number`.
    pub fn with_pin(pin_number: u8) -> (c: Self)
        ensures
            c.pin_number == pin_number,
            c.bias == PinBias::PullUp,
            c.active_low,
    {
        GpioInputConfig { pin_number, ..GpioInputConfig::default() }
    }

    /// Whether a pin read at `raw` counts as active under this configuration.
    pub fn is_active(&self, raw: PinState) -> (r: bool)
        ensures
            r == (if self.active_low { raw == PinState::Low } else { raw == PinState::High }),
    {
        raw.is_active(self.active_low)
    }
}

} // verus!
