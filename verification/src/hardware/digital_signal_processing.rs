//! Raw digital data processors.

use crate::clock::{duration_as_nanos, instant_now, nanos_between, nanos_of, since};
use crate::hardware::gpio_input::PinState;
use std::time::{Duration, Instant};
use vstd::prelude::*;

verus! {

/// A stage of digital signal conditioning: takes one raw level, gives one processed.
pub trait DigitalSignalProcessor {
    fn read(&mut self, input: PinState) -> Result<PinState, String>;
}

/// Abstract state of a debouncer.
pub struct DebouncerView {
    pub required_stable_count: u8,
    pub required_stable_delay: Duration,
    pub last_stable_state: PinState,
    pub last_confirmed_state: PinState,
    pub stable_count: u8,
    pub timer: Instant,
}

impl DebouncerView {
    /// One sample `input` taken at clock reading `now`, `elapsed` nanoseconds after the
    /// timer started. A sample equal to the tracked level counts towards stability (the
    /// count saturates at 255) and confirms that level once it has been seen at least the
    /// required number of times and the required delay has passed; a different sample
    /// starts tracking the new level from a count of one and restarts the timer. The
    /// result is always the last confirmed level.
    pub open spec fn step(self, input: PinState, now: Instant, elapsed: nat) -> (DebouncerView, PinState) {
        if input == self.last_stable_state {
            let count: u8 = if self.stable_count < 255 { (self.stable_count + 1) as u8 } else { self.stable_count };
            let confirmed = if count >= self.required_stable_count && elapsed >= nanos_of(self.required_stable_delay) {
                self.last_stable_state
            } else {
                self.last_confirmed_state
            };
            (DebouncerView { stable_count: count, last_confirmed_state: confirmed, ..self }, confirmed)
        } else {
            (
                DebouncerView { stable_count: 1, last_stable_state: input, timer: now, ..self },
                self.last_confirmed_state,
            )
        }
    }
}

/// Debouncer: reports a level only once it has been sampled a number of times in a row
/// and held for a minimum time; until then it keeps reporting the last confirmed level
/// (initially low).
pub struct DigitalSignalDebouncer {
    required_stable_count: u8,
    required_stable_delay: Duration,
    last_stable_state: PinState,
    last_confirmed_state: PinState,
    stable_count: u8,
    timer: Instant,
}

impl View for DigitalSignalDebouncer {
    type V = DebouncerView;

    closed spec fn view(&self) -> DebouncerView {
        DebouncerView {
            required_stable_count: self.required_stable_count,
            required_stable_delay: self.required_stable_delay,
            last_stable_state: self.last_stable_state,
            last_confirmed_state: self.last_confirmed_state,
            stable_count: self.stable_count,
            timer: self.timer,
        }
    }
}

impl DigitalSignalDebouncer {
    pub fn new(required_stable_count: u8, required_stable_delay: Duration) -> (d: Self)
        ensures
            d@.required_stable_count == required_stable_count,
            d@.required_stable_delay == required_stable_delay,
            d@.last_stable_state == PinState::Low,
            d@.last_confirmed_state == PinState::Low,
            d@.stable_count == 0,
    {
        DigitalSignalDebouncer {
            required_stable_count,
            required_stable_delay,
            last_stable_state: PinState::Low,
            last_confirmed_state: PinState::Low,
            stable_count: 0,
            timer: instant_now(),
        }
    }

    /// One sample with an explicit clock: `now` is the current instant and `elapsed_ns`
    /// the time passed since the timer started.
    pub fn read_at(&mut self, input: PinState, now: Instant, elapsed_ns: u128) -> (r: PinState)
        ensures
            (final(self)@, r) == old(self)@.step(input, now, elapsed_ns as nat),
    {
        if input == self.last_stable_state {
            if self.stable_count < u8::MAX {
                self.stable_count = self.stable_count + 1;
            }
            if self.stable_count >= self.required_stable_count
                && elapsed_ns >= duration_as_nanos(self.required_stable_delay) {
                self.last_confirmed_state = self.last_stable_state;
            }
        } else {
            self.stable_count = 1;
            self.last_stable_state = input;
            self.timer = now;
        }
        self.last_confirmed_state
    }

    /// The required number of consecutive equal samples.
    pub fn required_stable_count(&self) -> (r: u8)
        ensures
            r == self@.required_stable_count,
    {
        self.required_stable_count
    }

    /// The required holding time.
    pub fn required_stable_delay(&self) -> (r: Duration)
        ensures
            r == self@.required_stable_delay,
    {
        self.required_stable_delay
    }

    /// The level currently being tracked.
    pub fn last_stable_state(&self) -> (r: PinState)
        ensures
            r == self@.last_stable_state,
    {
        self.last_stable_state
    }

    /// The last confirmed level.
    pub fn last_confirmed_state(&self) -> (r: PinState)
        ensures
            r == self@.last_confirmed_state,
    {
        self.last_confirmed_state
    }

    /// How many consecutive samples of the tracked level have been seen.
    pub fn stable_count(&self) -> (r: u8)
        ensures
            r == self@.stable_count,
    {
        self.stable_count
    }
}

impl DigitalSignalProcessor for DigitalSignalDebouncer {
    /// One sample against the clock; returns the last confirmed level. The clock is read
    /// once: the hold time is measured from the timer's start to that reading, and a
    /// restarted timer starts at it.
    fn read(&mut self, input: PinState) -> (r: Result<PinState, String>)
        ensures
            exists|now: Instant|
                (final(self)@, r) == (
                    #[trigger] old(self)@.step(input, now, since(now, old(self)@.timer)).0,
                    Ok::<PinState, String>(old(self)@.step(input, now, since(now, old(self)@.timer)).1),
                ),
    {
        let now = instant_now();
        let elapsed = nanos_between(&now, &self.timer);
        let ghost before = self@;
        let level = self.read_at(input, now, elapsed);
        assert(before.step(input, now, elapsed as nat).0 == self@);
        Ok(level)
    }
}

/// A sample that differs from the tracked level never changes the reported level.
pub proof fn lemma_changed_sample_keeps_output(d: DebouncerView, input: PinState, now: Instant, e: nat)
    requires
        input != d.last_stable_state,
    ensures
        d.step(input, now, e).1 == d.last_confirmed_state,
        d.step(input, now, e).0.last_confirmed_state == d.last_confirmed_state,
{
}

/// The reported level is either the previous one or the level that has just been
/// sampled again; a debouncer never reports a level it has not been fed.
pub proof fn lemma_output_is_kept_or_confirmed(d: DebouncerView, input: PinState, now: Instant, e: nat)
    ensures
        d.step(input, now, e).1 == d.last_confirmed_state
            || (d.step(input, now, e).1 == input && input == d.last_stable_state),
{
}

/// Alternating samples (bouncing) never confirm anything: two successive differing
/// samples leave the reported level as it was.
pub proof fn lemma_bouncing_is_ignored(d: DebouncerView, t1: Instant, t2: Instant, e1: nat, e2: nat)
    requires
        d.last_stable_state == PinState::Low,
    ensures
        d.step(PinState::High, t1, e1).0.step(PinState::Low, t2, e2).1 == d.last_confirmed_state,
{
}

/// A sample that differs from the tracked level restarts the hold timer at that
/// sample's clock reading, and starts tracking it from a count of one.
pub proof fn lemma_change_restarts_timer(d: DebouncerView, input: PinState, now: Instant, e: nat)
    requires
        input != d.last_stable_state,
    ensures
        d.step(input, now, e).0.timer == now,
        d.step(input, now, e).0.last_stable_state == input,
        d.step(input, now, e).0.stable_count == 1,
{
}

/// After the level changes at clock reading `t1`, a second sample of the new level at
/// reading `t2` confirms it exactly when two samples suffice and the time from `t1` to
/// `t2` has reached the required delay: the hold time counts from the change, however
/// long the old level was held before.
pub proof fn lemma_new_level_held_from_change(d: DebouncerView, input: PinState, t1: Instant, t2: Instant)
    requires
        input != d.last_stable_state,
    ensures
        ({
            let d1 = d.step(input, t1, since(t1, d.timer)).0;
            d1.step(input, t2, since(t2, d1.timer)).1 == if 2 >= d.required_stable_count
                && since(t2, t1) >= nanos_of(d.required_stable_delay) {
                input
            } else {
                d.last_confirmed_state
            }
        }),
{
}

} // verus!
