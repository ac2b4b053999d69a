//! A single alert raised by a watchdog and kept in the alert manager's queue.
//!
//! Lifecycle: an alert is *active* while its display timeout has not elapsed since
//! creation (forever when there is none); `suppress` makes it inactive at once and
//! restarts the clock. Once inactive it stays queued for its remove timeout (measured
//! from the moment it went inactive) and is then *expired*; with no remove timeout it
//! expires as soon as it is inactive.

use crate::alerts::alert_manager::Severity;
use crate::clock::{duration_as_nanos, instant_now, nanos_between, nanos_of, since};
use std::time::{Duration, Instant};
use vstd::prelude::*;

verus! {

/// Abstract state of an alert: timeouts are in nanoseconds, `created` is the instant
/// its clock was (re)started.
pub struct AlertView {
    pub message: Seq<char>,
    pub severity: Severity,
    pub display_timeout: Option<nat>,
    pub remove_timeout: Option<nat>,
    pub created: Instant,
}

/// The timeout in nanoseconds that an optional `Duration` denotes.
pub open spec fn timeout_nanos(d: Option<Duration>) -> Option<nat> {
    match d {
        Some(d) => Some(nanos_of(d) as nat),
        None => None,
    }
}

impl AlertView {
    /// Whether the alert is shown `elapsed` nanoseconds after its clock started.
    pub open spec fn active_at(self, elapsed: nat) -> bool {
        match self.display_timeout {
            None => true,
            Some(t) => elapsed < t,
        }
    }

    /// Nanoseconds the alert has been inactive, `elapsed` nanoseconds after its clock
    /// started (the display timeout saturated away).
    pub open spec fn inactive_for(self, elapsed: nat) -> nat {
        let shown: nat = match self.display_timeout {
            None => 0,
            Some(t) => t,
        };
        if elapsed >= shown { (elapsed - shown) as nat } else { 0 }
    }

    /// Whether the alert may be dropped from the queue `elapsed` nanoseconds after its
    /// clock started.
    pub open spec fn expired_at(self, elapsed: nat) -> bool {
        &&& !self.active_at(elapsed)
        &&& match self.remove_timeout {
            None => true,
            Some(r) => self.inactive_for(elapsed) >= r,
        }
    }
}

pub struct Alert {
    message: String,
    severity: Severity,
    display_timeout_ns: Option<u128>,
    remove_timeout_ns: Option<u128>,
    creation_time: Instant,
}

pub open spec fn opt_nat(o: Option<u128>) -> Option<nat> {
    match o {
        Some(v) => Some(v as nat),
        None => None,
    }
}

/// Converts an optional timeout to nanoseconds.
fn nanos_opt(d: Option<Duration>) -> (r: Option<u128>)
    ensures
        opt_nat(r) == timeout_nanos(d),
{
    match d {
        Some(d) => Some(duration_as_nanos(d)),
        None => None,
    }
}

impl View for Alert {
    type V = AlertView;

    closed spec fn view(&self) -> AlertView {
        AlertView {
            message: self.message@,
            severity: self.severity,
            display_timeout: opt_nat(self.display_timeout_ns),
            remove_timeout: opt_nat(self.remove_timeout_ns),
            created: self.creation_time,
        }
    }
}

impl Alert {
    /// Creates an alert whose clock starts now.
    pub fn new(
        message: String,
        severity: Severity,
        display_timeout: Option<Duration>,
        remove_timeout: Option<Duration>,
    ) -> (a: Self)
        ensures
            a@.message == message@,
            a@.severity == severity,
            a@.display_timeout == timeout_nanos(display_timeout),
            a@.remove_timeout == timeout_nanos(remove_timeout),
    {
        Alert {
            message,
            severity,
            display_timeout_ns: nanos_opt(display_timeout),
            remove_timeout_ns: nanos_opt(remove_timeout),
            creation_time: instant_now(),
        }
    }

    /// The alert's display message.
    pub fn message(&self) -> (r: &str)
        ensures
            r@ == self@.message,
    {
        self.message.as_str()
    }

    /// The alert's severity.
    pub fn severity(&self) -> (r: Severity)
        ensures
            r == self@.severity,
    {
        self.severity
    }

    /// Forces the alert inactive and restarts its clock at `now`, so that the remove
    /// timeout counts from that instant.
    pub fn suppress_at(&mut self, now: Instant)
        ensures
            final(self)@ == (AlertView {
                display_timeout: Some(0nat),
                created: now,
                ..old(self)@
            }),
    {
        self.display_timeout_ns = Some(0);
        self.creation_time = now;
    }

    /// Forces the alert inactive now and restarts its clock at the current reading of
    /// the monotonic clock (see `suppress_at`), so that the remove timeout counts from
    /// this moment. Nothing is stated of that reading itself.
    pub fn suppress(&mut self)
        ensures
            final(self)@ == (AlertView {
                display_timeout: Some(0nat),
                created: final(self)@.created,
                ..old(self)@
            }),
    {
        let now = instant_now();
        self.suppress_at(now);
    }

    /// Whether the alert is shown `elapsed_ns` nanoseconds after its clock started.
    pub fn is_active_at(&self, elapsed_ns: u128) -> (r: bool)
        ensures
            r == self@.active_at(elapsed_ns as nat),
    {
        match self.display_timeout_ns {
            None => true,
            Some(timeout) => elapsed_ns < timeout,
        }
    }

    /// Whether the alert may leave the queue `elapsed_ns` nanoseconds after its clock
    /// started.
    pub fn is_expired_at(&self, elapsed_ns: u128) -> (r: bool)
        ensures
            r == self@.expired_at(elapsed_ns as nat),
    {
        if self.is_active_at(elapsed_ns) {
            return false;
        }
        match self.remove_timeout_ns {
            None => true,
            Some(timeout) => {
                let shown: u128 = match self.display_timeout_ns {
                    Some(t) => t,
                    None => 0,
                };
                let since_inactive: u128 = if elapsed_ns >= shown { elapsed_ns - shown } else { 0 };
                since_inactive >= timeout
            },
        }
    }

    /// Whether the alert is shown now: measured from the instant its clock started to
    /// the current reading of the monotonic clock.
    pub fn is_active(&self) -> (r: bool)
        ensures
            exists|now: Instant| r == self@.active_at(#[trigger] since(now, self@.created)),
    {
        let now = instant_now();
        let e = nanos_between(&now, &self.creation_time);
        assert(e == since(now, self@.created));
        self.is_active_at(e)
    }

    /// Whether the alert may leave the queue now: measured from the instant its clock
    /// started to the current reading of the monotonic clock.
    pub fn is_expired(&self) -> (r: bool)
        ensures
            exists|now: Instant| r == self@.expired_at(#[trigger] since(now, self@.created)),
    {
        let now = instant_now();
        let e = nanos_between(&now, &self.creation_time);
        assert(e == since(now, self@.created));
        self.is_expired_at(e)
    }
}

/// An alert that is still shown never expires, whatever its timeouts.
pub proof fn lemma_active_never_expired(a: AlertView, elapsed: nat)
    requires
        a.active_at(elapsed),
    ensures
        !a.expired_at(elapsed),
{
}

/// A suppressed alert (display timeout zero) is inactive at every moment after.
pub proof fn lemma_suppressed_inactive(a: AlertView, elapsed: nat)
    requires
        a.display_timeout == Some(0nat),
    ensures
        !a.active_at(elapsed),
{
}

/// Without a remove timeout, an alert expires exactly when it stops being shown.
pub proof fn lemma_no_remove_timeout_expires_when_inactive(a: AlertView, elapsed: nat)
    requires
        a.remove_timeout is None,
    ensures
        a.expired_at(elapsed) == !a.active_at(elapsed),
{
}

/// With a remove timeout, a suppressed alert expires exactly once that timeout has
/// passed since the suppression.
pub proof fn lemma_suppressed_expires_after_remove_timeout(a: AlertView, elapsed: nat)
    requires
        a.display_timeout == Some(0nat),
        a.remove_timeout is Some,
    ensures
        a.expired_at(elapsed) == (elapsed >= a.remove_timeout->0),
{
}

/// Without a display timeout an alert is shown at every moment.
pub proof fn lemma_no_display_timeout_always_active(a: AlertView, elapsed: nat)
    requires
        a.display_timeout is None,
    ensures
        a.active_at(elapsed),
{
}

} // verus!
