//! Owns the registered watchdogs and the alerts they have raised.
//!
//! Each cycle `check_watchdogs` first drops every expired alert from the queue, then
//! polls every watchdog in registration order; a watchdog that fires raises a new
//! alert unless an alert of its own is still queued, so there is at most one alert per
//! watchdog at any time. Purging before polling lets a condition that persists raise a
//! fresh alert in the very cycle its previous one expires. While the manager is
//! disabled nothing is polled and the queue is left as it is.

use crate::alerts::alert::{timeout_nanos, Alert, AlertView};
use crate::alerts::watchdog::{condition_met, lemma_step_keeps_configuration, Watchdog, WatchdogView};
use crate::clock::since;
use crate::hardware::hw_providers::HWInput;
use crate::hardware::sensor_value::AlarmLevel;
use std::time::Instant;
use vstd::prelude::*;

verus! {

/// How serious a raised alert is.
#[derive(Debug, Clone, Copy, PartialEq, Eq, Structural)]
pub enum Severity {
    Warning,
    Critical,
}

/// Abstract state of the manager: watchdogs with their ids, and the alert queue, each
/// alert tagged with the id of the watchdog that raised it.
pub struct AlertManagerView {
    pub enabled: bool,
    pub watchdogs: Seq<(u32, WatchdogView)>,
    pub alerts: Seq<(u32, AlertView)>,
}

/// Whether the queue holds an alert raised by watchdog `id`.
pub open spec fn has_alert(alerts: Seq<(u32, AlertView)>, id: u32) -> bool {
    exists|k: int| 0 <= k < alerts.len() && (#[trigger] alerts[k]).0 == id
}

/// The reading of `input` among `readings`: the first entry for it, if any.
pub open spec fn reading_for(readings: Seq<(HWInput, AlarmLevel)>, input: HWInput) -> Option<AlarmLevel>
    decreases readings.len(),
{
    if readings.len() == 0 {
        None
    } else if readings[0].0 == input {
        Some(readings[0].1)
    } else {
        reading_for(readings.drop_first(), input)
    }
}

/// An alert freshly raised by watchdog `w` carries its message, severity and timeouts.
pub open spec fn fresh_alert_for(a: AlertView, w: WatchdogView) -> bool {
    &&& a.message == w.message
    &&& a.severity == w.severity
    &&& a.display_timeout == timeout_nanos(w.display_timeout)
    &&& a.remove_timeout == timeout_nanos(w.remove_timeout)
}

/// Ids, in registration order, of the first `n` watchdogs that fired (`fired[i]`) while
/// no alert of theirs was queued in `queued`: the watchdogs that raise a new alert.
pub open spec fn raised_ids(queued: Seq<(u32, AlertView)>, fired: Seq<bool>, n: nat) -> Seq<u32>
    decreases n,
{
    if n == 0 {
        Seq::empty()
    } else {
        let prev = raised_ids(queued, fired, (n - 1) as nat);
        let i = (n - 1) as u32;
        if fired[n - 1] && !has_alert(queued, i) {
            prev.push(i)
        } else {
            prev
        }
    }
}

/// Of `raised`, the ids that are not in `purged`: alerts raised for a watchdog whose
/// previous alert was not dropped in the same cycle.
pub open spec fn new_occurrences(raised: Seq<u32>, purged: Seq<u32>) -> Seq<u32>
    decreases raised.len(),
{
    if raised.len() == 0 {
        Seq::empty()
    } else {
        let prev = new_occurrences(raised.drop_last(), purged);
        if purged.contains(raised.last()) {
            prev
        } else {
            prev.push(raised.last())
        }
    }
}

impl AlertManagerView {
    /// Watchdog ids are their registration positions, and the queue holds at most one
    /// alert per registered watchdog.
    pub open spec fn wf(self) -> bool {
        &&& forall|i: int| 0 <= i < self.watchdogs.len() ==> (#[trigger] self.watchdogs[i]).0 == i
        &&& forall|k: int|
            0 <= k < self.alerts.len() ==> ((#[trigger] self.alerts[k]).0 as int) < self.watchdogs.len()
        &&& forall|k: int, l: int|
            0 <= k < l < self.alerts.len() ==> (#[trigger] self.alerts[k]).0 != (#[trigger] self.alerts[l]).0
    }

    /// `self` becomes `after` by dropping from the queue the alerts found expired (each
    /// measured from its own clock start to a reading of the monotonic clock taken when it
    /// was checked) and keeping, in order, the others; `purged` lists the dropped ids in
    /// queue order.
    pub open spec fn purged_to(self, after: AlertManagerView, purged: Seq<u32>) -> bool {
        &&& after.enabled == self.enabled
        &&& after.watchdogs == self.watchdogs
        &&& exists|keep: Seq<bool>, nows: Seq<Instant>| #[trigger] purge_split(self.alerts, keep, nows, after.alerts, purged)
    }

    /// `self` becomes `after` by polling each watchdog once, in registration order, with
    /// the reading of its input, and queueing a fresh alert for each one that fired
    /// while none of its alerts was queued; `logged` lists the ids of those raised
    /// alerts whose watchdog is not in `purged`.
    pub open spec fn polled_to(
        self,
        after: AlertManagerView,
        readings: Seq<(HWInput, AlarmLevel)>,
        purged: Seq<u32>,
        logged: Seq<u32>,
    ) -> bool {
        &&& after.enabled == self.enabled
        &&& exists|fired: Seq<bool>, nows: Seq<Instant>|
            #[trigger] poll_outcome(self, after, readings, fired, nows, purged, logged)
    }
}

/// The alerts of `alerts` whose `keep` flag is set, in order.
pub open spec fn kept_part(alerts: Seq<(u32, AlertView)>, keep: Seq<bool>) -> Seq<(u32, AlertView)>
    decreases alerts.len(),
{
    if alerts.len() == 0 {
        Seq::empty()
    } else {
        let prev = kept_part(alerts.drop_last(), keep.drop_last());
        if keep.last() { prev.push(alerts.last()) } else { prev }
    }
}

/// The ids of the alerts of `alerts` whose `keep` flag is clear, in order.
pub open spec fn dropped_ids(alerts: Seq<(u32, AlertView)>, keep: Seq<bool>) -> Seq<u32>
    decreases alerts.len(),
{
    if alerts.len() == 0 {
        Seq::empty()
    } else {
        let prev = dropped_ids(alerts.drop_last(), keep.drop_last());
        if keep.last() { prev } else { prev.push(alerts.last().0) }
    }
}

/// Nanoseconds into the clock of queued alert `a` at the clock reading `now`.
pub open spec fn alert_age(a: (u32, AlertView), now: Instant) -> nat {
    since(now, a.1.created)
}

/// The split of `alerts` into the kept ones and the dropped ones: alert `k` was checked
/// at the clock reading `nows[k]`, and is kept exactly when it was not expired then.
pub open spec fn purge_split(
    alerts: Seq<(u32, AlertView)>,
    keep: Seq<bool>,
    nows: Seq<Instant>,
    kept: Seq<(u32, AlertView)>,
    purged: Seq<u32>,
) -> bool {
    &&& keep.len() == alerts.len()
    &&& nows.len() == alerts.len()
    &&& kept == kept_part(alerts, keep)
    &&& purged == dropped_ids(alerts, keep)
    &&& forall|k: int|
        0 <= k < alerts.len() ==> #[trigger] alerts[k].1.expired_at(alert_age(alerts[k], nows[k])) == !keep[k]
}

/// Whether watchdog `w` is polled with a met condition, given `readings`.
pub open spec fn watchdog_condition(w: WatchdogView, readings: Seq<(HWInput, AlarmLevel)>) -> bool {
    condition_met(w.severity, reading_for(readings, w.hw_input))
}

/// One polling pass from `before` to `after`: watchdog `i` was polled at clock reading
/// `nows[i]`, with its persistence timer measured up to that reading, and reported
/// `fired[i]`.
pub open spec fn poll_outcome(
    before: AlertManagerView,
    after: AlertManagerView,
    readings: Seq<(HWInput, AlarmLevel)>,
    fired: Seq<bool>,
    nows: Seq<Instant>,
    purged: Seq<u32>,
    logged: Seq<u32>,
) -> bool {
    let n = before.watchdogs.len();
    let raised = raised_ids(before.alerts, fired, n);
    &&& fired.len() == n
    &&& nows.len() == n
    &&& after.watchdogs.len() == n
    &&& forall|i: int| 0 <= i < n ==> {
        let w = before.watchdogs[i].1;
        &&& (#[trigger] after.watchdogs[i]).0 == before.watchdogs[i].0
        &&& (after.watchdogs[i].1, fired[i]) == w.step(watchdog_condition(w, readings), nows[i], w.timer_at(nows[i]))
    }
    &&& after.alerts.len() == before.alerts.len() + raised.len()
    &&& after.alerts.subrange(0, before.alerts.len() as int) == before.alerts
    &&& forall|j: int| 0 <= j < raised.len() ==> {
        &&& (#[trigger] after.alerts[before.alerts.len() + j]).0 == raised[j]
        &&& fresh_alert_for(after.alerts[before.alerts.len() + j].1, before.watchdogs[raised[j] as int].1)
    }
    &&& logged == new_occurrences(raised, purged)
}

/// Replacing alerts while keeping their ids in place keeps the state well formed.
proof fn lemma_same_ids_wf(o: AlertManagerView, n: AlertManagerView)
    requires
        o.wf(),
        n.watchdogs == o.watchdogs,
        n.alerts.len() == o.alerts.len(),
        forall|k: int| 0 <= k < n.alerts.len() ==> (#[trigger] n.alerts[k]).0 == o.alerts[k].0,
    ensures
        n.wf(),
{
    assert forall|k: int, l: int| 0 <= k < l < n.alerts.len() implies (#[trigger] n.alerts[k]).0 != (#[trigger] n.alerts[l]).0 by {
        assert(o.alerts[k].0 != o.alerts[l].0);
    }
    assert forall|k: int| 0 <= k < n.alerts.len() implies ((#[trigger] n.alerts[k]).0 as int) < n.watchdogs.len() by {
        assert(o.alerts[k].0 == n.alerts[k].0);
    }
}

/// Dropping alerts from a well-formed queue keeps it well formed.
proof fn lemma_kept_part_wf(o: AlertManagerView, n: AlertManagerView, keep: Seq<bool>)
    requires
        o.wf(),
        n.watchdogs == o.watchdogs,
        keep.len() == o.alerts.len(),
        n.alerts == kept_part(o.alerts, keep),
    ensures
        n.wf(),
{
    lemma_kept_part_subseq(o.alerts, keep);
    let idx = choose|idx: Seq<int>| kept_subseq_witness(o.alerts, keep, idx);
    assert forall|k: int, l: int| 0 <= k < l < n.alerts.len() implies (#[trigger] n.alerts[k]).0 != (#[trigger] n.alerts[l]).0 by {
        assert(n.alerts[k] == o.alerts[idx[k]]);
        assert(n.alerts[l] == o.alerts[idx[l]]);
    }
    assert forall|k: int| 0 <= k < n.alerts.len() implies ((#[trigger] n.alerts[k]).0 as int) < n.watchdogs.len() by {
        assert(n.alerts[k] == o.alerts[idx[k]]);
    }
}

/// `idx` lists, increasingly, the positions in `s` of the elements that `kept_part` keeps.
pub open spec fn kept_subseq_witness(s: Seq<(u32, AlertView)>, keep: Seq<bool>, idx: Seq<int>) -> bool {
    &&& idx.len() == kept_part(s, keep).len()
    &&& forall|j: int| 0 <= j < idx.len() ==> 0 <= #[trigger] idx[j] < s.len()
    &&& forall|j: int| 0 <= j < idx.len() ==> kept_part(s, keep)[j] == s[#[trigger] idx[j]]
    &&& forall|j: int, l: int| 0 <= j < l < idx.len() ==> #[trigger] idx[j] < #[trigger] idx[l]
}

proof fn lemma_kept_part_subseq(s: Seq<(u32, AlertView)>, keep: Seq<bool>)
    requires
        keep.len() == s.len(),
    ensures
        exists|idx: Seq<int>| kept_subseq_witness(s, keep, idx),
    decreases s.len(),
{
    if s.len() == 0 {
        assert(kept_subseq_witness(s, keep, Seq::empty()));
    } else {
        lemma_kept_part_subseq(s.drop_last(), keep.drop_last());
        let idx0 = choose|idx: Seq<int>| kept_subseq_witness(s.drop_last(), keep.drop_last(), idx);
        if keep.last() {
            let idx = idx0.push(s.len() - 1);
            assert(kept_subseq_witness(s, keep, idx));
        } else {
            assert(kept_subseq_witness(s, keep, idx0));
        }
    }
}

/// Facts about the ids that a polling pass raises alerts for.
proof fn lemma_raised_ids(q: Seq<(u32, AlertView)>, fired: Seq<bool>, n: nat)
    requires
        n <= u32::MAX + 1,
    ensures
        forall|j: int| 0 <= j < raised_ids(q, fired, n).len() ==> (#[trigger] raised_ids(q, fired, n)[j] as int) < n,
        forall|j: int, l: int| 0 <= j < l < raised_ids(q, fired, n).len() ==>
            #[trigger] raised_ids(q, fired, n)[j] < #[trigger] raised_ids(q, fired, n)[l],
        forall|j: int| 0 <= j < raised_ids(q, fired, n).len() ==> !has_alert(q, #[trigger] raised_ids(q, fired, n)[j]),
        forall|j: int| 0 <= j < raised_ids(q, fired, n).len() ==> fired[#[trigger] raised_ids(q, fired, n)[j] as int],
    decreases n,
{
    if n > 0 {
        lemma_raised_ids(q, fired, (n - 1) as nat);
        let i = (n - 1) as u32;
        assert(i as int == n - 1);
        let prev = raised_ids(q, fired, (n - 1) as nat);
        let cur = raised_ids(q, fired, n);
        if fired[n - 1] && !has_alert(q, i) {
            assert(cur == prev.push(i));
            assert forall|j: int| 0 <= j < cur.len() implies (#[trigger] cur[j] as int) < n by {
                if j < prev.len() {
                    assert(cur[j] == prev[j]);
                }
            }
            assert forall|j: int, l: int| 0 <= j < l < cur.len() implies #[trigger] cur[j] < #[trigger] cur[l] by {
                assert(cur[j] == prev[j]);
                if l < prev.len() {
                    assert(cur[l] == prev[l]);
                }
            }
        }
    }
}

/// `raised_ids` reads only the first `n` flags.
proof fn lemma_raised_ids_prefix(q: Seq<(u32, AlertView)>, f1: Seq<bool>, f2: Seq<bool>, n: nat)
    requires
        n <= f1.len(),
        n <= f2.len(),
        forall|i: int| 0 <= i < n ==> f1[i] == f2[i],
    ensures
        raised_ids(q, f1, n) == raised_ids(q, f2, n),
    decreases n,
{
    if n > 0 {
        lemma_raised_ids_prefix(q, f1, f2, (n - 1) as nat);
    }
}

/// Whether some alert `k` of `alerts` is active at the clock reading `nows[k]`.
pub open spec fn any_active(alerts: Seq<(u32, AlertView)>, nows: Seq<Instant>) -> bool {
    exists|k: int| 0 <= k < alerts.len() && #[trigger] alerts[k].1.active_at(alert_age(alerts[k], nows[k]))
}

/// Positions, in order, among the first `n` alerts of `alerts` of those that are shown
/// (`shown[k]`) and have severity `sev`.
pub open spec fn positions_with(alerts: Seq<(u32, AlertView)>, shown: Seq<bool>, sev: Severity, n: nat) -> Seq<usize>
    decreases n,
{
    if n == 0 {
        Seq::empty()
    } else {
        let prev = positions_with(alerts, shown, sev, (n - 1) as nat);
        if shown[n - 1] && alerts[n - 1].1.severity == sev {
            prev.push((n - 1) as usize)
        } else {
            prev
        }
    }
}

/// The drawing order of a queue: alert `k` was checked at the clock reading `nows[k]` and
/// is shown exactly when it was active then; the order lists the shown critical alerts,
/// then the shown warnings, each in queue order.
pub open spec fn display_split(alerts: Seq<(u32, AlertView)>, shown: Seq<bool>, nows: Seq<Instant>, order: Seq<usize>) -> bool {
    &&& shown.len() == alerts.len()
    &&& nows.len() == alerts.len()
    &&& forall|k: int|
        0 <= k < alerts.len() ==> #[trigger] alerts[k].1.active_at(alert_age(alerts[k], nows[k])) == shown[k]
    &&& order == positions_with(alerts, shown, Severity::Critical, alerts.len())
        + positions_with(alerts, shown, Severity::Warning, alerts.len())
}

/// `positions_with` reads only the first `n` flags.
proof fn lemma_positions_with_prefix(alerts: Seq<(u32, AlertView)>, s1: Seq<bool>, s2: Seq<bool>, sev: Severity, n: nat)
    requires
        n <= s1.len(),
        n <= s2.len(),
        forall|i: int| 0 <= i < n ==> s1[i] == s2[i],
    ensures
        positions_with(alerts, s1, sev, n) == positions_with(alerts, s2, sev, n),
    decreases n,
{
    if n > 0 {
        lemma_positions_with_prefix(alerts, s1, s2, sev, (n - 1) as nat);
    }
}

/// Whether `id` occurs in `v`.
pub fn vec_contains(v: &Vec<u32>, id: u32) -> (r: bool)
    ensures
        r == v@.contains(id),
{
    let mut k: usize = 0;
    while k < v.len()
        invariant
            k <= v.len(),
            forall|j: int| 0 <= j < k ==> v@[j] != id,
        decreases v.len() - k,
    {
        if v[k] == id {
            assert(v@[k as int] == id);
            return true;
        }
        k = k + 1;
    }
    false
}

/// The abstract queue that a vector of tagged alerts holds.
pub open spec fn alerts_view(v: Seq<(u32, Alert)>) -> Seq<(u32, AlertView)> {
    v.map_values(|p: (u32, Alert)| (p.0, p.1@))
}

/// The abstract watchdog list that a vector of tagged watchdogs holds.
pub open spec fn watchdogs_view(v: Seq<(u32, Watchdog)>) -> Seq<(u32, WatchdogView)> {
    v.map_values(|p: (u32, Watchdog)| (p.0, p.1@))
}

pub struct AlertManager {
    watchdog_id_counter: u32,
    enabled: bool,
    watchdogs: Vec<(u32, Watchdog)>,
    alerts: Vec<(u32, Alert)>,
}

impl View for AlertManager {
    type V = AlertManagerView;

    closed spec fn view(&self) -> AlertManagerView {
        AlertManagerView {
            enabled: self.enabled,
            watchdogs: watchdogs_view(self.watchdogs@),
            alerts: alerts_view(self.alerts@),
        }
    }
}

/// The reading of `input` among `readings` (the first entry for it).
pub fn lookup_reading(readings: &Vec<(HWInput, AlarmLevel)>, input: HWInput) -> (r: Option<AlarmLevel>)
    ensures
        r == reading_for(readings@, input),
{
    let mut i: usize = 0;
    assert(readings@.skip(0) =~= readings@);
    while i < readings.len()
        invariant
            i <= readings.len(),
            reading_for(readings@, input) == reading_for(readings@.skip(i as int), input),
        decreases readings.len() - i,
    {
        let ghost rest = readings@.skip(i as int);
        assert(rest.drop_first() =~= readings@.skip(i + 1));
        if readings[i].0 == input {
            return Some(readings[i].1);
        }
        i = i + 1;
    }
    None
}

impl AlertManager {
    /// The manager's internal bookkeeping is consistent: the id counter is the number
    /// of registered watchdogs, and the abstract state is well formed.
    pub closed spec fn wf(&self) -> bool {
        &&& self.watchdog_id_counter as int == self.watchdogs@.len()
        &&& self@.wf()
    }

    /// A consistent manager's abstract state is well formed: watchdog ids are their
    /// registration positions and the queue holds at most one alert per watchdog.
    pub proof fn lemma_view_wf(&self)
        requires
            self.wf(),
        ensures
            self@.wf(),
    {
    }

    /// An empty manager: no watchdogs, no alerts.
    pub fn new(enabled: bool) -> (m: Self)
        ensures
            m.wf(),
            m@.wf(),
            m@.enabled == enabled,
            m@.watchdogs.len() == 0,
            m@.alerts.len() == 0,
    {
        let m = AlertManager { watchdog_id_counter: 0, enabled, watchdogs: Vec::new(), alerts: Vec::new() };
        assert(m@.watchdogs =~= Seq::empty());
        assert(m@.alerts =~= Seq::empty());
        m
    }

    /// Enables or disables polling as a whole.
    pub fn set_enabled(&mut self, enabled: bool)
        requires
            old(self).wf(),
        ensures
            final(self).wf(),
            final(self)@.wf(),
            final(self)@ == (AlertManagerView { enabled, ..old(self)@ }),
    {
        self.enabled = enabled;
    }

    /// Whether polling is enabled.
    pub fn is_enabled(&self) -> (r: bool)
        ensures
            r == self@.enabled,
    {
        self.enabled
    }

    /// Number of alerts in the queue.
    pub fn alert_count(&self) -> (r: usize)
        ensures
            r == self@.alerts.len(),
    {
        self.alerts.len()
    }

    /// The queued alert at position `k`, with the id of the watchdog that raised it.
    pub fn alert(&self, k: usize) -> (r: (u32, &Alert))
        requires
            k < self@.alerts.len(),
        ensures
            r.0 == self@.alerts[k as int].0,
            r.1@ == self@.alerts[k as int].1,
    {
        (self.alerts[k].0, &self.alerts[k].1)
    }

    /// Number of registered watchdogs.
    pub fn watchdog_count(&self) -> (r: usize)
        ensures
            r == self@.watchdogs.len(),
    {
        self.watchdogs.len()
    }

    /// The registered watchdog at position `k`, with its id.
    pub fn watchdog(&self, k: usize) -> (r: (u32, &Watchdog))
        requires
            k < self@.watchdogs.len(),
        ensures
            r.0 == self@.watchdogs[k as int].0,
            r.1@ == self@.watchdogs[k as int].1,
    {
        (self.watchdogs[k].0, &self.watchdogs[k].1)
    }

    /// Registers a watchdog; its id is its registration position.
    pub fn add_watchdog(&mut self, watchdog: Watchdog)
        requires
            old(self).wf(),
            old(self)@.watchdogs.len() < u32::MAX,
        ensures
            final(self).wf(),
            final(self)@.wf(),
            final(self)@.enabled == old(self)@.enabled,
            final(self)@.alerts == old(self)@.alerts,
            final(self)@.watchdogs == old(self)@.watchdogs.push((old(self)@.watchdogs.len() as u32, watchdog@)),
            forall|i: int|
                0 <= i < old(self)@.watchdogs.len() ==> (#[trigger] old(self)@.watchdogs[i]).0 != old(self)@.watchdogs.len() as u32,
    {
        let id = self.get_next_watchdog_id();
        self.watchdogs.push((id, watchdog));
        proof {
            let o = old(self)@;
            assert(watchdogs_view(self.watchdogs@) =~= o.watchdogs.push((id, watchdog@)));
            let v = self@;
            assert(v.alerts == o.alerts);
            assert forall|i: int| 0 <= i < v.watchdogs.len() implies (#[trigger] v.watchdogs[i]).0 == i by {
                if i < o.watchdogs.len() {
                    assert(v.watchdogs[i] == o.watchdogs[i]);
                }
            }
        }
    }

    fn get_next_watchdog_id(&mut self) -> (id: u32)
        requires
            old(self).watchdog_id_counter < u32::MAX,
        ensures
            id == old(self).watchdog_id_counter,
            final(self).watchdog_id_counter == id + 1,
            final(self).enabled == old(self).enabled,
            final(self).watchdogs == old(self).watchdogs,
            final(self).alerts == old(self).alerts,
    {
        let id = self.watchdog_id_counter;
        self.watchdog_id_counter = self.watchdog_id_counter + 1;
        id
    }

    /// Forces every queued alert inactive at once (see `Alert::suppress`), whatever its
    /// severity or source.
    pub fn suppress_alerts(&mut self)
        requires
            old(self).wf(),
        ensures
            final(self).wf(),
            final(self)@.wf(),
            final(self)@.enabled == old(self)@.enabled,
            final(self)@.watchdogs == old(self)@.watchdogs,
            final(self)@.alerts.len() == old(self)@.alerts.len(),
            forall|k: int| 0 <= k < old(self)@.alerts.len() ==> {
                let a = (#[trigger] final(self)@.alerts[k]);
                let b = old(self)@.alerts[k];
                &&& a.0 == b.0
                &&& a.1.display_timeout == Some(0nat)
                &&& a.1.message == b.1.message
                &&& a.1.severity == b.1.severity
                &&& a.1.remove_timeout == b.1.remove_timeout
            },
    {
        let mut i: usize = 0;
        while i < self.alerts.len()
            invariant
                self.watchdog_id_counter == old(self).watchdog_id_counter,
                self.enabled == old(self).enabled,
                self.watchdogs == old(self).watchdogs,
                self.alerts.len() == old(self).alerts.len(),
                0 <= i <= self.alerts.len(),
                forall|k: int| 0 <= k < self.alerts.len() ==> (#[trigger] self.alerts@[k]).0 == old(self).alerts@[k].0,
                forall|k: int| 0 <= k < i ==> {
                    let a = (#[trigger] self.alerts@[k]).1@;
                    let b = old(self).alerts@[k].1@;
                    &&& a.display_timeout == Some(0nat)
                    &&& a.message == b.message
                    &&& a.severity == b.severity
                    &&& a.remove_timeout == b.remove_timeout
                },
                forall|k: int| i <= k < self.alerts.len() ==> #[trigger] self.alerts@[k] == old(self).alerts@[k],
            decreases self.alerts.len() - i,
        {
            self.alerts[i].1.suppress();
            i = i + 1;
        }
        proof {
            assert forall|k: int| 0 <= k < self@.alerts.len() implies (#[trigger] self@.alerts[k]).0 == old(self)@.alerts[k].0 by {
                assert(self@.alerts[k].0 == self.alerts@[k].0);
            }
            lemma_same_ids_wf(old(self)@, self@);
        }
    }

    /// Drops every expired alert from the queue, keeping the order of the others, and
    /// returns the ids of the dropped alerts.
    pub fn purge_expired(&mut self) -> (purged: Vec<u32>)
        requires
            old(self).wf(),
        ensures
            final(self).wf(),
            final(self)@.wf(),
            old(self)@.purged_to(final(self)@, purged@),
    {
        let mut rest: Vec<(u32, Alert)> = Vec::new();
        std::mem::swap(&mut rest, &mut self.alerts);
        let ghost orig = alerts_view(rest@);
        let ghost mut keep: Seq<bool> = Seq::empty();
        let ghost mut nows: Seq<Instant> = Seq::empty();
        let mut kept: Vec<(u32, Alert)> = Vec::new();
        let mut purged: Vec<u32> = Vec::new();
        assert(orig =~= old(self)@.alerts);
        while rest.len() > 0
            invariant
                self.watchdog_id_counter == old(self).watchdog_id_counter,
                self.enabled == old(self).enabled,
                self.watchdogs == old(self).watchdogs,
                orig == old(self)@.alerts,
                keep.len() + rest@.len() == orig.len(),
                alerts_view(rest@) == orig.skip(keep.len() as int),
                alerts_view(kept@) == kept_part(orig.take(keep.len() as int), keep),
                purged@ == dropped_ids(orig.take(keep.len() as int), keep),
                nows.len() == keep.len(),
                forall|k: int|
                    0 <= k < keep.len() ==> #[trigger] orig[k].1.expired_at(alert_age(orig[k], nows[k])) == !keep[k],
            decreases rest.len(),
        {
            let ghost k = keep.len() as int;
            let ghost rest_before = alerts_view(rest@);
            let (id, alert) = rest.remove(0);
            assert(orig[k] == (id, alert@)) by {
                assert(rest_before[0] == orig.skip(k)[0]);
            }
            let expired = alert.is_expired();
            let ghost now = choose|now: Instant| expired == alert@.expired_at(#[trigger] since(now, alert@.created));
            if expired {
                purged.push(id);
            } else {
                kept.push((id, alert));
            }
            proof {
                let keep_old = keep;
                keep = keep.push(!expired);
                assert(orig.take(k + 1).drop_last() =~= orig.take(k));
                assert(keep.drop_last() =~= keep_old);
                assert(orig.take(k + 1).last() == orig[k]);
                assert(alerts_view(rest@) =~= orig.skip(k + 1)) by {
                    assert(alerts_view(rest@) =~= rest_before.drop_first());
                }
                if expired {
                    assert(purged@ =~= dropped_ids(orig.take(k), keep_old).push(id));
                } else {
                    assert(alerts_view(kept@) =~= kept_part(orig.take(k), keep_old).push((id, alert@)));
                }
                nows = nows.push(now);
            }
        }
        proof {
            assert(orig.take(keep.len() as int) =~= orig);
        }
        self.alerts = kept;
        proof {
            let o = old(self)@;
            let v = self@;
            assert(purge_split(o.alerts, keep, nows, v.alerts, purged@));
            lemma_kept_part_wf(o, v, keep);
        }
        purged
    }

    /// Whether the queue holds an alert raised by watchdog `id`.
    pub fn has_alert_for(&self, id: u32) -> (r: bool)
        ensures
            r == has_alert(self@.alerts, id),
    {
        let mut k: usize = 0;
        while k < self.alerts.len()
            invariant
                k <= self.alerts.len(),
                forall|j: int| 0 <= j < k ==> (#[trigger] self@.alerts[j]).0 != id,
            decreases self.alerts.len() - k,
        {
            if self.alerts[k].0 == id {
                assert(self@.alerts[k as int].0 == id);
                return true;
            }
            assert(self@.alerts[k as int].0 == self.alerts@[k as int].0);
            k = k + 1;
        }
        false
    }

    /// Polls every watchdog once, in registration order, with the reading of its input
    /// (the first entry of `readings` for it), and queues a fresh alert for each one that
    /// fires while none of its alerts is queued. Returns the ids of the raised alerts
    /// whose watchdog is not listed in `purged`, i.e. new occurrences rather than
    /// refreshes of an alert dropped in the same cycle.
    pub fn poll_watchdogs(&mut self, readings: &Vec<(HWInput, AlarmLevel)>, purged: &Vec<u32>) -> (logged: Vec<u32>)
        requires
            old(self).wf(),
        ensures
            final(self).wf(),
            final(self)@.wf(),
            old(self)@.polled_to(final(self)@, readings@, purged@, logged@),
    {
        let n = self.watchdogs.len();
        let ghost before = self@;
        let ghost mut fired: Seq<bool> = Seq::empty();
        let ghost mut nows: Seq<Instant> = Seq::empty();
        let mut logged: Vec<u32> = Vec::new();
        let mut i: usize = 0;
        proof {
            assert(before.watchdogs.len() <= u32::MAX + 1) by {
                if before.watchdogs.len() > u32::MAX + 1 {
                    assert(before.watchdogs[u32::MAX + 1].0 == u32::MAX + 1);
                }
            }
            assert(alerts_view(self.alerts@).subrange(0, before.alerts.len() as int) =~= before.alerts);
        }
        while i < n
            invariant
                before == old(self)@,
                before.wf(),
                n == before.watchdogs.len(),
                n <= u32::MAX + 1,
                self.watchdog_id_counter == old(self).watchdog_id_counter,
                self.watchdog_id_counter as int == n,
                self.enabled == old(self).enabled,
                self.watchdogs.len() == n,
                i <= n,
                fired.len() == i,
                nows.len() == i,
                forall|k: int| 0 <= k < i ==> {
                    let w = before.watchdogs[k].1;
                    &&& (#[trigger] self@.watchdogs[k]).0 == before.watchdogs[k].0
                    &&& (self@.watchdogs[k].1, fired[k]) == w.step(
                        watchdog_condition(w, readings@),
                        nows[k],
                        w.timer_at(nows[k]),
                    )
                },
                forall|k: int| i <= k < n ==> #[trigger] self@.watchdogs[k] == before.watchdogs[k],
                self@.alerts.len() == before.alerts.len() + raised_ids(before.alerts, fired, i as nat).len(),
                self@.alerts.subrange(0, before.alerts.len() as int) == before.alerts,
                forall|j: int| 0 <= j < raised_ids(before.alerts, fired, i as nat).len() ==> {
                    &&& (#[trigger] self@.alerts[before.alerts.len() + j]).0 == raised_ids(before.alerts, fired, i as nat)[j]
                    &&& fresh_alert_for(
                        self@.alerts[before.alerts.len() + j].1,
                        before.watchdogs[raised_ids(before.alerts, fired, i as nat)[j] as int].1,
                    )
                },
                logged@ == new_occurrences(raised_ids(before.alerts, fired, i as nat), purged@),
            decreases n - i,
        {
            proof {
                lemma_raised_ids(before.alerts, fired, i as nat);
            }
            let ghost raised_before = raised_ids(before.alerts, fired, i as nat);
            let ghost alerts_before = self@.alerts;
            let ghost w = before.watchdogs[i as int].1;
            assert(self@.watchdogs[i as int] == before.watchdogs[i as int]);
            assert(self.watchdogs@[i as int].1@ == w);
            let input = self.watchdogs[i].1.hw_input();
            let reading = lookup_reading(readings, input);
            let ghost wd_before = self.watchdogs@;
            let ghost wdv_before = self@.watchdogs;
            assert(input == w.hw_input);
            assert(condition_met(w.severity, reading) == watchdog_condition(w, readings@));
            let f = self.watchdogs[i].1.check(reading);
            proof {
                let w_after = self.watchdogs@[i as int].1@;
                let now = choose|now: Instant|
                    (w_after, f) == w.step(condition_met(w.severity, reading), now, #[trigger] w.timer_at(now));
                let fired_old = fired;
                fired = fired.push(f);
                nows = nows.push(now);
                assert(self.watchdogs@[i as int].0 == wd_before[i as int].0);
                assert forall|k: int| 0 <= k < n && k != i implies #[trigger] self@.watchdogs[k] == wdv_before[k] by {
                    assert(self.watchdogs@[k] == wd_before[k]);
                }
                assert(self@.watchdogs[i as int] == (before.watchdogs[i as int].0, w_after));
                assert forall|k: int| 0 <= k <= i implies {
                    let wk = before.watchdogs[k].1;
                    &&& (#[trigger] self@.watchdogs[k]).0 == before.watchdogs[k].0
                    &&& (self@.watchdogs[k].1, fired[k]) == wk.step(
                        watchdog_condition(wk, readings@),
                        nows[k],
                        wk.timer_at(nows[k]),
                    )
                } by {
                    if k < i {
                        assert(self@.watchdogs[k] == wdv_before[k]);
                    }
                }
                lemma_raised_ids_prefix(before.alerts, fired, fired_old, i as nat);
            }
            let id = self.watchdogs[i].0;
            assert(id as int == i);
            if f {
                let queued = self.has_alert_for(id);
                proof {
                    assert(queued == has_alert(before.alerts, id)) by {
                        if has_alert(before.alerts, id) {
                            let k = choose|k: int| 0 <= k < before.alerts.len() && (#[trigger] before.alerts[k]).0 == id;
                            assert(alerts_before.subrange(0, before.alerts.len() as int)[k] == alerts_before[k]);
                        }
                        if queued {
                            let k = choose|k: int| 0 <= k < alerts_before.len() && (#[trigger] alerts_before[k]).0 == id;
                            if k >= before.alerts.len() {
                                let j = k - before.alerts.len();
                                assert(alerts_before[before.alerts.len() + j].0 == raised_before[j]);
                            } else {
                                assert(alerts_before.subrange(0, before.alerts.len() as int)[k] == alerts_before[k]);
                            }
                        }
                    }
                }
                if !queued {
                    let wd = &self.watchdogs[i].1;
                    let alert = Alert::new(
                        wd.message().clone(),
                        wd.severity(),
                        wd.alert_display_timeout(),
                        wd.alert_remove_timeout(),
                    );
                    let ghost av = alert@;
                    self.alerts.push((id, alert));
                    if !vec_contains(purged, id) {
                        logged.push(id);
                    }
                    proof {
                        lemma_step_keeps_configuration(
                            w,
                            watchdog_condition(w, readings@),
                            nows[i as int],
                            w.timer_at(nows[i as int]),
                        );
                        assert(fresh_alert_for(av, w));
                        assert(raised_ids(before.alerts, fired, (i + 1) as nat) == raised_before.push(id));
                        assert(self@.alerts =~= alerts_before.push((id, av)));
                        assert(raised_before.push(id).drop_last() =~= raised_before);
                    }
                } else {
                    assert(raised_ids(before.alerts, fired, (i + 1) as nat) == raised_before);
                }
            } else {
                assert(raised_ids(before.alerts, fired, (i + 1) as nat) == raised_before);
            }
            proof {
                assert(self@.alerts.subrange(0, before.alerts.len() as int) =~= before.alerts) by {
                    assert forall|k: int| 0 <= k < before.alerts.len() implies self@.alerts[k] == before.alerts[k] by {
                        assert(self@.alerts[k] == alerts_before[k]);
                        assert(alerts_before.subrange(0, before.alerts.len() as int)[k] == alerts_before[k]);
                    }
                }
            }
            i = i + 1;
        }
        proof {
            let v = self@;
            lemma_raised_ids(before.alerts, fired, n as nat);
            let raised = raised_ids(before.alerts, fired, n as nat);
            assert(poll_outcome(before, v, readings@, fired, nows, purged@, logged@));
            assert forall|i: int| 0 <= i < v.watchdogs.len() implies (#[trigger] v.watchdogs[i]).0 == i by {
                assert(v.watchdogs[i].0 == before.watchdogs[i].0);
            }
            let b = before.alerts.len();
            assert forall|k: int| 0 <= k < v.alerts.len() implies ((#[trigger] v.alerts[k]).0 as int) < v.watchdogs.len() by {
                if k < b {
                    assert(v.alerts.subrange(0, b as int)[k] == v.alerts[k]);
                } else {
                    assert(v.alerts[b + (k - b)].0 == raised[k - b]);
                }
            }
            assert forall|k: int, l: int| 0 <= k < l < v.alerts.len() implies (#[trigger] v.alerts[k]).0 != (#[trigger] v.alerts[l]).0 by {
                if l < b {
                    assert(v.alerts.subrange(0, b as int)[k] == v.alerts[k]);
                    assert(v.alerts.subrange(0, b as int)[l] == v.alerts[l]);
                } else if k < b {
                    assert(v.alerts.subrange(0, b as int)[k] == v.alerts[k]);
                    assert(v.alerts[b + (l - b)].0 == raised[l - b]);
                    assert(!has_alert(before.alerts, raised[l - b]));
                    assert(before.alerts[k].0 == v.alerts[k].0);
                } else {
                    assert(v.alerts[b + (k - b)].0 == raised[k - b]);
                    assert(v.alerts[b + (l - b)].0 == raised[l - b]);
                }
            }
        }
        logged
    }

    /// One cycle: drops the expired alerts, then polls every watchdog (see
    /// `purge_expired` and `poll_watchdogs`). Returns the ids of the alerts raised as new
    /// occurrences (not as a refresh of an alert dropped in this same cycle). Does nothing
    /// while the manager is disabled.
    pub fn check_watchdogs(&mut self, readings: &Vec<(HWInput, AlarmLevel)>) -> (logged: Vec<u32>)
        requires
            old(self).wf(),
        ensures
            final(self).wf(),
            final(self)@.wf(),
            !old(self)@.enabled ==> final(self)@ == old(self)@ && logged@.len() == 0,
            old(self)@.enabled ==> exists|mid: AlertManagerView, purged: Seq<u32>|
                #[trigger] old(self)@.purged_to(mid, purged) && mid.polled_to(final(self)@, readings@, purged, logged@),
    {
        if !self.enabled {
            return Vec::new();
        }
        let purged = self.purge_expired();
        let ghost mid = self@;
        let logged = self.poll_watchdogs(readings, &purged);
        assert(old(self)@.purged_to(mid, purged@));
        logged
    }

    /// Whether at least one queued alert is shown now (each checked against its own
    /// reading of the monotonic clock).
    pub fn has_active_alerts(&self) -> (r: bool)
        ensures
            exists|nows: Seq<Instant>| nows.len() == self@.alerts.len() && r == #[trigger] any_active(self@.alerts, nows),
    {
        let ghost mut nows: Seq<Instant> = Seq::empty();
        let mut k: usize = 0;
        while k < self.alerts.len()
            invariant
                k <= self.alerts.len(),
                nows.len() == k,
                forall|j: int|
                    0 <= j < k ==> !(#[trigger] self@.alerts[j].1.active_at(alert_age(self@.alerts[j], nows[j]))),
            decreases self.alerts.len() - k,
        {
            let active = self.alerts[k].1.is_active();
            let ghost a = self@.alerts[k as int].1;
            assert(a == self.alerts@[k as int].1@);
            let ghost now = choose|now: Instant| active == a.active_at(#[trigger] since(now, a.created));
            if active {
                let ghost full = nows.push(now) + Seq::new((self@.alerts.len() - k - 1) as nat, |i: int| now);
                assert(full[k as int] == now);
                assert(self@.alerts[k as int].1.active_at(alert_age(self@.alerts[k as int], full[k as int])));
                assert(any_active(self@.alerts, full));
                return true;
            }
            proof {
                nows = nows.push(now);
            }
            k = k + 1;
        }
        assert(!any_active(self@.alerts, nows));
        false
    }

    /// Positions in the queue of the alerts shown now, in drawing order: critical alerts
    /// first, then warnings, each group in queue order.
    pub fn display_order(&self) -> (order: Vec<usize>)
        ensures
            exists|shown: Seq<bool>, nows: Seq<Instant>| #[trigger] display_split(self@.alerts, shown, nows, order@),
    {
        let ghost mut shown: Seq<bool> = Seq::empty();
        let ghost mut nows: Seq<Instant> = Seq::empty();
        let mut critical: Vec<usize> = Vec::new();
        let mut warning: Vec<usize> = Vec::new();
        let mut k: usize = 0;
        while k < self.alerts.len()
            invariant
                k <= self.alerts.len(),
                shown.len() == k,
                nows.len() == k,
                forall|j: int|
                    0 <= j < k ==> #[trigger] self@.alerts[j].1.active_at(alert_age(self@.alerts[j], nows[j])) == shown[j],
                critical@ == positions_with(self@.alerts, shown, Severity::Critical, k as nat),
                warning@ == positions_with(self@.alerts, shown, Severity::Warning, k as nat),
            decreases self.alerts.len() - k,
        {
            let active = self.alerts[k].1.is_active();
            let ghost a = self@.alerts[k as int].1;
            assert(a == self.alerts@[k as int].1@);
            let ghost now = choose|now: Instant| active == a.active_at(#[trigger] since(now, a.created));
            let ghost shown_old = shown;
            proof {
                shown = shown.push(active);
                nows = nows.push(now);
                lemma_positions_with_prefix(self@.alerts, shown, shown_old, Severity::Critical, k as nat);
                lemma_positions_with_prefix(self@.alerts, shown, shown_old, Severity::Warning, k as nat);
            }
            if active {
                match self.alerts[k].1.severity() {
                    Severity::Critical => critical.push(k),
                    Severity::Warning => warning.push(k),
                }
            }
            k = k + 1;
        }
        let mut order = critical;
        let mut w: usize = 0;
        let ghost crit = order@;
        while w < warning.len()
            invariant
                w <= warning.len(),
                order@ == crit + warning@.take(w as int),
            decreases warning.len() - w,
        {
            order.push(warning[w]);
            assert(warning@.take(w + 1) =~= warning@.take(w as int).push(warning@[w as int]));
            w = w + 1;
        }
        assert(warning@.take(warning.len() as int) =~= warning@);
        assert(display_split(self@.alerts, shown, nows, order@));
        order
    }
}

/// `raised_ids` lists watchdog `i` exactly when it fired while none of its alerts was
/// queued.
proof fn lemma_raised_ids_member(q: Seq<(u32, AlertView)>, fired: Seq<bool>, n: nat, i: int)
    requires
        n <= u32::MAX + 1,
        0 <= i < n,
    ensures
        raised_ids(q, fired, n).contains(i as u32) <==> (fired[i] && !has_alert(q, i as u32)),
    decreases n,
{
    lemma_raised_ids(q, fired, n);
    let cur = raised_ids(q, fired, n);
    let last = (n - 1) as u32;
    assert(last as int == n - 1);
    if i == n - 1 {
        lemma_raised_ids(q, fired, (n - 1) as nat);
        let prev = raised_ids(q, fired, (n - 1) as nat);
        if prev.contains(last) {
            let j = choose|j: int| 0 <= j < prev.len() && prev[j] == last;
            assert((prev[j] as int) < n - 1);
        }
        if fired[i] && !has_alert(q, i as u32) {
            assert(cur[cur.len() - 1] == i as u32);
        }
    } else {
        lemma_raised_ids_member(q, fired, (n - 1) as nat, i);
        let prev = raised_ids(q, fired, (n - 1) as nat);
        if fired[n - 1] && !has_alert(q, last) {
            assert(cur == prev.push(last));
            if cur.contains(i as u32) {
                let j = choose|j: int| 0 <= j < cur.len() && cur[j] == i as u32;
                if j < prev.len() {
                    assert(prev[j] == i as u32);
                }
            }
            if prev.contains(i as u32) {
                let j = choose|j: int| 0 <= j < prev.len() && prev[j] == i as u32;
                assert(cur[j] == i as u32);
            }
        }
    }
}

/// A queue never holds two alerts raised by the same watchdog.
pub proof fn lemma_one_alert_per_watchdog(v: AlertManagerView, k: int, l: int)
    requires
        v.wf(),
        0 <= k < v.alerts.len(),
        0 <= l < v.alerts.len(),
        k != l,
    ensures
        v.alerts[k].0 != v.alerts[l].0,
{
    if k < l {
        assert(v.alerts[k].0 != v.alerts[l].0);
    } else {
        assert(v.alerts[l].0 != v.alerts[k].0);
    }
}

/// After a polling pass, watchdog `i` has an alert queued exactly when it had one before,
/// or it fired in this pass; a watchdog that already had one does not raise a second.
pub proof fn lemma_poll_alert_presence(
    before: AlertManagerView,
    after: AlertManagerView,
    readings: Seq<(HWInput, AlarmLevel)>,
    purged: Seq<u32>,
    logged: Seq<u32>,
    i: int,
)
    requires
        before.wf(),
        before.polled_to(after, readings, purged, logged),
        0 <= i < before.watchdogs.len(),
    ensures
        exists|now: Instant|
            has_alert(after.alerts, i as u32) == (has_alert(before.alerts, i as u32)
                || before.watchdogs[i].1.step(
                    watchdog_condition(before.watchdogs[i].1, readings),
                    now,
                    #[trigger] before.watchdogs[i].1.timer_at(now),
                ).1),
{
    let (fired, nows) = choose|fired: Seq<bool>, nows: Seq<Instant>|
        #[trigger] poll_outcome(before, after, readings, fired, nows, purged, logged);
    let n = before.watchdogs.len();
    assert(n <= u32::MAX + 1) by {
        if n > u32::MAX + 1 {
            assert(before.watchdogs[u32::MAX + 1].0 == u32::MAX + 1);
        }
    }
    let w = before.watchdogs[i].1;
    let raised = raised_ids(before.alerts, fired, n);
    lemma_raised_ids(before.alerts, fired, n);
    lemma_raised_ids_member(before.alerts, fired, n, i);
    let b = before.alerts.len();
    let id = i as u32;
    assert(after.watchdogs[i].0 == before.watchdogs[i].0);
    assert(w.step(watchdog_condition(w, readings), nows[i], w.timer_at(nows[i])).1 == fired[i]);
    if has_alert(before.alerts, id) {
        let k = choose|k: int| 0 <= k < b && (#[trigger] before.alerts[k]).0 == id;
        assert(after.alerts.subrange(0, b as int)[k] == after.alerts[k]);
        assert(has_alert(after.alerts, id));
    } else if fired[i] {
        let j = choose|j: int| 0 <= j < raised.len() && raised[j] == id;
        assert(after.alerts[b + j].0 == raised[j]);
        assert(has_alert(after.alerts, id));
    } else {
        if has_alert(after.alerts, id) {
            let k = choose|k: int| 0 <= k < after.alerts.len() && (#[trigger] after.alerts[k]).0 == id;
            if k < b {
                assert(after.alerts.subrange(0, b as int)[k] == after.alerts[k]);
                assert(before.alerts[k].0 == id);
            } else {
                assert(after.alerts[b + (k - b)].0 == raised[k - b]);
                assert(raised.contains(id));
            }
        }
    }
}

/// A watchdog without a trigger duration, or with a zero one, whose condition holds has
/// an alert queued after the pass (an existing one, or one raised now).
pub proof fn lemma_poll_immediate_trigger_queues_alert(
    before: AlertManagerView,
    after: AlertManagerView,
    readings: Seq<(HWInput, AlarmLevel)>,
    purged: Seq<u32>,
    logged: Seq<u32>,
    i: int,
)
    requires
        before.wf(),
        before.polled_to(after, readings, purged, logged),
        0 <= i < before.watchdogs.len(),
        before.watchdogs[i].1.trigger_duration is None || before.watchdogs[i].1.trigger_duration == Some(0nat),
        watchdog_condition(before.watchdogs[i].1, readings),
    ensures
        has_alert(after.alerts, i as u32),
{
    lemma_poll_alert_presence(before, after, readings, purged, logged, i);
}

/// A watchdog whose condition does not hold raises nothing, and its timer is reset.
pub proof fn lemma_poll_unmet_condition_raises_nothing(
    before: AlertManagerView,
    after: AlertManagerView,
    readings: Seq<(HWInput, AlarmLevel)>,
    purged: Seq<u32>,
    logged: Seq<u32>,
    i: int,
)
    requires
        before.wf(),
        before.polled_to(after, readings, purged, logged),
        0 <= i < before.watchdogs.len(),
        !watchdog_condition(before.watchdogs[i].1, readings),
    ensures
        has_alert(after.alerts, i as u32) == has_alert(before.alerts, i as u32),
        after.watchdogs[i].1.trigger_start is None,
{
    lemma_poll_alert_presence(before, after, readings, purged, logged, i);
    let (fired, nows) = choose|fired: Seq<bool>, nows: Seq<Instant>|
        #[trigger] poll_outcome(before, after, readings, fired, nows, purged, logged);
    assert(after.watchdogs[i].0 == before.watchdogs[i].0);
}

/// A watchdog whose input does not read at the watchdog's own level (a normal reading,
/// the other level, or no reading at all) raises no alert in a polling pass.
pub proof fn lemma_poll_other_level_raises_nothing(
    before: AlertManagerView,
    after: AlertManagerView,
    readings: Seq<(HWInput, AlarmLevel)>,
    purged: Seq<u32>,
    logged: Seq<u32>,
    i: int,
)
    requires
        before.wf(),
        before.polled_to(after, readings, purged, logged),
        0 <= i < before.watchdogs.len(),
        reading_for(readings, before.watchdogs[i].1.hw_input) != Some(
            match before.watchdogs[i].1.severity {
                Severity::Warning => AlarmLevel::Warning,
                Severity::Critical => AlarmLevel::Critical,
            },
        ),
    ensures
        has_alert(after.alerts, i as u32) == has_alert(before.alerts, i as u32),
{
    crate::alerts::watchdog::lemma_condition_is_own_level(
        before.watchdogs[i].1.severity,
        reading_for(readings, before.watchdogs[i].1.hw_input),
    );
    lemma_poll_unmet_condition_raises_nothing(before, after, readings, purged, logged, i);
}

/// A raised alert is logged exactly when its watchdog's previous alert was not dropped
/// in the same cycle: refreshes stay quiet, new occurrences are logged.
pub proof fn lemma_logged_iff_new_occurrence(raised: Seq<u32>, purged: Seq<u32>, id: u32)
    ensures
        new_occurrences(raised, purged).contains(id) <==> (raised.contains(id) && !purged.contains(id)),
    decreases raised.len(),
{
    if raised.len() > 0 {
        let prev_raised = raised.drop_last();
        lemma_logged_iff_new_occurrence(prev_raised, purged, id);
        let prev = new_occurrences(prev_raised, purged);
        let cur = new_occurrences(raised, purged);
        if raised.contains(id) && !prev_raised.contains(id) {
            assert(raised.last() == id) by {
                let j = choose|j: int| 0 <= j < raised.len() && raised[j] == id;
                if j < raised.len() - 1 {
                    assert(prev_raised[j] == id);
                }
            }
        }
        if prev_raised.contains(id) {
            let j = choose|j: int| 0 <= j < prev_raised.len() && prev_raised[j] == id;
            assert(raised[j] == id);
        }
        if !purged.contains(raised.last()) {
            assert(cur == prev.push(raised.last()));
            assert(cur[cur.len() - 1] == raised.last());
            if prev.contains(id) {
                let j = choose|j: int| 0 <= j < prev.len() && prev[j] == id;
                assert(cur[j] == id);
            }
            if cur.contains(id) && !prev.contains(id) {
                let j = choose|j: int| 0 <= j < cur.len() && cur[j] == id;
                assert(j == cur.len() - 1);
            }
        }
        if raised.contains(id) && id == raised.last() {
            assert(raised[raised.len() - 1] == id);
        }
    }
}

/// Purging keeps every alert that can never expire (one with no display timeout is
/// always shown), and drops only alerts that were found expired.
pub proof fn lemma_purge_keeps_unexpirable(before: AlertManagerView, after: AlertManagerView, purged: Seq<u32>, k: int)
    requires
        before.purged_to(after, purged),
        0 <= k < before.alerts.len(),
        forall|e: nat| !(#[trigger] before.alerts[k].1.expired_at(e)),
    ensures
        after.alerts.contains(before.alerts[k]),
{
    let (keep, nows) = choose|keep: Seq<bool>, nows: Seq<Instant>| #[trigger] purge_split(before.alerts, keep, nows, after.alerts, purged);
    assert(!before.alerts[k].1.expired_at(alert_age(before.alerts[k], nows[k])));
    assert(keep[k]);
    lemma_kept_part_contains(before.alerts, keep, k);
}

proof fn lemma_kept_part_contains(s: Seq<(u32, AlertView)>, keep: Seq<bool>, k: int)
    requires
        keep.len() == s.len(),
        0 <= k < s.len(),
        keep[k],
    ensures
        kept_part(s, keep).contains(s[k]),
    decreases s.len(),
{
    let prev = kept_part(s.drop_last(), keep.drop_last());
    if k == s.len() - 1 {
        assert(kept_part(s, keep) == prev.push(s.last()));
        assert(kept_part(s, keep)[prev.len() as int] == s[k]);
    } else {
        lemma_kept_part_contains(s.drop_last(), keep.drop_last(), k);
        let j = choose|j: int| 0 <= j < prev.len() && prev[j] == s[k];
        if keep.last() {
            assert(kept_part(s, keep)[j] == prev[j]);
        }
    }
}

} // verus!
