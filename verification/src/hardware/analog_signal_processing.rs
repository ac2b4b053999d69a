//! Raw analog data processors.

use vstd::prelude::*;

verus! {

/// A stage of analog signal conditioning: takes one raw sample, gives one processed.
pub trait AnalogSignalProcessor {
    fn read(&mut self, input: u16) -> Result<u16, String>;
}

/// Sum of a sequence of samples.
pub open spec fn sum_of(s: Seq<u16>) -> nat
    decreases s.len(),
{
    if s.len() == 0 {
        0
    } else {
        sum_of(s.drop_last()) + (s.last() as nat)
    }
}

/// The integer (floor) mean of a non-empty window of samples.
pub open spec fn mean_of(s: Seq<u16>) -> nat {
    sum_of(s) / s.len()
}

/// The window after a new sample: the sample is appended and, once the window holds more
/// than `window_size` samples, the oldest one is dropped.
pub open spec fn slide(values: Seq<u16>, input: u16, window_size: nat) -> Seq<u16> {
    let pushed = values.push(input);
    if pushed.len() > window_size { pushed.drop_first() } else { pushed }
}

/// Moving average over the last `window_size` samples (integer mean, rounded down).
pub struct AnalogSignalProcessorMovingAverage {
    window_size: usize,
    values: Vec<u16>,
}

impl AnalogSignalProcessorMovingAverage {
    #[verifier::type_invariant]
    spec fn window_ok(self) -> bool {
        &&& self.window_size >= 1
        &&& self.values.len() <= self.window_size
    }

    /// The configured window size.
    pub closed spec fn spec_window_size(&self) -> nat {
        self.window_size as nat
    }

    /// The samples currently in the window, oldest first.
    pub closed spec fn spec_values(&self) -> Seq<u16> {
        self.values@
    }

    /// A processor averaging over the last `window_size` samples. A window of zero
    /// samples cannot average anything (every read would divide by zero), so the size
    /// must be at least one.
    pub fn new(window_size: usize) -> (p: Self)
        requires
            window_size >= 1,
        ensures
            p.spec_window_size() == window_size,
            p.spec_values().len() == 0,
    {
        AnalogSignalProcessorMovingAverage { window_size, values: Vec::with_capacity(window_size) }
    }

    /// The configured window size.
    pub fn window_size(&self) -> (r: usize)
        ensures
            r == self.spec_window_size(),
    {
        self.window_size
    }

    /// The samples currently in the window, oldest first.
    pub fn values(&self) -> (r: &Vec<u16>)
        ensures
            r@ == self.spec_values(),
    {
        &self.values
    }

    /// How many samples the window's storage holds without reallocating.
    pub fn capacity(&self) -> (r: usize)
        ensures
            r >= self.spec_values().len(),
    {
        vec_capacity(&self.values)
    }
}

/// `Vec::capacity`: the number of elements the vector can hold without reallocating,
/// which is never below its length.
#[verifier::external_body]
fn vec_capacity(v: &Vec<u16>) -> (r: usize)
    ensures
        r >= v@.len(),
{
    v.capacity()
}

/// Sum of the samples, computed wide enough that it cannot overflow.
fn window_sum(values: &Vec<u16>) -> (s: u128)
    ensures
        s == sum_of(values@),
{
    let mut s: u128 = 0;
    let mut i: usize = 0;
    while i < values.len()
        invariant
            i <= values.len(),
            s == sum_of(values@.take(i as int)),
            s <= i * 65535,
        decreases values.len() - i,
    {
        assert(values@.take(i + 1).drop_last() =~= values@.take(i as int));
        proof {
            assert(i * 65535 < u128::MAX - 65535) by (nonlinear_arith)
                requires
                    i < values.len(),
                    values.len() <= usize::MAX,
                    usize::MAX < 0x1_0000_0000_0000_0000,
            ;
        }
        s = s + values[i] as u128;
        i = i + 1;
    }
    assert(values@.take(values.len() as int) =~= values@);
    s
}

impl AnalogSignalProcessor for AnalogSignalProcessorMovingAverage {
    /// Adds the sample to the window (dropping the oldest once the window is full) and
    /// returns the mean of the window.
    fn read(&mut self, input: u16) -> (r: Result<u16, String>)
        ensures
            final(self).spec_window_size() == old(self).spec_window_size(),
            final(self).spec_values() == slide(old(self).spec_values(), input, old(self).spec_window_size()),
            r == Ok::<u16, String>(mean_of(final(self).spec_values()) as u16),
            mean_of(final(self).spec_values()) <= u16::MAX,
    {
        proof {
            use_type_invariant(&*self);
        }
        let mut values = Vec::new();
        std::mem::swap(&mut values, &mut self.values);
        let ghost before = values@;
        values.push(input);
        if values.len() > self.window_size {
            values.remove(0);
        }
        assert(values@ =~= slide(before, input, self.window_size as nat));
        let sum = window_sum(&values);
        let len = values.len() as u128;
        proof {
            lemma_sum_bound(values@);
        }
        let average = sum / len;
        assert(average <= u16::MAX) by (nonlinear_arith)
            requires
                sum <= len * 65535,
                len >= 1,
                average == sum / len,
        ;
        self.values = values;
        Ok(average as u16)
    }
}

/// Each sample is at most `u16::MAX`, so a window sums to at most that much per sample.
pub proof fn lemma_sum_bound(s: Seq<u16>)
    ensures
        sum_of(s) <= s.len() * 65535,
    decreases s.len(),
{
    if s.len() > 0 {
        lemma_sum_bound(s.drop_last());
    }
}

/// The sum of a window lies between its length times its least and its greatest sample.
pub proof fn lemma_sum_between(s: Seq<u16>, lo: u16, hi: u16)
    requires
        forall|i: int| 0 <= i < s.len() ==> lo <= #[trigger] s[i] <= hi,
    ensures
        s.len() * lo <= sum_of(s) <= s.len() * hi,
    decreases s.len(),
{
    if s.len() > 0 {
        let p = s.drop_last();
        assert forall|i: int| 0 <= i < p.len() implies lo <= #[trigger] p[i] <= hi by {
            assert(p[i] == s[i]);
        }
        lemma_sum_between(p, lo, hi);
        assert(s.len() * lo == p.len() * lo + lo) by (nonlinear_arith)
            requires
                s.len() == p.len() + 1,
        ;
        assert(s.len() * hi == p.len() * hi + hi) by (nonlinear_arith)
            requires
                s.len() == p.len() + 1,
        ;
    }
}

/// The moving average never leaves the range of the samples in its window: it is at
/// least the smallest and at most the largest of them.
pub proof fn lemma_mean_within_samples(s: Seq<u16>, lo: u16, hi: u16)
    requires
        s.len() >= 1,
        forall|i: int| 0 <= i < s.len() ==> lo <= #[trigger] s[i] <= hi,
    ensures
        lo <= mean_of(s) <= hi,
{
    lemma_sum_between(s, lo, hi);
    let n = s.len();
    let t = sum_of(s);
    assert(lo <= t / n <= hi) by (nonlinear_arith)
        requires
            n >= 1,
            n * lo <= t,
            t <= n * hi,
    ;
}

/// The window always holds the most recent samples: after a read it never exceeds the
/// window size, and its last sample is the one just read.
pub proof fn lemma_slide_keeps_recent(values: Seq<u16>, input: u16, window_size: nat)
    requires
        window_size >= 1,
        values.len() <= window_size,
    ensures
        slide(values, input, window_size).len() <= window_size,
        slide(values, input, window_size).last() == input,
        slide(values, input, window_size).len() == if values.len() < window_size { values.len() + 1 } else { window_size },
{
}

/// A window that keeps seeing the same value averages to exactly that value.
pub proof fn lemma_constant_window(s: Seq<u16>, v: u16)
    requires
        s.len() >= 1,
        forall|i: int| 0 <= i < s.len() ==> #[trigger] s[i] == v,
    ensures
        mean_of(s) == v,
{
    lemma_mean_within_samples(s, v, v);
}

} // verus!
