//! Digit layout of a seven-segment style numeric display: the pattern of all-lit
//! segments drawn as its background, and the dash pattern shown in place of a value when
//! the sensor has no reading.

use crate::text::string_push;
use vstd::prelude::*;

verus! {

/// `n` copies of character `c`.
pub open spec fn repeat_char(c: char, n: nat) -> Seq<char> {
    Seq::new(n, |_i: int| c)
}

/// The layout of `digits` total positions with `decimals` of them after the point,
/// filled with character `c`: `c` repeated `digits` times for an integer display, else
/// `digits - decimals - 1` copies, a point, and `decimals` copies (the point takes one
/// position).
pub open spec fn layout_pattern(c: char, digits: nat, decimals: nat) -> Seq<char> {
    if decimals == 0 {
        repeat_char(c, digits)
    } else {
        repeat_char(c, (digits - decimals - 1) as nat) + seq!['.'] + repeat_char(c, decimals)
    }
}

/// Layout of a segment display.
#[derive(Debug, Clone, Copy, PartialEq, Eq, Structural)]
pub struct SegmentLayout {
    /// Total number of positions, decimal point included.
    pub digits: usize,
    /// Number of positions after the decimal point (0 for an integer display).
    pub decimals: usize,
}

/// A layout is drawable when a fractional display leaves room for the decimal point.
pub open spec fn layout_fits(l: SegmentLayout) -> bool {
    l.decimals == 0 || l.digits >= l.decimals + 1
}

fn push_repeated(s: &mut String, c: char, n: usize)
    ensures
        final(s)@ == old(s)@ + repeat_char(c, n as nat),
{
    let mut i: usize = 0;
    while i < n
        invariant
            i <= n,
            s@ == old(s)@ + repeat_char(c, i as nat),
        decreases n - i,
    {
        string_push(s, c);
        i = i + 1;
        assert(s@ =~= old(s)@ + repeat_char(c, i as nat));
    }
}

impl SegmentLayout {
    pub fn new(digits: usize, decimals: usize) -> (l: Self)
        ensures
            l.digits == digits,
            l.decimals == decimals,
    {
        SegmentLayout { digits, decimals }
    }

    /// An integer display of `digits` positions.
    pub fn integer(digits: usize) -> (l: Self)
        ensures
            l.digits == digits,
            l.decimals == 0,
    {
        SegmentLayout::new(digits, 0)
    }

    /// A fractional display of `digits` positions, `decimals` after the point.
    pub fn float(digits: usize, decimals: usize) -> (l: Self)
        ensures
            l.digits == digits,
            l.decimals == decimals,
    {
        SegmentLayout::new(digits, decimals)
    }

    fn pattern(&self, c: char) -> (s: String)
        requires
            layout_fits(*self),
        ensures
            s@ == layout_pattern(c, self.digits as nat, self.decimals as nat),
    {
        let mut s = String::new();
        if self.decimals == 0 {
            push_repeated(&mut s, c, self.digits);
        } else {
            push_repeated(&mut s, c, self.digits - self.decimals - 1);
            string_push(&mut s, '.');
            push_repeated(&mut s, c, self.decimals);
        }
        assert(s@ =~= layout_pattern(c, self.digits as nat, self.decimals as nat));
        s
    }

    /// The all-segments-lit background pattern: every position an `8`.
    pub fn inactive_pattern(&self) -> (s: String)
        requires
            layout_fits(*self),
        ensures
            s@ == layout_pattern('8', self.digits as nat, self.decimals as nat),
    {
        self.pattern('8')
    }

    /// The pattern shown in place of a value when the sensor has no reading: every
    /// position a `-`, laid out like a real reading.
    pub fn fault_pattern(&self) -> (s: String)
        requires
            layout_fits(*self),
        ensures
            s@ == layout_pattern('-', self.digits as nat, self.decimals as nat),
    {
        self.pattern('-')
    }
}

impl Default for SegmentLayout {
    /// A four-digit integer display.
    fn default() -> (l: Self)
        ensures
            l.digits == 4,
            l.decimals == 0,
    {
        SegmentLayout::integer(4)
    }
}

/// The background and the fault patterns have the same shape: both are as long as the
/// display has positions, and the decimal point sits at the same place.
pub proof fn lemma_patterns_line_up(digits: nat, decimals: nat, i: int)
    requires
        decimals == 0 || digits >= decimals + 1,
        0 <= i < digits,
    ensures
        layout_pattern('8', digits, decimals).len() == digits,
        layout_pattern('-', digits, decimals).len() == digits,
        (layout_pattern('8', digits, decimals)[i] == '.') == (layout_pattern('-', digits, decimals)[i] == '.'),
{
}

} // verus!
