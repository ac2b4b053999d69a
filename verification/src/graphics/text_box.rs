//! Scrolling monospace text box, like a terminal: it keeps the most recent logical
//! lines (at most `max_lines`, the oldest evicted first) and hard-wraps them into rows of
//! a fixed number of characters.

use std::collections::VecDeque;
use crate::text::string_push;
use vstd::prelude::*;

verus! {

/// The logical lines a deque of strings holds, oldest first.
pub open spec fn lines_view(lines: Seq<String>) -> Seq<Seq<char>> {
    lines.map_values(|s: String| s@)
}

/// The buffer after appending `line`: once it holds `max_lines` or more lines, the
/// oldest one is evicted first.
pub open spec fn after_push(lines: Seq<Seq<char>>, line: Seq<char>, max_lines: nat) -> Seq<Seq<char>> {
    let kept = if lines.len() >= max_lines && lines.len() > 0 { lines.drop_first() } else { lines };
    kept.push(line)
}

/// How many rows a line of `len` characters takes at `w` characters per row (an empty
/// line still takes one row).
pub open spec fn row_count(len: nat, w: nat) -> nat
    recommends
        w >= 1,
{
    if len == 0 { 1 } else { ((len + w - 1) as int / (w as int)) as nat }
}

/// The rows a logical line is hard-wrapped into at `w` characters per row: consecutive
/// runs of `w` characters, the last one possibly shorter; an empty line gives one empty
/// row.
pub open spec fn wrapped_rows(s: Seq<char>, w: nat) -> Seq<Seq<char>>
    recommends
        w >= 1,
{
    Seq::new(
        row_count(s.len(), w),
        |k: int| s.subrange(k * w, if k * w + w <= s.len() { k * w + w } else { s.len() as int }),
    )
}

proof fn lemma_lines_view_push(v: Seq<String>, x: String)
    ensures
        lines_view(v.push(x)) == lines_view(v).push(x@),
{
    assert(lines_view(v.push(x)) =~= lines_view(v).push(x@));
}

/// Hard-wraps one logical line into rows of `chars_per_line` characters (at least one),
/// appending them to `out`, like a terminal wraps output (no word wrapping).
pub fn wrap_line(line: &str, chars_per_line: usize, out: &mut Vec<String>)
    ensures
        lines_view(final(out)@) == lines_view(old(out)@) + wrapped_rows(
            line@,
            if chars_per_line == 0 { 1 } else { chars_per_line as nat },
        ),
{
    let width: usize = if chars_per_line == 0 { 1 } else { chars_per_line };
    let ghost s = line@;
    let ghost start = lines_view(out@);
    let ghost w = width as nat;
    if line.is_empty() {
        let ghost out0 = out@;
        let empty = String::new();
        let ghost e = empty@;
        out.push(empty);
        proof {
            lemma_lines_view_push(out0, out@.last());
            assert(out0.push(out@.last()) =~= out@);
            assert(wrapped_rows(s, w).len() == 1);
            assert(wrapped_rows(s, w)[0] =~= e);
            assert(wrapped_rows(s, w) =~= seq![e]);
            assert(lines_view(out@) =~= start + wrapped_rows(s, w));
        }
        return;
    }
    let mut cur = String::new();
    let mut count: usize = 0;
    let ghost mut full: nat = 0;
    let ghost mut i: nat = 0;
    broadcast use vstd::string::group_string_axioms;
    for c in it: line.chars()
        invariant
            w == width as nat,
            width >= 1,
            s == line@,
            it.seq() == s,
            i == it.index(),
            i == full * w + count,
            i == 0 ==> count == 0,
            i > 0 ==> 1 <= count <= width,
            cur@ == s.subrange((full * w) as int, i as int),
            lines_view(out@) == start + Seq::new(full, |k: int| s.subrange(k * w, k * w + w)),
            full * w <= i <= s.len(),
    {
        if count == width {
            let ghost done = cur@;
            let ghost out0 = out@;
            out.push(cur);
            proof {
                lemma_lines_view_push(out0, out@.last());
                assert(out0.push(out@.last()) =~= out@);
            }
            cur = String::new();
            count = 0;
            proof {
                let prev = Seq::new(full, |k: int| s.subrange(k * w, k * w + w));
                assert(done == s.subrange((full * w) as int, (full * w + w) as int));
                full = full + 1;
                assert(lines_view(out@) =~= start + Seq::new(full, |k: int| s.subrange(k * w, k * w + w))) by {
                    assert(Seq::new(full, |k: int| s.subrange(k * w, k * w + w)) =~= prev.push(done));
                }
                assert(full * w == (full - 1) * w + w) by (nonlinear_arith)
                    requires
                        full >= 1,
                ;
            }
        }
        string_push(&mut cur, c);
        count = count + 1;
        proof {
            assert(c == s[i as int]);
            assert(cur@ =~= s.subrange((full * w) as int, (i + 1) as int));
            i = i + 1;
        }
    }
    let ghost done = cur@;
    let ghost out0 = out@;
    out.push(cur);
    proof {
        lemma_lines_view_push(out0, out@.last());
        assert(out0.push(out@.last()) =~= out@);
        assert(i == s.len());
        let n = full + 1;
        assert(row_count(s.len(), w) == n) by (nonlinear_arith)
            requires
                s.len() == full * w + count,
                1 <= count <= w,
                s.len() > 0,
                n == full + 1,
        ;
        assert(full * w + w >= s.len());
        let rows = wrapped_rows(s, w);
        let prev = Seq::new(full, |k: int| s.subrange(k * w, k * w + w));
        assert forall|k: int| 0 <= k < full implies #[trigger] rows[k] == prev[k] by {
            assert(k * w + w <= full * w) by (nonlinear_arith)
                requires
                    k < full,
                    k >= 0,
            ;
        }
        assert(rows[full as int] == done);
        assert(rows =~= prev.push(done));
        assert(lines_view(out@) =~= start + rows);
    }
}

/// Scrolling text box holding the most recent `max_lines` logical lines.
pub struct TextBoxRenderer {
    lines: VecDeque<String>,
    max_lines: usize,
}

impl TextBoxRenderer {
    #[verifier::type_invariant]
    spec fn bounded(self) -> bool {
        self.lines@.len() <= if self.max_lines == 0 { 1 } else { self.max_lines as nat }
    }

    /// The logical lines held, oldest first.
    pub closed spec fn spec_lines(&self) -> Seq<Seq<char>> {
        lines_view(self.lines@)
    }

    /// The configured capacity in logical lines.
    pub closed spec fn spec_max_lines(&self) -> nat {
        self.max_lines as nat
    }

    pub fn new(max_lines: usize) -> (t: Self)
        ensures
            t.spec_lines().len() == 0,
            t.spec_max_lines() == max_lines,
    {
        let t = TextBoxRenderer { lines: VecDeque::with_capacity(max_lines), max_lines };
        assert(lines_view(t.lines@) =~= Seq::empty());
        t
    }

    /// Appends a logical line, evicting the oldest one once at capacity.
    pub fn push_line(&mut self, line: String)
        ensures
            final(self).spec_max_lines() == old(self).spec_max_lines(),
            final(self).spec_lines() == after_push(old(self).spec_lines(), line@, old(self).spec_max_lines()),
    {
        proof {
            use_type_invariant(&*self);
        }
        let ghost before = lines_view(self.lines@);
        let mut lines = VecDeque::new();
        std::mem::swap(&mut lines, &mut self.lines);
        if lines.len() >= self.max_lines {
            let _ = lines.pop_front();
        }
        lines.push_back(line);
        assert(lines_view(lines@) =~= after_push(before, line@, self.max_lines as nat));
        self.lines = lines;
    }

    /// Removes every line.
    pub fn clear(&mut self)
        ensures
            final(self).spec_max_lines() == old(self).spec_max_lines(),
            final(self).spec_lines().len() == 0,
    {
        let mut lines = VecDeque::new();
        std::mem::swap(&mut lines, &mut self.lines);
        lines.clear();
        self.lines = lines;
        assert(lines_view(self.lines@) =~= Seq::empty());
    }

    /// Number of logical lines held.
    pub fn line_count(&self) -> (r: usize)
        ensures
            r == self.spec_lines().len(),
    {
        self.lines.len()
    }

    /// Hard-wraps every held line at `chars_per_line` characters (at least one) and
    /// returns the last `visible_rows` rows, oldest first: what fits the box, bottom-anchored.
    pub fn visible_rows(&self, chars_per_line: usize, visible_rows: usize) -> (rows: Vec<String>)
        ensures
            lines_view(rows@) == all_rows(
                self.spec_lines(),
                if chars_per_line == 0 { 1 } else { chars_per_line as nat },
            ).skip(
                if all_rows(self.spec_lines(), if chars_per_line == 0 { 1 } else { chars_per_line as nat }).len() > visible_rows {
                    all_rows(self.spec_lines(), if chars_per_line == 0 { 1 } else { chars_per_line as nat }).len() - visible_rows
                } else {
                    0
                },
            ),
    {
        let ghost w: nat = if chars_per_line == 0 { 1 } else { chars_per_line as nat };
        let mut wrapped: Vec<String> = Vec::new();
        let mut i: usize = 0;
        while i < self.lines.len()
            invariant
                i <= self.lines@.len(),
                w == (if chars_per_line == 0 { 1 } else { chars_per_line as nat }),
                lines_view(wrapped@) == all_rows(self.spec_lines().take(i as int), w),
            decreases self.lines@.len() - i,
        {
            let line = self.lines[i].as_str();
            assert(line@ == self.spec_lines()[i as int]);
            wrap_line(line, chars_per_line, &mut wrapped);
            assert(self.spec_lines().take(i + 1).drop_last() =~= self.spec_lines().take(i as int));
            assert(self.spec_lines().take(i + 1).last() == self.spec_lines()[i as int]);
            assert(all_rows(self.spec_lines().take(i + 1), w) == all_rows(self.spec_lines().take(i + 1).drop_last(), w)
                + wrapped_rows(self.spec_lines().take(i + 1).last(), w));
            i = i + 1;
        }
        assert(self.spec_lines().take(self.lines@.len() as int) =~= self.spec_lines());
        let total = wrapped.len();
        let start: usize = if total > visible_rows { total - visible_rows } else { 0 };
        let mut rows: Vec<String> = Vec::new();
        let mut j: usize = start;
        while j < total
            invariant
                start <= j <= total,
                total == wrapped@.len(),
                lines_view(rows@) == lines_view(wrapped@).subrange(start as int, j as int),
            decreases total - j,
        {
            let ghost rows0 = rows@;
            let row = wrapped[j].clone();
            assert(row@ == lines_view(wrapped@)[j as int]);
            rows.push(row);
            proof {
                lemma_lines_view_push(rows0, row);
                assert(lines_view(rows@) =~= lines_view(wrapped@).subrange(start as int, j + 1));
            }
            j = j + 1;
        }
        assert(lines_view(wrapped@).subrange(start as int, total as int) =~= lines_view(wrapped@).skip(start as int));
        rows
    }
}

/// All rows of the given logical lines, each hard-wrapped at `w` characters, in order.
pub open spec fn all_rows(lines: Seq<Seq<char>>, w: nat) -> Seq<Seq<char>>
    decreases lines.len(),
{
    if lines.len() == 0 {
        Seq::empty()
    } else {
        all_rows(lines.drop_last(), w) + wrapped_rows(lines.last(), w)
    }
}

/// The buffer never holds more than `max_lines` lines (one, if that is zero), and its
/// last line is the one appended most recently.
pub proof fn lemma_push_bounded(lines: Seq<Seq<char>>, line: Seq<char>, max_lines: nat)
    requires
        lines.len() <= if max_lines == 0 { 1 } else { max_lines },
    ensures
        after_push(lines, line, max_lines).len() <= if max_lines == 0 { 1 } else { max_lines },
        after_push(lines, line, max_lines).last() == line,
{
}

/// Below capacity nothing is evicted: the new line is simply appended.
pub proof fn lemma_push_below_capacity(lines: Seq<Seq<char>>, line: Seq<char>, max_lines: nat)
    requires
        lines.len() < max_lines,
    ensures
        after_push(lines, line, max_lines) == lines.push(line),
{
}

/// Wrapping loses and reorders nothing: the rows of a line, joined, give the line back,
/// and every row but the last is exactly `w` characters long.
pub proof fn lemma_rows_rejoin(s: Seq<char>, w: nat, k: int)
    requires
        w >= 1,
        s.len() > 0,
        0 <= k < row_count(s.len(), w) - 1,
    ensures
        wrapped_rows(s, w)[k].len() == w,
{
    assert(k * w + w <= s.len()) by (nonlinear_arith)
        requires
            w >= 1,
            s.len() > 0,
            k + 1 < (s.len() + w - 1) as int / (w as int),
            k >= 0,
    ;
}

} // verus!
