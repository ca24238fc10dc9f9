//! Breakpoint tables and linear interpolation over them.
//!
//! A table is an ascending sequence of segments. Each segment maps a closed
//! range of concentrations linearly onto a range of index values. All
//! quantities are integers: a concentration is counted in whatever fixed unit
//! the table is written in, and an interpolated index is rounded either down
//! or up to a whole number.

use vstd::prelude::*;

verus! {

/// One linear piece of a table: concentrations from `conc_lo` to `conc_hi`
/// (both included) map onto index values from `index_lo` to `index_hi`.
#[derive(Clone, Copy, Debug, PartialEq, Eq)]
pub struct Breakpoint {
    pub conc_lo: i64,
    pub conc_hi: i64,
    pub index_lo: i32,
    pub index_hi: i32,
}

/// The segment from `(conc_lo, index_lo)` to `(conc_hi, index_hi)`.
pub open spec fn segment(conc_lo: i64, conc_hi: i64, index_lo: i32, index_hi: i32) -> Breakpoint {
    Breakpoint { conc_lo, conc_hi, index_lo, index_hi }
}

impl Breakpoint {
    /// Builds the segment from `(conc_lo, index_lo)` to `(conc_hi, index_hi)`.
    pub fn new(conc_lo: i64, conc_hi: i64, index_lo: i32, index_hi: i32) -> (seg: Breakpoint)
        ensures
            seg == segment(conc_lo, conc_hi, index_lo, index_hi),
    {
        Breakpoint { conc_lo, conc_hi, index_lo, index_hi }
    }

    /// A segment has a non-empty concentration range that starts at or above
    /// zero, and index values that do not fall.
    pub open spec fn well_formed(self) -> bool {
        &&& 0 <= self.conc_lo < self.conc_hi
        &&& 0 <= self.index_lo <= self.index_hi
    }

    /// Whether the concentration lies in the segment, ends included.
    pub open spec fn covers(self, c: int) -> bool {
        self.conc_lo <= c <= self.conc_hi
    }

    /// Width of the concentration range.
    pub open spec fn run(self) -> int {
        self.conc_hi - self.conc_lo
    }

    /// Height of the index range.
    pub open spec fn rise(self) -> int {
        self.index_hi - self.index_lo
    }

    /// The index on the segment's line at `c`, rounded down.
    pub open spec fn index_floor(self, c: int) -> int {
        self.index_lo + (self.rise() * (c - self.conc_lo)) / self.run()
    }

    /// The index on the segment's line at `c`, rounded up.
    pub open spec fn index_ceil(self, c: int) -> int {
        self.index_lo + (self.rise() * (c - self.conc_lo) + self.run() - 1) / self.run()
    }

    /// Interpolates at `c` and rounds down.
    pub fn interpolate_floor(&self, c: i64) -> (index: i32)
        requires
            self.well_formed(),
            self.covers(c as int),
        ensures
            index == self.index_floor(c as int),
            self.index_lo <= index <= self.index_hi,
    {
        let rise: u128 = (self.index_hi - self.index_lo) as u128;
        let run: u128 = (self.conc_hi - self.conc_lo) as u128;
        let offset: u128 = (c - self.conc_lo) as u128;
        proof {
            lemma_scaled_bounds(rise as int, offset as int, run as int);
        }
        let steps: u128 = rise * offset / run;
        self.index_lo + steps as i32
    }

    /// Interpolates at `c` and rounds up.
    pub fn interpolate_ceil(&self, c: i64) -> (index: i32)
        requires
            self.well_formed(),
            self.covers(c as int),
        ensures
            index == self.index_ceil(c as int),
            self.index_lo <= index <= self.index_hi,
    {
        let rise: u128 = (self.index_hi - self.index_lo) as u128;
        let run: u128 = (self.conc_hi - self.conc_lo) as u128;
        let offset: u128 = (c - self.conc_lo) as u128;
        proof {
            lemma_scaled_bounds(rise as int, offset as int, run as int);
        }
        let steps: u128 = (rise * offset + run - 1) / run;
        self.index_lo + steps as i32
    }
}

/// For `0 <= offset <= run`, the quotients of `rise * offset` by `run`,
/// rounded down and rounded up, lie between 0 and `rise`; with `rise` below
/// 2^31 and `run` below 2^63 the product stays below 2^94.
pub proof fn lemma_scaled_bounds(rise: int, offset: int, run: int)
    by (nonlinear_arith)
    requires
        0 <= rise <= 0x7fff_ffff,
        0 <= offset <= run,
        0 < run <= 0x7fff_ffff_ffff_ffff,
    ensures
        0 <= rise * offset <= rise * run,
        rise * run <= 0x4000_0000_0000_0000_0000_0000,
        0 <= (rise * offset) / run <= rise,
        0 <= (rise * offset + run - 1) / run <= rise,
{
}

/// A table is ordered when every segment is well formed and each segment
/// starts, in concentration and in index, no lower than every earlier one
/// ends.
pub open spec fn table_ordered(table: Seq<Breakpoint>) -> bool {
    &&& forall|i: int| 0 <= i < table.len() ==> (#[trigger] table[i]).well_formed()
    &&& forall|i: int, j: int|
        0 <= i < j < table.len() ==> {
            &&& (#[trigger] table[i]).conc_hi <= (#[trigger] table[j]).conc_lo
            &&& table[i].index_hi <= table[j].index_lo
        }
}

/// Position of the first segment at or after `from` that covers `c`.
pub open spec fn covering_from(table: Seq<Breakpoint>, c: int, from: int) -> Option<int>
    decreases table.len() - from,
{
    if from < 0 || from >= table.len() {
        None
    } else if table[from].covers(c) {
        Some(from)
    } else {
        covering_from(table, c, from + 1)
    }
}

/// Position of the first segment of the table that covers `c`.
pub open spec fn first_covering(table: Seq<Breakpoint>, c: int) -> Option<int> {
    covering_from(table, c, 0)
}

/// What `covering_from` finds is the least position from `from` on whose
/// segment covers `c`; it finds nothing exactly when no such segment exists.
pub proof fn lemma_covering_from(table: Seq<Breakpoint>, c: int, from: int)
    requires
        0 <= from,
    ensures
        match covering_from(table, c, from) {
            Some(k) => {
                &&& from <= k < table.len()
                &&& table[k].covers(c)
                &&& forall|j: int| from <= j < k ==> !(#[trigger] table[j]).covers(c)
            },
            None => forall|j: int| from <= j < table.len() ==> !(#[trigger] table[j]).covers(c),
        },
    decreases table.len() - from,
{
    if from < table.len() && !table[from].covers(c) {
        lemma_covering_from(table, c, from + 1);
    }
}

/// The first covering segment is the covering segment of least position.
pub proof fn lemma_first_covering(table: Seq<Breakpoint>, c: int)
    ensures
        match first_covering(table, c) {
            Some(k) => {
                &&& 0 <= k < table.len()
                &&& table[k].covers(c)
                &&& forall|j: int| 0 <= j < k ==> !(#[trigger] table[j]).covers(c)
            },
            None => forall|j: int| 0 <= j < table.len() ==> !(#[trigger] table[j]).covers(c),
        },
{
    lemma_covering_from(table, c, 0);
}

/// Finds the first segment of the table that covers `c`.
pub fn find_segment(table: &Vec<Breakpoint>, c: i64) -> (found: Option<usize>)
    ensures
        match found {
            Some(k) => first_covering(table@, c as int) == Some(k as int),
            None => first_covering(table@, c as int) is None,
        },
{
    let mut i: usize = 0;
    while i < table.len()
        invariant
            i <= table.len(),
            covering_from(table@, c as int, i as int) == first_covering(table@, c as int),
        decreases table.len() - i,
    {
        if table[i].conc_lo <= c && c <= table[i].conc_hi {
            return Some(i);
        }
        i += 1;
    }
    None
}

/// Rounding down gives the greatest whole index that is not above the
/// segment's line at `c`; rounding up gives the least that is not below it.
/// Both are stated without division, over `run()` times the index.
pub proof fn lemma_rounding(seg: Breakpoint, c: int)
    requires
        seg.well_formed(),
        seg.covers(c),
    ensures
        (seg.index_floor(c) - seg.index_lo) * seg.run() <= seg.rise() * (c - seg.conc_lo),
        seg.rise() * (c - seg.conc_lo) < (seg.index_floor(c) - seg.index_lo + 1) * seg.run(),
        (seg.index_ceil(c) - seg.index_lo - 1) * seg.run() < seg.rise() * (c - seg.conc_lo),
        seg.rise() * (c - seg.conc_lo) <= (seg.index_ceil(c) - seg.index_lo) * seg.run(),
{
    lemma_quotients(seg.rise() * (c - seg.conc_lo), seg.run());
}

/// At its lower end a segment gives `index_lo`, at its upper end `index_hi`,
/// whichever way the index is rounded.
pub proof fn lemma_segment_ends(seg: Breakpoint)
    requires
        seg.well_formed(),
    ensures
        seg.index_floor(seg.conc_lo as int) == seg.index_lo,
        seg.index_ceil(seg.conc_lo as int) == seg.index_lo,
        seg.index_floor(seg.conc_hi as int) == seg.index_hi,
        seg.index_ceil(seg.conc_hi as int) == seg.index_hi,
{
    lemma_exact_quotients(seg.rise(), seg.run());
}

/// Within one segment the index does not fall as the concentration rises.
pub proof fn lemma_segment_monotonic(seg: Breakpoint, c1: int, c2: int)
    requires
        seg.well_formed(),
        seg.covers(c1),
        seg.covers(c2),
        c1 <= c2,
    ensures
        seg.index_floor(c1) <= seg.index_floor(c2),
        seg.index_ceil(c1) <= seg.index_ceil(c2),
{
    lemma_quotients_monotonic(
        seg.rise(),
        c1 - seg.conc_lo,
        c2 - seg.conc_lo,
        seg.run(),
    );
}

/// Over an ordered table the index does not fall as the concentration
/// rises, within a segment and from one segment to a later one.
pub proof fn lemma_table_monotonic(table: Seq<Breakpoint>, c1: int, c2: int)
    requires
        table_ordered(table),
        c1 <= c2,
        first_covering(table, c1) is Some,
        first_covering(table, c2) is Some,
    ensures
        first_covering(table, c1)->0 <= first_covering(table, c2)->0,
        table[first_covering(table, c1)->0].index_floor(c1) <= table[first_covering(
            table,
            c2,
        )->0].index_floor(c2),
        table[first_covering(table, c1)->0].index_ceil(c1) <= table[first_covering(
            table,
            c2,
        )->0].index_ceil(c2),
{
    let k1 = first_covering(table, c1)->0;
    let k2 = first_covering(table, c2)->0;
    lemma_first_covering(table, c1);
    lemma_first_covering(table, c2);
    let s1 = table[k1];
    let s2 = table[k2];
    assert(s1.well_formed() && s2.well_formed());
    if k2 < k1 {
        // then c2 <= s2.conc_hi <= s1.conc_lo <= c1, so s2 covers c1 as well
        assert(s2.conc_hi <= s1.conc_lo);
        assert(s2.covers(c1));
        assert(false);
    }
    lemma_scaled_bounds(s1.rise(), c1 - s1.conc_lo, s1.run());
    lemma_scaled_bounds(s2.rise(), c2 - s2.conc_lo, s2.run());
    if k1 == k2 {
        lemma_segment_monotonic(s1, c1, c2);
    } else {
        assert(s1.index_hi <= s2.index_lo);
    }
}

/// In an ordered table the upper end of a segment is looked up in that
/// segment, and gives its upper index value.
pub proof fn lemma_upper_end(table: Seq<Breakpoint>, k: int)
    requires
        table_ordered(table),
        0 <= k < table.len(),
    ensures
        first_covering(table, table[k].conc_hi as int) == Some(k),
        table[k].index_floor(table[k].conc_hi as int) == table[k].index_hi,
        table[k].index_ceil(table[k].conc_hi as int) == table[k].index_hi,
{
    let c = table[k].conc_hi as int;
    lemma_first_covering(table, c);
    lemma_segment_ends(table[k]);
    assert(table[k].well_formed());
    assert(table[k].covers(c));
    let j = first_covering(table, c)->0;
    if j < k {
        assert(table[j].conc_hi <= table[k].conc_lo);
    }
}

/// In an ordered table the lower end of a segment is looked up in that
/// segment, or in the one before it if that one ends there.
pub proof fn lemma_lower_end(table: Seq<Breakpoint>, k: int)
    requires
        table_ordered(table),
        0 <= k < table.len(),
    ensures
        first_covering(table, table[k].conc_lo as int) == Some(k) || (k > 0 && first_covering(
            table,
            table[k].conc_lo as int,
        ) == Some(k - 1) && table[k - 1].conc_hi == table[k].conc_lo),
        table[k].index_floor(table[k].conc_lo as int) == table[k].index_lo,
        table[k].index_ceil(table[k].conc_lo as int) == table[k].index_lo,
{
    let c = table[k].conc_lo as int;
    lemma_first_covering(table, c);
    lemma_segment_ends(table[k]);
    assert(table[k].well_formed());
    assert(table[k].covers(c));
    let j = first_covering(table, c)->0;
    if j < k {
        assert(table[j].conc_hi <= table[k].conc_lo);
        if j < k - 1 {
            assert(table[j].conc_hi <= table[k - 1].conc_lo);
            assert(table[k - 1].well_formed());
            assert(table[k - 1].conc_hi <= table[k].conc_lo);
        }
    }
}

/// The quotient of `n` by `d` rounded down, and rounded up, bracket `n / d`.
proof fn lemma_quotients(n: int, d: int)
    by (nonlinear_arith)
    requires
        0 <= n,
        0 < d,
    ensures
        (n / d) * d <= n < (n / d + 1) * d,
        ((n + d - 1) / d - 1) * d < n <= ((n + d - 1) / d) * d,
{
}

/// `rise * run` divided by `run` is `rise` exactly, and zero divided by
/// `run` is zero, rounded either way.
proof fn lemma_exact_quotients(rise: int, run: int)
    by (nonlinear_arith)
    requires
        0 <= rise,
        0 < run,
    ensures
        (rise * 0) / run == 0,
        (rise * 0 + run - 1) / run == 0,
        (rise * run) / run == rise,
        (rise * run + run - 1) / run == rise,
{
}

/// Scaled quotients do not fall as the offset rises.
proof fn lemma_quotients_monotonic(rise: int, o1: int, o2: int, run: int)
    by (nonlinear_arith)
    requires
        0 <= rise,
        0 <= o1 <= o2,
        0 < run,
    ensures
        (rise * o1) / run <= (rise * o2) / run,
        (rise * o1 + run - 1) / run <= (rise * o2 + run - 1) / run,
{
}

} // verus!
