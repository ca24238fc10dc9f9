//! Fixed-point concentrations.
//!
//! A reading is a whole number of millionths of the unit in which the
//! pollutant's table is published (micrograms or milligrams per cubic metre,
//! parts per billion or per million). Tables are written in coarser units;
//! `truncate` brings a reading down to such a unit, toward zero.

use vstd::prelude::*;

verus! {

/// Readings per whole unit of concentration.
pub const MICRO: i64 = 1_000_000;

/// `value` in units of `unit`, rounded toward zero.
pub open spec fn truncate(value: int, unit: int) -> int {
    if value >= 0 {
        value / unit
    } else {
        -((-value) / unit)
    }
}

/// Brings `value` down to units of `unit`, rounding toward zero.
pub fn truncate_to(value: i64, unit: i64) -> (units: i64)
    requires
        unit > 0,
    ensures
        units == truncate(value as int, unit as int),
{
    value / unit
}

/// Truncation keeps the order of readings.
pub proof fn lemma_truncate_monotonic(a: int, b: int, unit: int)
    by (nonlinear_arith)
    requires
        a <= b,
        0 < unit,
    ensures
        truncate(a, unit) <= truncate(b, unit),
{
}

/// A whole number of units is left as it is.
pub proof fn lemma_truncate_exact(units: int, unit: int)
    by (nonlinear_arith)
    requires
        0 < unit,
    ensures
        truncate(units * unit, unit) == units,
{
}

/// A reading's truncation is the one whole number of units that lies
/// within less than a unit of it on the side of zero.
pub proof fn lemma_truncate_bounds(value: int, unit: int)
    by (nonlinear_arith)
    requires
        0 < unit,
    ensures
        value >= 0 ==> truncate(value, unit) * unit <= value < (truncate(value, unit) + 1) * unit,
        value <= 0 ==> (truncate(value, unit) - 1) * unit < value <= truncate(value, unit) * unit,
{
}

} // verus!
