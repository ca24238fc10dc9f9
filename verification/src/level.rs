//! Severity levels of an overall index.
//!
//! Both standards cut the index into the same six bands:
//! up to 50, 51 to 100, 101 to 150, 151 to 200, 201 to 300, and above.

use vstd::prelude::*;

verus! {

/// The level, 1 to 6, of the band in which `aqi` lies. Everything up to 50
/// is level 1 and everything above 300 is level 6.
pub open spec fn level_of(aqi: int) -> int {
    if aqi <= 50 {
        1
    } else if aqi <= 100 {
        2
    } else if aqi <= 150 {
        3
    } else if aqi <= 200 {
        4
    } else if aqi <= 300 {
        5
    } else {
        6
    }
}

/// The level of the band in which `aqi` lies.
pub fn level_for(aqi: i32) -> (level: i32)
    ensures
        level == level_of(aqi as int),
{
    if aqi <= 50 {
        1
    } else if aqi <= 100 {
        2
    } else if aqi <= 150 {
        3
    } else if aqi <= 200 {
        4
    } else if aqi <= 300 {
        5
    } else {
        6
    }
}

/// The bands leave no index out and do not overlap: every index has a level
/// from 1 to 6, a greater index never has a lower level, and from one index
/// to the next the level stays or rises by one.
pub proof fn lemma_levels_contiguous(a: int, b: int)
    requires
        a <= b,
    ensures
        1 <= level_of(a) <= 6,
        level_of(a) <= level_of(b),
        level_of(a) <= level_of(a + 1) <= level_of(a) + 1,
{
}

/// Each band ends where the next begins: 50 and 51, 100 and 101, 150 and
/// 151, 200 and 201, 300 and 301 lie in neighbouring bands.
pub proof fn lemma_level_boundaries()
    ensures
        level_of(0) == 1,
        level_of(50) == 1 && level_of(51) == 2,
        level_of(100) == 2 && level_of(101) == 3,
        level_of(150) == 3 && level_of(151) == 4,
        level_of(200) == 4 && level_of(201) == 5,
        level_of(300) == 5 && level_of(301) == 6,
        level_of(500) == 6,
{
}

} // verus!
