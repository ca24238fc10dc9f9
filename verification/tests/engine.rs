use aqi_hub::breakpoint::{find_segment, Breakpoint};
use aqi_hub::color::{color_type_from_str, ColorType};
use aqi_hub::concentration::{truncate_to, MICRO};
use aqi_hub::level::level_for;
use aqi_hub::subindex::{higher_of, highest_of_six, names_tied_at};
use aqi_hub::text::str_eq;

fn sample_table() -> Vec<Breakpoint> {
    vec![
        Breakpoint::new(0, 10, 0, 50),
        Breakpoint::new(10, 40, 50, 100),
        Breakpoint::new(41, 100, 101, 300),
    ]
}

#[test]
fn segment_is_built_from_its_ends() {
    let seg = Breakpoint::new(3, 9, 20, 80);
    assert_eq!(seg, Breakpoint { conc_lo: 3, conc_hi: 9, index_lo: 20, index_hi: 80 });
}

#[test]
fn first_covering_segment_is_found() {
    let table = sample_table();
    assert_eq!(find_segment(&table, -1), None);
    assert_eq!(find_segment(&table, 0), Some(0));
    assert_eq!(find_segment(&table, 10), Some(0));
    assert_eq!(find_segment(&table, 11), Some(1));
    assert_eq!(find_segment(&table, 40), Some(1));
    assert_eq!(find_segment(&table, 41), Some(2));
    assert_eq!(find_segment(&table, 100), Some(2));
    assert_eq!(find_segment(&table, 101), None);
    assert_eq!(find_segment(&Vec::new(), 0), None);
}

#[test]
fn interpolation_rounds_down_or_up() {
    let seg = Breakpoint::new(10, 40, 50, 100);
    // 50 + 50 * (c - 10) / 30
    assert_eq!(seg.interpolate_floor(10), 50);
    assert_eq!(seg.interpolate_ceil(10), 50);
    assert_eq!(seg.interpolate_floor(11), 51);
    assert_eq!(seg.interpolate_ceil(11), 52);
    assert_eq!(seg.interpolate_floor(25), 75);
    assert_eq!(seg.interpolate_ceil(25), 75);
    assert_eq!(seg.interpolate_floor(39), 98);
    assert_eq!(seg.interpolate_ceil(39), 99);
    assert_eq!(seg.interpolate_floor(40), 100);
    assert_eq!(seg.interpolate_ceil(40), 100);
}

#[test]
fn interpolation_on_the_widest_segment() {
    let seg = Breakpoint::new(0, i64::MAX, 0, i32::MAX);
    assert_eq!(seg.interpolate_floor(0), 0);
    assert_eq!(seg.interpolate_ceil(1), 1);
    assert_eq!(seg.interpolate_floor(i64::MAX), i32::MAX);
    assert_eq!(seg.interpolate_ceil(i64::MAX), i32::MAX);
    assert_eq!(seg.interpolate_floor(i64::MAX - 1), i32::MAX - 1);
    let flat = Breakpoint::new(5, 6, 7, 7);
    assert_eq!(flat.interpolate_floor(5), 7);
    assert_eq!(flat.interpolate_ceil(6), 7);
}

#[test]
fn truncation_is_toward_zero() {
    assert_eq!(MICRO, 1_000_000);
    assert_eq!(truncate_to(0, 1000), 0);
    assert_eq!(truncate_to(999, 1000), 0);
    assert_eq!(truncate_to(1000, 1000), 1);
    assert_eq!(truncate_to(1999, 1000), 1);
    assert_eq!(truncate_to(-1, 1000), 0);
    assert_eq!(truncate_to(-999, 1000), 0);
    assert_eq!(truncate_to(-1000, 1000), -1);
    assert_eq!(truncate_to(-1001, 1000), -1);
    assert_eq!(truncate_to(i64::MIN, 1), i64::MIN);
    assert_eq!(truncate_to(i64::MAX, i64::MAX), 1);
    assert_eq!(truncate_to(i64::MIN, i64::MAX), -1);
}

#[test]
fn level_bands() {
    let mut last = 1;
    for aqi in -10..=510 {
        let level = level_for(aqi);
        assert!((1..=6).contains(&level));
        assert!(level == last || level == last + 1);
        last = level;
    }
    for (below, above) in [(50, 51), (100, 101), (150, 151), (200, 201), (300, 301)] {
        assert_eq!(level_for(below) + 1, level_for(above));
    }
}

#[test]
fn greater_of_two_sub_indices() {
    assert_eq!(higher_of(None, None), None);
    assert_eq!(higher_of(Some(3), None), Some(3));
    assert_eq!(higher_of(None, Some(4)), Some(4));
    assert_eq!(higher_of(Some(3), Some(4)), Some(4));
    assert_eq!(higher_of(Some(5), Some(4)), Some(5));
    assert_eq!(higher_of(Some(-5), Some(-4)), Some(-4));
}

#[test]
fn greatest_of_six_sub_indices() {
    assert_eq!(highest_of_six(None, None, None, None, None, None), None);
    assert_eq!(highest_of_six(Some(1), Some(9), None, Some(9), Some(2), Some(0)), Some(9));
    assert_eq!(highest_of_six(None, None, None, None, None, Some(-7)), Some(-7));
    assert_eq!(highest_of_six(Some(500), None, None, None, None, Some(499)), Some(500));
}

#[test]
fn names_of_the_tied_sub_indices() {
    let none: Vec<String> = Vec::new();
    assert_eq!(names_tied_at(None, None, None, None, None, None, 0), none);
    assert_eq!(names_tied_at(Some(1), Some(2), Some(3), Some(4), Some(5), Some(6), 7), none);
    assert_eq!(
        names_tied_at(Some(7), Some(7), Some(7), Some(7), Some(7), Some(7), 7),
        vec!["PM2.5", "PM10", "SO2", "NO2", "CO", "O3"]
    );
    assert_eq!(
        names_tied_at(Some(1), Some(7), None, Some(8), Some(7), Some(6), 7),
        vec!["PM10", "CO"]
    );
}

#[test]
fn strings_are_compared_by_their_characters() {
    assert!(str_eq("", ""));
    assert!(str_eq("PM2.5", "PM2.5"));
    assert!(!str_eq("PM2.5", "PM25"));
    assert!(!str_eq("PM2.5", "PM2.6"));
    assert!(!str_eq("PM2.5", "pm2.5"));
    assert!(!str_eq("a", ""));
    assert!(str_eq("臭氧", "臭氧"));
    assert!(!str_eq("臭氧", "臭气"));
}

#[test]
fn color_type_tags() {
    assert_eq!(color_type_from_str("RGB"), Some(ColorType::Rgb));
    assert_eq!(color_type_from_str("CMYK"), Some(ColorType::Cmyk));
    assert_eq!(color_type_from_str("RGB_HEX"), Some(ColorType::RgbHex));
    assert_eq!(color_type_from_str("CMYK_HEX"), Some(ColorType::CmykHex));
    assert_eq!(color_type_from_str("rgb"), None);
    assert_eq!(color_type_from_str(""), None);
    assert_eq!(color_type_from_str("HSL"), None);
}
