//! The United States (EPA) air quality index.
//!
//! Each pollutant item has a table written in a unit of its own: tenths of a
//! microgram per cubic metre for PM2.5, tenths of a part per million for CO,
//! thousandths of a part per million for ozone, whole units for the others.
//! A reading is first truncated to that unit and then looked up; the
//! interpolated index is rounded down.

use vstd::prelude::*;
use vstd::string::*;
use crate::breakpoint::{
    covering_from, find_segment, first_covering, lemma_first_covering, lemma_lower_end,
    lemma_scaled_bounds, lemma_table_monotonic, lemma_upper_end, segment, table_ordered,
    Breakpoint,
};
use crate::color::ColorEntry;
use crate::concentration::{
    lemma_truncate_exact, lemma_truncate_monotonic, truncate, truncate_to,
};
use crate::level::{level_for, level_of};
use crate::subindex::{
    higher, higher_of, highest_of_six, lemma_tied_pollutants, max_present, names_tied_at,
    pollutant_names, texts, tied_names, widen, INDEX_MAX,
};
use crate::text::str_eq;

verus! {

/// A pollutant together with the window over which it was averaged.
#[derive(Clone, Copy, Debug, PartialEq, Eq)]
#[allow(non_camel_case_types)]
pub enum UsaItem {
    PM25_24H,
    PM10_24H,
    SO2_1H,
    SO2_24H,
    NO2_1H,
    CO_8H,
    O3_8H,
    O3_1H,
}

/// How one item is looked up.
pub struct UsaItemConfig {
    /// The item's table, in table units.
    pub breakpoints: Vec<Breakpoint>,
    /// Millionths of the pollutant's unit in one table unit.
    pub unit: i64,
    /// Lowest concentration, in table units, that has an index.
    pub floor: i64,
    /// Concentration, in table units, from which on the table is not used.
    pub ceiling: i64,
    /// At or above `ceiling` the index is `INDEX_MAX` if this is set, and
    /// absent otherwise.
    pub saturates: bool,
}

/// The table of an item, in table units.
pub open spec fn usa_table(item: UsaItem) -> Seq<Breakpoint> {
    match item {
        UsaItem::PM25_24H => seq![
            segment(0, 90, 0, 50),
            segment(91, 354, 51, 100),
            segment(355, 554, 101, 150),
            segment(555, 1254, 151, 200),
            segment(1255, 2254, 201, 300),
            segment(2255, 3254, 301, 500),
        ],
        UsaItem::PM10_24H => seq![
            segment(0, 54, 0, 50),
            segment(55, 154, 51, 100),
            segment(155, 254, 101, 150),
            segment(255, 354, 151, 200),
            segment(355, 424, 201, 300),
            segment(425, 604, 301, 500),
        ],
        UsaItem::SO2_1H => seq![
            segment(0, 35, 0, 50),
            segment(36, 75, 51, 100),
            segment(76, 185, 101, 150),
            segment(186, 304, 151, 200),
        ],
        UsaItem::SO2_24H => seq![segment(305, 604, 201, 300), segment(605, 1004, 301, 500)],
        UsaItem::NO2_1H => seq![
            segment(0, 53, 0, 50),
            segment(54, 100, 51, 100),
            segment(101, 360, 101, 150),
            segment(361, 649, 151, 200),
            segment(650, 1249, 201, 300),
            segment(1250, 2049, 301, 500),
        ],
        UsaItem::CO_8H => seq![
            segment(0, 44, 0, 50),
            segment(44, 94, 51, 100),
            segment(95, 124, 101, 150),
            segment(125, 154, 151, 200),
            segment(155, 304, 201, 300),
            segment(305, 504, 301, 500),
        ],
        UsaItem::O3_8H => seq![
            segment(0, 54, 0, 50),
            segment(54, 70, 51, 100),
            segment(71, 85, 101, 150),
            segment(86, 105, 151, 200),
            segment(106, 200, 201, 300),
        ],
        UsaItem::O3_1H => seq![
            segment(125, 164, 101, 150),
            segment(165, 204, 151, 200),
            segment(205, 404, 201, 300),
            segment(405, 604, 301, 500),
        ],
    }
}

/// Millionths of the pollutant's unit in one table unit of the item.
pub open spec fn usa_unit(item: UsaItem) -> int {
    match item {
        UsaItem::PM25_24H | UsaItem::CO_8H => 100_000,
        UsaItem::O3_8H | UsaItem::O3_1H => 1_000,
        _ => 1_000_000,
    }
}

/// Lowest concentration of the item, in table units, that has an index.
pub open spec fn usa_floor(item: UsaItem) -> int {
    match item {
        UsaItem::SO2_24H => 305,
        UsaItem::O3_1H => 125,
        _ => 0,
    }
}

/// Concentration of the item, in table units, from which on its table is
/// not used.
pub open spec fn usa_ceiling(item: UsaItem) -> int {
    match item {
        UsaItem::PM25_24H => 3254,
        UsaItem::PM10_24H => 604,
        UsaItem::SO2_1H => 305,
        UsaItem::SO2_24H => 1004,
        UsaItem::NO2_1H => 2049,
        UsaItem::CO_8H => 504,
        UsaItem::O3_8H => 201,
        UsaItem::O3_1H => 604,
    }
}

/// Whether the item's index is `INDEX_MAX` from its ceiling on. For the
/// one-hour SO2 item and the eight-hour ozone item it is absent there: the
/// other window of the same pollutant takes over.
pub open spec fn usa_saturates(item: UsaItem) -> bool {
    match item {
        UsaItem::SO2_1H | UsaItem::O3_8H => false,
        _ => true,
    }
}

/// The table and the limits of an item.
pub fn usa_config(item: UsaItem) -> (cfg: UsaItemConfig)
    ensures
        cfg.breakpoints@ == usa_table(item),
        cfg.unit == usa_unit(item),
        cfg.floor == usa_floor(item),
        cfg.ceiling == usa_ceiling(item),
        cfg.saturates == usa_saturates(item),
{
    match item {
        UsaItem::PM25_24H => UsaItemConfig {
            breakpoints: vec![
                Breakpoint::new(0, 90, 0, 50),
                Breakpoint::new(91, 354, 51, 100),
                Breakpoint::new(355, 554, 101, 150),
                Breakpoint::new(555, 1254, 151, 200),
                Breakpoint::new(1255, 2254, 201, 300),
                Breakpoint::new(2255, 3254, 301, 500),
            ],
            unit: 100_000,
            floor: 0,
            ceiling: 3254,
            saturates: true,
        },
        UsaItem::PM10_24H => UsaItemConfig {
            breakpoints: vec![
                Breakpoint::new(0, 54, 0, 50),
                Breakpoint::new(55, 154, 51, 100),
                Breakpoint::new(155, 254, 101, 150),
                Breakpoint::new(255, 354, 151, 200),
                Breakpoint::new(355, 424, 201, 300),
                Breakpoint::new(425, 604, 301, 500),
            ],
            unit: 1_000_000,
            floor: 0,
            ceiling: 604,
            saturates: true,
        },
        UsaItem::SO2_1H => UsaItemConfig {
            breakpoints: vec![
                Breakpoint::new(0, 35, 0, 50),
                Breakpoint::new(36, 75, 51, 100),
                Breakpoint::new(76, 185, 101, 150),
                Breakpoint::new(186, 304, 151, 200),
            ],
            unit: 1_000_000,
            floor: 0,
            ceiling: 305,
            saturates: false,
        },
        UsaItem::SO2_24H => UsaItemConfig {
            breakpoints: vec![
                Breakpoint::new(305, 604, 201, 300),
                Breakpoint::new(605, 1004, 301, 500),
            ],
            unit: 1_000_000,
            floor: 305,
            ceiling: 1004,
            saturates: true,
        },
        UsaItem::NO2_1H => UsaItemConfig {
            breakpoints: vec![
                Breakpoint::new(0, 53, 0, 50),
                Breakpoint::new(54, 100, 51, 100),
                Breakpoint::new(101, 360, 101, 150),
                Breakpoint::new(361, 649, 151, 200),
                Breakpoint::new(650, 1249, 201, 300),
                Breakpoint::new(1250, 2049, 301, 500),
            ],
            unit: 1_000_000,
            floor: 0,
            ceiling: 2049,
            saturates: true,
        },
        UsaItem::CO_8H => UsaItemConfig {
            breakpoints: vec![
                Breakpoint::new(0, 44, 0, 50),
                Breakpoint::new(44, 94, 51, 100),
                Breakpoint::new(95, 124, 101, 150),
                Breakpoint::new(125, 154, 151, 200),
                Breakpoint::new(155, 304, 201, 300),
                Breakpoint::new(305, 504, 301, 500),
            ],
            unit: 100_000,
            floor: 0,
            ceiling: 504,
            saturates: true,
        },
        UsaItem::O3_8H => UsaItemConfig {
            breakpoints: vec![
                Breakpoint::new(0, 54, 0, 50),
                Breakpoint::new(54, 70, 51, 100),
                Breakpoint::new(71, 85, 101, 150),
                Breakpoint::new(86, 105, 151, 200),
                Breakpoint::new(106, 200, 201, 300),
            ],
            unit: 1_000,
            floor: 0,
            ceiling: 201,
            saturates: false,
        },
        UsaItem::O3_1H => UsaItemConfig {
            breakpoints: vec![
                Breakpoint::new(125, 164, 101, 150),
                Breakpoint::new(165, 204, 151, 200),
                Breakpoint::new(205, 404, 201, 300),
                Breakpoint::new(405, 604, 301, 500),
            ],
            unit: 1_000,
            floor: 125,
            ceiling: 604,
            saturates: true,
        },
    }
}

/// Whether the item has an index at `c`, a concentration in table units:
/// not below the floor, and below the ceiling unless the item saturates.
pub open spec fn usa_in_domain(item: UsaItem, c: int) -> bool {
    usa_floor(item) <= c && (c < usa_ceiling(item) || usa_saturates(item))
}

/// The sub-index of an item at a reading in millionths of its unit.
///
/// The reading is truncated to the table unit. Below the floor there is no
/// index; from the ceiling on it is `INDEX_MAX` or absent; in between the
/// first segment that covers the concentration is interpolated and the
/// result rounded down.
pub open spec fn iaqi_usa(item: UsaItem, conc: int) -> Option<int> {
    let c = truncate(conc, usa_unit(item));
    if c < usa_floor(item) {
        None
    } else if c >= usa_ceiling(item) {
        if usa_saturates(item) {
            Some(INDEX_MAX as int)
        } else {
            None
        }
    } else {
        match first_covering(usa_table(item), c) {
            Some(k) => Some(usa_table(item)[k].index_floor(c)),
            None => None,
        }
    }
}

/// Every table is ordered.
pub proof fn lemma_usa_table_ordered(item: UsaItem)
    ensures
        table_ordered(usa_table(item)),
{
}

/// Between floor and ceiling every concentration lies in some segment.
pub proof fn lemma_usa_table_covers(item: UsaItem, c: int)
    requires
        usa_floor(item) <= c < usa_ceiling(item),
    ensures
        first_covering(usa_table(item), c) is Some,
{
    reveal_with_fuel(covering_from, 7);
}

/// Computes the sub-index of `item` at `conc`, a reading in millionths of
/// the item's unit.
pub fn cal_iaqi_usa(item: UsaItem, conc: i64) -> (index: Option<i32>)
    ensures
        widen(index) == iaqi_usa(item, conc as int),
        index is Some <==> usa_in_domain(item, truncate(conc as int, usa_unit(item))),
        index matches Some(v) ==> 0 <= v <= INDEX_MAX,
{
    let cfg = usa_config(item);
    let c = truncate_to(conc, cfg.unit);
    if c < cfg.floor {
        return None;
    }
    if c >= cfg.ceiling {
        return if cfg.saturates {
            Some(INDEX_MAX)
        } else {
            None
        };
    }
    proof {
        lemma_usa_table_ordered(item);
        lemma_usa_table_covers(item, c as int);
        lemma_first_covering(usa_table(item), c as int);
    }
    match find_segment(&cfg.breakpoints, c) {
        Some(k) => Some(cfg.breakpoints[k].interpolate_floor(c)),
        None => None,
    }
}

/// The sub-index of an item at a reading that may be missing.
pub open spec fn sub_index_usa(item: UsaItem, reading: Option<i64>) -> Option<int> {
    match reading {
        Some(conc) => iaqi_usa(item, conc as int),
        None => None,
    }
}

/// One optional sub-index for each of the six pollutants.
pub struct UsaIaqiMap {
    pub pm25: Option<i32>,
    pub pm10: Option<i32>,
    pub so2: Option<i32>,
    pub no2: Option<i32>,
    pub co: Option<i32>,
    pub o3: Option<i32>,
}

impl View for UsaIaqiMap {
    type V = Seq<Option<int>>;

    /// The six sub-indices in the order PM2.5, PM10, SO2, NO2, CO, O3.
    open spec fn view(&self) -> Seq<Option<int>> {
        seq![
            widen(self.pm25),
            widen(self.pm10),
            widen(self.so2),
            widen(self.no2),
            widen(self.co),
            widen(self.o3),
        ]
    }
}

impl Clone for UsaIaqiMap {
    fn clone(&self) -> (copy: UsaIaqiMap)
        ensures
            copy == *self,
    {
        UsaIaqiMap {
            pm25: self.pm25,
            pm10: self.pm10,
            so2: self.so2,
            no2: self.no2,
            co: self.co,
            o3: self.o3,
        }
    }
}

impl Default for UsaIaqiMap {
    /// The set in which every sub-index is absent.
    fn default() -> (map: UsaIaqiMap)
        ensures
            map@ == Seq::new(6, |i: int| None::<int>),
    {
        let map = UsaIaqiMap { pm25: None, pm10: None, so2: None, no2: None, co: None, o3: None };
        assert(map@ =~= Seq::new(6, |i: int| None::<int>));
        map
    }
}

/// The sub-index of `item` at a reading that may be missing.
fn sub_index(item: UsaItem, reading: Option<i64>) -> (index: Option<i32>)
    ensures
        widen(index) == sub_index_usa(item, reading),
{
    match reading {
        Some(conc) => cal_iaqi_usa(item, conc),
        None => None,
    }
}

/// Computes the six sub-indices of a set of readings, each in millionths of
/// its pollutant's unit, and the overall index: the greatest sub-index that
/// is present.
///
/// SO2 and ozone may each be given over two windows. Their sub-index is the
/// greater of the two windows' indices that are present.
pub fn cal_aqi_usa(
    pm25: i64,
    pm10: i64,
    so2_1h: Option<i64>,
    no2: i64,
    co: i64,
    o3_8h: i64,
    so2_24h: Option<i64>,
    o3_1h: Option<i64>,
) -> (result: (Option<i32>, UsaIaqiMap))
    ensures
        widen(result.1.pm25) == iaqi_usa(UsaItem::PM25_24H, pm25 as int),
        widen(result.1.pm10) == iaqi_usa(UsaItem::PM10_24H, pm10 as int),
        widen(result.1.so2) == higher(
            sub_index_usa(UsaItem::SO2_1H, so2_1h),
            sub_index_usa(UsaItem::SO2_24H, so2_24h),
        ),
        widen(result.1.no2) == iaqi_usa(UsaItem::NO2_1H, no2 as int),
        widen(result.1.co) == iaqi_usa(UsaItem::CO_8H, co as int),
        widen(result.1.o3) == higher(
            iaqi_usa(UsaItem::O3_8H, o3_8h as int),
            sub_index_usa(UsaItem::O3_1H, o3_1h),
        ),
        widen(result.0) == max_present(result.1@),
{
    let so2_1h_iaqi = sub_index(UsaItem::SO2_1H, so2_1h);
    let so2_24h_iaqi = sub_index(UsaItem::SO2_24H, so2_24h);
    let o3_8h_iaqi = cal_iaqi_usa(UsaItem::O3_8H, o3_8h);
    let o3_1h_iaqi = sub_index(UsaItem::O3_1H, o3_1h);
    let iaqi = UsaIaqiMap {
        pm25: cal_iaqi_usa(UsaItem::PM25_24H, pm25),
        pm10: cal_iaqi_usa(UsaItem::PM10_24H, pm10),
        so2: higher_of(so2_1h_iaqi, so2_24h_iaqi),
        no2: cal_iaqi_usa(UsaItem::NO2_1H, no2),
        co: cal_iaqi_usa(UsaItem::CO_8H, co),
        o3: higher_of(o3_8h_iaqi, o3_1h_iaqi),
    };
    let aqi = iaqi.max_iaqi();
    (aqi, iaqi)
}

/// The level of an overall index. The index is not held to a range:
/// everything up to 50 is level 1 and everything above 300 is level 6.
pub fn get_aqi_level_usa(aqi: i32) -> (level: i32)
    ensures
        level == level_of(aqi as int),
{
    level_for(aqi)
}

/// The RGB triple of a level.
pub open spec fn usa_rgb(level: int) -> (int, int, int) {
    if level == 1 {
        (0, 228, 0)
    } else if level == 2 {
        (255, 255, 0)
    } else if level == 3 {
        (255, 126, 0)
    } else if level == 4 {
        (255, 0, 0)
    } else if level == 5 {
        (143, 63, 151)
    } else {
        (126, 0, 35)
    }
}

/// The CMYK quadruple of a level.
pub open spec fn usa_cmyk(level: int) -> (int, int, int, int) {
    if level == 1 {
        (40, 0, 100, 0)
    } else if level == 2 {
        (0, 0, 100, 0)
    } else if level == 3 {
        (0, 52, 100, 0)
    } else if level == 4 {
        (0, 100, 100, 0)
    } else if level == 5 {
        (5, 58, 0, 41)
    } else {
        (30, 100, 100, 30)
    }
}

/// The hexadecimal rendering of a level's RGB colour.
pub open spec fn usa_rgb_hex(level: int) -> Seq<char> {
    if level == 1 {
        "#00E400"@
    } else if level == 2 {
        "#FFFF00"@
    } else if level == 3 {
        "#FF7E00"@
    } else if level == 4 {
        "#FF0000"@
    } else if level == 5 {
        "#8F3F97"@
    } else {
        "#7E0023"@
    }
}

/// The hexadecimal rendering of a level's CMYK colour.
pub open spec fn usa_cmyk_hex(level: int) -> Seq<char> {
    if level == 1 {
        "#99FF00"@
    } else if level == 2 {
        "#FFFF00"@
    } else if level == 3 {
        "#FF7A00"@
    } else if level == 4 {
        "#FF0000"@
    } else if level == 5 {
        "#8F3F96"@
    } else {
        "#7D0000"@
    }
}

/// The colour of a level from 1 to 6; other levels have none.
pub open spec fn usa_color(level: int) -> Option<ColorEntry> {
    if 1 <= level <= 6 {
        Some(
            ColorEntry {
                rgb: usa_rgb(level),
                cmyk: usa_cmyk(level),
                rgb_hex: usa_rgb_hex(level),
                cmyk_hex: usa_cmyk_hex(level),
            },
        )
    } else {
        None
    }
}

/// The colour of a level in every encoding.
#[derive(Debug, PartialEq)]
pub struct UsaColorValue {
    pub rgb: (i32, i32, i32),
    pub cmyk: (i32, i32, i32, i32),
    pub rgb_hex: String,
    pub cmyk_hex: String,
}

impl View for UsaColorValue {
    type V = ColorEntry;

    open spec fn view(&self) -> ColorEntry {
        ColorEntry {
            rgb: (self.rgb.0 as int, self.rgb.1 as int, self.rgb.2 as int),
            cmyk: (self.cmyk.0 as int, self.cmyk.1 as int, self.cmyk.2 as int, self.cmyk.3 as int),
            rgb_hex: self.rgb_hex@,
            cmyk_hex: self.cmyk_hex@,
        }
    }
}

impl Clone for UsaColorValue {
    fn clone(&self) -> (copy: UsaColorValue)
        ensures
            copy@ == self@,
    {
        UsaColorValue {
            rgb: self.rgb,
            cmyk: self.cmyk,
            rgb_hex: self.rgb_hex.clone(),
            cmyk_hex: self.cmyk_hex.clone(),
        }
    }
}

/// Looks up the colour of a level from 1 to 6. The record holds every
/// encoding; `_color_type` names the one the caller will read and does not
/// change the record.
pub fn get_aqi_level_color_usa(level: i32, _color_type: &str) -> (color: Option<UsaColorValue>)
    ensures
        color is Some <==> 1 <= level <= 6,
        match color {
            Some(c) => usa_color(level as int) == Some(c@),
            None => usa_color(level as int) is None,
        },
{
    if level < 1 || level > 6 {
        return None;
    }
    let rgb: (i32, i32, i32) = match level {
        1 => (0, 228, 0),
        2 => (255, 255, 0),
        3 => (255, 126, 0),
        4 => (255, 0, 0),
        5 => (143, 63, 151),
        _ => (126, 0, 35),
    };
    let cmyk: (i32, i32, i32, i32) = match level {
        1 => (40, 0, 100, 0),
        2 => (0, 0, 100, 0),
        3 => (0, 52, 100, 0),
        4 => (0, 100, 100, 0),
        5 => (5, 58, 0, 41),
        _ => (30, 100, 100, 30),
    };
    let rgb_hex = match level {
        1 => "#00E400",
        2 => "#FFFF00",
        3 => "#FF7E00",
        4 => "#FF0000",
        5 => "#8F3F97",
        _ => "#7E0023",
    };
    let cmyk_hex = match level {
        1 => "#99FF00",
        2 => "#FFFF00",
        3 => "#FF7A00",
        4 => "#FF0000",
        5 => "#8F3F96",
        _ => "#7D0000",
    };
    Some(
        UsaColorValue {
            rgb,
            cmyk,
            rgb_hex: String::from_str(rgb_hex),
            cmyk_hex: String::from_str(cmyk_hex),
        },
    )
}

impl UsaIaqiMap {
    /// The greatest sub-index that is present.
    pub fn max_iaqi(&self) -> (max: Option<i32>)
        ensures
            widen(max) == max_present(self@),
    {
        highest_of_six(self.pm25, self.pm10, self.so2, self.no2, self.co, self.o3)
    }
}

/// The primary pollutants of a set of sub-indices: every pollutant whose
/// sub-index is the greatest one present, however low that is. With no
/// sub-index present there is none.
pub open spec fn primary_pollutants_usa(slots: Seq<Option<int>>) -> Seq<Seq<char>> {
    match max_present(slots) {
        Some(m) => tied_names(slots, pollutant_names(), m),
        None => Seq::empty(),
    }
}

/// Names the primary pollutants of a set of sub-indices, in the order
/// PM2.5, PM10, SO2, NO2, CO, O3.
pub fn cal_primary_pollutant_usa(iaqi: &UsaIaqiMap) -> (names: Vec<String>)
    ensures
        texts(names@) == primary_pollutants_usa(iaqi@),
{
    match iaqi.max_iaqi() {
        Some(m) => names_tied_at(iaqi.pm25, iaqi.pm10, iaqi.so2, iaqi.no2, iaqi.co, iaqi.o3, m),
        None => {
            let none: Vec<String> = Vec::new();
            assert(texts(none@) =~= Seq::<Seq<char>>::empty());
            none
        },
    }
}

/// The name by which an item is known.
pub open spec fn usa_item_name(item: UsaItem) -> Seq<char> {
    match item {
        UsaItem::PM25_24H => "PM25_24H"@,
        UsaItem::PM10_24H => "PM10_24H"@,
        UsaItem::SO2_1H => "SO2_1H"@,
        UsaItem::SO2_24H => "SO2_24H"@,
        UsaItem::NO2_1H => "NO2_1H"@,
        UsaItem::CO_8H => "CO_8H"@,
        UsaItem::O3_8H => "O3_8H"@,
        UsaItem::O3_1H => "O3_1H"@,
    }
}

/// Reads an item's name: the result is an item exactly when the string is
/// that item's name, letter for letter. A string that names no item gives
/// nothing.
pub fn usa_item_from_str(s: &str) -> (item: Option<UsaItem>)
    ensures
        forall|i: UsaItem| item == Some(i) <==> s@ == #[trigger] usa_item_name(i),
{
    let item = if str_eq(s, "PM25_24H") {
        Some(UsaItem::PM25_24H)
    } else if str_eq(s, "PM10_24H") {
        Some(UsaItem::PM10_24H)
    } else if str_eq(s, "SO2_1H") {
        Some(UsaItem::SO2_1H)
    } else if str_eq(s, "SO2_24H") {
        Some(UsaItem::SO2_24H)
    } else if str_eq(s, "NO2_1H") {
        Some(UsaItem::NO2_1H)
    } else if str_eq(s, "CO_8H") {
        Some(UsaItem::CO_8H)
    } else if str_eq(s, "O3_8H") {
        Some(UsaItem::O3_8H)
    } else if str_eq(s, "O3_1H") {
        Some(UsaItem::O3_1H)
    } else {
        None
    };
    proof {
        if let Some(j) = item {
            assert(s@ == usa_item_name(j));
            assert forall|i: UsaItem| s@ == #[trigger] usa_item_name(i) implies i == j by {
                lemma_usa_item_names_distinct(i, j);
            }
        }
    }
    item
}

/// The sub-index of an item does not fall as the reading rises, within a
/// segment, from one segment to the next, and into saturation.
pub proof fn lemma_iaqi_usa_monotonic(item: UsaItem, conc1: int, conc2: int)
    requires
        conc1 <= conc2,
        iaqi_usa(item, conc1) is Some,
        iaqi_usa(item, conc2) is Some,
    ensures
        iaqi_usa(item, conc1)->0 <= iaqi_usa(item, conc2)->0,
{
    let table = usa_table(item);
    let c1 = truncate(conc1, usa_unit(item));
    let c2 = truncate(conc2, usa_unit(item));
    lemma_truncate_monotonic(conc1, conc2, usa_unit(item));
    lemma_usa_table_ordered(item);
    if c1 < usa_ceiling(item) {
        lemma_usa_table_covers(item, c1);
        lemma_first_covering(table, c1);
        let s1 = table[first_covering(table, c1)->0];
        lemma_scaled_bounds(s1.rise(), c1 - s1.conc_lo, s1.run());
        if c2 < usa_ceiling(item) {
            lemma_usa_table_covers(item, c2);
            lemma_table_monotonic(table, c1, c2);
        } else {
            assert(s1.index_hi <= INDEX_MAX);
        }
    }
}

/// At the upper end of each segment the sub-index is the segment's upper
/// index value.
pub proof fn lemma_usa_upper_ends(item: UsaItem, k: int)
    requires
        0 <= k < usa_table(item).len(),
    ensures
        iaqi_usa(item, usa_table(item)[k].conc_hi * usa_unit(item)) == Some(
            usa_table(item)[k].index_hi as int,
        ),
{
    let seg = usa_table(item)[k];
    lemma_truncate_exact(seg.conc_hi as int, usa_unit(item));
    lemma_usa_table_ordered(item);
    lemma_upper_end(usa_table(item), k);
}

/// At the lower end of each segment the sub-index is the segment's lower
/// index value.
///
/// Two published points are left out. The second segments of the CO and
/// the eight-hour ozone tables start where the first ones end, and that
/// concentration belongs to the first.
pub proof fn lemma_usa_lower_ends(item: UsaItem, k: int)
    requires
        0 <= k < usa_table(item).len(),
        !(item == UsaItem::CO_8H && k == 1),
        !(item == UsaItem::O3_8H && k == 1),
    ensures
        iaqi_usa(item, usa_table(item)[k].conc_lo * usa_unit(item)) == Some(
            usa_table(item)[k].index_lo as int,
        ),
{
    let seg = usa_table(item)[k];
    lemma_truncate_exact(seg.conc_lo as int, usa_unit(item));
    lemma_usa_table_ordered(item);
    lemma_lower_end(usa_table(item), k);
}

/// From the top of its table on, the sub-index of an item that saturates
/// is `INDEX_MAX`.
pub proof fn lemma_usa_saturation(item: UsaItem, conc: int)
    requires
        usa_saturates(item),
        conc >= usa_table(item).last().conc_hi * usa_unit(item),
    ensures
        iaqi_usa(item, conc) == Some(INDEX_MAX as int),
{
    let top = usa_table(item).last().conc_hi as int;
    lemma_truncate_exact(top, usa_unit(item));
    lemma_truncate_monotonic(top * usa_unit(item), conc, usa_unit(item));
}

/// Outside an item's domain there is no sub-index: below the floor of any
/// item, and from the ceiling on for an item that does not saturate. Inside
/// it there always is one.
pub proof fn lemma_usa_domain(item: UsaItem, conc: int)
    ensures
        iaqi_usa(item, conc) is Some <==> usa_in_domain(item, truncate(conc, usa_unit(item))),
{
    let c = truncate(conc, usa_unit(item));
    if usa_floor(item) <= c < usa_ceiling(item) {
        lemma_usa_table_covers(item, c);
    }
}

/// A pollutant is named primary exactly when its own sub-index is the
/// greatest one present: every pollutant tied at the maximum is named, and
/// no other.
pub proof fn lemma_primary_pollutants_usa(slots: Seq<Option<int>>, i: int)
    requires
        slots.len() == 6,
        0 <= i < 6,
    ensures
        primary_pollutants_usa(slots).contains(pollutant_names()[i]) <==> (slots[i] is Some
            && slots[i] == max_present(slots)),
        max_present(slots) is None ==> primary_pollutants_usa(slots).len() == 0,
{
    if let Some(m) = max_present(slots) {
        lemma_tied_pollutants(slots, m, i);
    }
}

/// No two items have the same name.
pub proof fn lemma_usa_item_names_distinct(a: UsaItem, b: UsaItem)
    requires
        usa_item_name(a) == usa_item_name(b),
    ensures
        a == b,
{
    let x = usa_item_name(a);
    let y = usa_item_name(b);
    // the length and three of the letters tell the names apart
    assert(x.len() == y.len() && x[0] == y[0] && x[2] == y[2] && x[3] == y[3]);
    lemma_usa_item_name_shape(a);
    lemma_usa_item_name_shape(b);
}

/// The length of an item's name and its first, third and fourth letters.
proof fn lemma_usa_item_name_shape(item: UsaItem)
    ensures
        match item {
            UsaItem::PM25_24H => usa_item_name(item).len() == 8 && usa_item_name(item)[0] == 'P'
                && usa_item_name(item)[2] == '2' && usa_item_name(item)[3] == '5',
            UsaItem::PM10_24H => usa_item_name(item).len() == 8 && usa_item_name(item)[0] == 'P'
                && usa_item_name(item)[2] == '1' && usa_item_name(item)[3] == '0',
            UsaItem::SO2_1H => usa_item_name(item).len() == 6 && usa_item_name(item)[0] == 'S'
                && usa_item_name(item)[2] == '2' && usa_item_name(item)[3] == '_',
            UsaItem::SO2_24H => usa_item_name(item).len() == 7 && usa_item_name(item)[0] == 'S'
                && usa_item_name(item)[2] == '2' && usa_item_name(item)[3] == '_',
            UsaItem::NO2_1H => usa_item_name(item).len() == 6 && usa_item_name(item)[0] == 'N'
                && usa_item_name(item)[2] == '2' && usa_item_name(item)[3] == '_',
            UsaItem::CO_8H => usa_item_name(item).len() == 5 && usa_item_name(item)[0] == 'C'
                && usa_item_name(item)[2] == '_' && usa_item_name(item)[3] == '8',
            UsaItem::O3_8H => usa_item_name(item).len() == 5 && usa_item_name(item)[0] == 'O'
                && usa_item_name(item)[2] == '_' && usa_item_name(item)[3] == '8',
            UsaItem::O3_1H => usa_item_name(item).len() == 5 && usa_item_name(item)[0] == 'O'
                && usa_item_name(item)[2] == '_' && usa_item_name(item)[3] == '1',
        },
{
    reveal_strlit("PM25_24H");
    reveal_strlit("PM10_24H");
    reveal_strlit("SO2_1H");
    reveal_strlit("SO2_24H");
    reveal_strlit("NO2_1H");
    reveal_strlit("CO_8H");
    reveal_strlit("O3_8H");
    reveal_strlit("O3_1H");
}

} // verus!
