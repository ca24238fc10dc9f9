//! The Chinese (GB 3095 / HJ 633) air quality index.
//!
//! Tables are published in whole units of concentration and held here in
//! millionths, the unit of a reading. The interpolated index is rounded up.

use vstd::hash_map::StringHashMap;
use vstd::prelude::*;
use vstd::string::*;
use crate::breakpoint::{
    covering_from, find_segment, first_covering, lemma_first_covering, lemma_lower_end,
    lemma_scaled_bounds, lemma_table_monotonic, lemma_upper_end, table_ordered, Breakpoint,
};
use crate::color::ColorEntry;
use crate::concentration::MICRO;
use crate::level::{level_for, level_of};
use crate::subindex::{
    highest_of_six, lemma_pollutant_names_distinct, lemma_tied_pollutants, max_present,
    names_tied_at, pollutant_names, texts, tied_names, widen, INDEX_MAX,
};
use crate::text::str_eq;

verus! {

/// Concentration, in whole units, above which the one-hour SO2 item and the
/// eight-hour ozone item stay at the top of their tables.
pub const CAPPED_ABOVE: i64 = 800;

/// Index of the one-hour SO2 item above `CAPPED_ABOVE`.
pub const SO2_1H_CAP: i32 = 200;

/// Index of the eight-hour ozone item above `CAPPED_ABOVE`.
pub const O3_8H_CAP: i32 = 300;

/// The highest index of good air. A set of sub-indices none of which is
/// above it has no primary pollutant.
pub const GOOD_MAX: i32 = 50;

/// A pollutant together with the window over which it was averaged.
#[derive(Clone, Copy, Debug, PartialEq, Eq)]
#[allow(non_camel_case_types)]
pub enum CnItem {
    PM25_1H,
    PM25_24H,
    PM10_1H,
    PM10_24H,
    SO2_1H,
    SO2_24H,
    NO2_1H,
    NO2_24H,
    CO_1H,
    CO_24H,
    O3_1H,
    O3_8H,
}

/// The segment between the published points `(conc_lo, index_lo)` and
/// `(conc_hi, index_hi)`, with the concentrations in millionths.
pub open spec fn published(conc_lo: i64, conc_hi: i64, index_lo: i32, index_hi: i32) -> Breakpoint {
    Breakpoint {
        conc_lo: (conc_lo * MICRO) as i64,
        conc_hi: (conc_hi * MICRO) as i64,
        index_lo,
        index_hi,
    }
}

/// Builds the segment between two published points whose concentrations
/// are given in whole units.
fn published_segment(conc_lo: i64, conc_hi: i64, index_lo: i32, index_hi: i32) -> (seg: Breakpoint)
    requires
        0 <= conc_lo <= 1_000_000,
        0 <= conc_hi <= 1_000_000,
    ensures
        seg == published(conc_lo, conc_hi, index_lo, index_hi),
{
    Breakpoint::new(conc_lo * MICRO, conc_hi * MICRO, index_lo, index_hi)
}

/// The table of an item, in millionths of the item's unit. PM2.5 and PM10
/// have one table for both windows.
pub open spec fn cn_table(item: CnItem) -> Seq<Breakpoint> {
    match item {
        CnItem::PM25_1H | CnItem::PM25_24H => seq![
            published(0, 35, 0, 50),
            published(35, 60, 50, 100),
            published(60, 115, 100, 150),
            published(115, 150, 150, 200),
            published(150, 250, 200, 300),
            published(250, 350, 300, 400),
            published(350, 500, 400, 500),
        ],
        CnItem::PM10_1H | CnItem::PM10_24H => seq![
            published(0, 50, 0, 50),
            published(50, 120, 50, 100),
            published(120, 250, 100, 150),
            published(250, 350, 150, 200),
            published(350, 420, 200, 300),
            published(420, 500, 300, 400),
            published(500, 600, 400, 500),
        ],
        CnItem::SO2_1H => seq![
            published(0, 150, 0, 50),
            published(150, 500, 50, 100),
            published(500, 650, 100, 150),
            published(650, 800, 150, 200),
        ],
        CnItem::SO2_24H => seq![
            published(0, 150, 0, 50),
            published(150, 500, 50, 100),
            published(500, 650, 100, 150),
            published(650, 800, 150, 200),
            published(800, 1600, 200, 300),
            published(1600, 2100, 300, 400),
            published(2100, 2620, 400, 500),
        ],
        CnItem::NO2_1H => seq![
            published(0, 100, 0, 50),
            published(100, 200, 50, 100),
            published(200, 700, 100, 150),
            published(700, 1200, 150, 200),
            published(1200, 2340, 200, 300),
            published(2340, 3090, 300, 400),
            published(3090, 3840, 400, 500),
        ],
        CnItem::NO2_24H => seq![
            published(0, 40, 0, 50),
            published(40, 80, 50, 100),
            published(80, 180, 100, 150),
            published(180, 280, 150, 200),
            published(280, 565, 200, 300),
            published(565, 750, 300, 400),
            published(750, 940, 400, 500),
        ],
        CnItem::CO_1H => seq![
            published(0, 5, 0, 50),
            published(5, 10, 50, 100),
            published(10, 35, 100, 150),
            published(35, 60, 150, 200),
            published(60, 90, 200, 300),
            published(90, 120, 300, 400),
            published(120, 150, 400, 500),
        ],
        CnItem::CO_24H => seq![
            published(0, 2, 0, 50),
            published(2, 4, 50, 100),
            published(4, 14, 100, 150),
            published(14, 24, 150, 200),
            published(24, 36, 200, 300),
            published(36, 48, 300, 400),
            published(48, 60, 400, 500),
        ],
        CnItem::O3_1H => seq![
            published(0, 160, 0, 50),
            published(160, 200, 50, 100),
            published(200, 300, 100, 150),
            published(300, 400, 150, 200),
            published(400, 800, 200, 300),
            published(800, 1000, 300, 400),
            published(1000, 1200, 400, 500),
        ],
        CnItem::O3_8H => seq![
            published(0, 100, 0, 50),
            published(100, 160, 50, 100),
            published(160, 215, 100, 150),
            published(215, 265, 150, 200),
            published(265, 800, 200, 300),
        ],
    }
}

/// The table of an item.
pub fn breakpoints_cn(item: CnItem) -> (table: Vec<Breakpoint>)
    ensures
        table@ == cn_table(item),
{
    match item {
        CnItem::PM25_1H | CnItem::PM25_24H => vec![
            published_segment(0, 35, 0, 50),
            published_segment(35, 60, 50, 100),
            published_segment(60, 115, 100, 150),
            published_segment(115, 150, 150, 200),
            published_segment(150, 250, 200, 300),
            published_segment(250, 350, 300, 400),
            published_segment(350, 500, 400, 500),
        ],
        CnItem::PM10_1H | CnItem::PM10_24H => vec![
            published_segment(0, 50, 0, 50),
            published_segment(50, 120, 50, 100),
            published_segment(120, 250, 100, 150),
            published_segment(250, 350, 150, 200),
            published_segment(350, 420, 200, 300),
            published_segment(420, 500, 300, 400),
            published_segment(500, 600, 400, 500),
        ],
        CnItem::SO2_1H => vec![
            published_segment(0, 150, 0, 50),
            published_segment(150, 500, 50, 100),
            published_segment(500, 650, 100, 150),
            published_segment(650, 800, 150, 200),
        ],
        CnItem::SO2_24H => vec![
            published_segment(0, 150, 0, 50),
            published_segment(150, 500, 50, 100),
            published_segment(500, 650, 100, 150),
            published_segment(650, 800, 150, 200),
            published_segment(800, 1600, 200, 300),
            published_segment(1600, 2100, 300, 400),
            published_segment(2100, 2620, 400, 500),
        ],
        CnItem::NO2_1H => vec![
            published_segment(0, 100, 0, 50),
            published_segment(100, 200, 50, 100),
            published_segment(200, 700, 100, 150),
            published_segment(700, 1200, 150, 200),
            published_segment(1200, 2340, 200, 300),
            published_segment(2340, 3090, 300, 400),
            published_segment(3090, 3840, 400, 500),
        ],
        CnItem::NO2_24H => vec![
            published_segment(0, 40, 0, 50),
            published_segment(40, 80, 50, 100),
            published_segment(80, 180, 100, 150),
            published_segment(180, 280, 150, 200),
            published_segment(280, 565, 200, 300),
            published_segment(565, 750, 300, 400),
            published_segment(750, 940, 400, 500),
        ],
        CnItem::CO_1H => vec![
            published_segment(0, 5, 0, 50),
            published_segment(5, 10, 50, 100),
            published_segment(10, 35, 100, 150),
            published_segment(35, 60, 150, 200),
            published_segment(60, 90, 200, 300),
            published_segment(90, 120, 300, 400),
            published_segment(120, 150, 400, 500),
        ],
        CnItem::CO_24H => vec![
            published_segment(0, 2, 0, 50),
            published_segment(2, 4, 50, 100),
            published_segment(4, 14, 100, 150),
            published_segment(14, 24, 150, 200),
            published_segment(24, 36, 200, 300),
            published_segment(36, 48, 300, 400),
            published_segment(48, 60, 400, 500),
        ],
        CnItem::O3_1H => vec![
            published_segment(0, 160, 0, 50),
            published_segment(160, 200, 50, 100),
            published_segment(200, 300, 100, 150),
            published_segment(300, 400, 150, 200),
            published_segment(400, 800, 200, 300),
            published_segment(800, 1000, 300, 400),
            published_segment(1000, 1200, 400, 500),
        ],
        CnItem::O3_8H => vec![
            published_segment(0, 100, 0, 50),
            published_segment(100, 160, 50, 100),
            published_segment(160, 215, 100, 150),
            published_segment(215, 265, 150, 200),
            published_segment(265, 800, 200, 300),
        ],
    }
}

/// The index that an item keeps above the top of its table.
pub open spec fn cn_top_index(item: CnItem) -> int {
    match item {
        CnItem::SO2_1H => SO2_1H_CAP as int,
        CnItem::O3_8H => O3_8H_CAP as int,
        _ => INDEX_MAX as int,
    }
}

/// The sub-index of an item at a reading in millionths of its unit.
///
/// A negative reading has no index. The one-hour SO2 item and the
/// eight-hour ozone item stay at the top of their tables above
/// `CAPPED_ABOVE`. Otherwise the first segment that covers the reading is
/// interpolated and the result rounded up; a reading above the whole table
/// gives `INDEX_MAX`.
pub open spec fn iaqi_cn(item: CnItem, conc: int) -> Option<int> {
    if conc < 0 {
        None
    } else if item == CnItem::SO2_1H && conc > CAPPED_ABOVE * MICRO {
        Some(SO2_1H_CAP as int)
    } else if item == CnItem::O3_8H && conc > CAPPED_ABOVE * MICRO {
        Some(O3_8H_CAP as int)
    } else {
        match first_covering(cn_table(item), conc) {
            Some(k) => Some(cn_table(item)[k].index_ceil(conc)),
            None => Some(INDEX_MAX as int),
        }
    }
}

/// Every table is ordered.
pub proof fn lemma_cn_table_ordered(item: CnItem)
    ensures
        table_ordered(cn_table(item)),
{
}

/// Computes the sub-index of `item` at `conc`, a reading in millionths of
/// the item's unit.
pub fn cal_iaqi_cn(item: CnItem, conc: i64) -> (index: Option<i32>)
    ensures
        widen(index) == iaqi_cn(item, conc as int),
        index is None <==> conc < 0,
        index matches Some(v) ==> 0 <= v <= INDEX_MAX,
{
    if conc < 0 {
        return None;
    }
    if matches!(item, CnItem::SO2_1H) && conc > CAPPED_ABOVE * MICRO {
        return Some(SO2_1H_CAP);
    }
    if matches!(item, CnItem::O3_8H) && conc > CAPPED_ABOVE * MICRO {
        return Some(O3_8H_CAP);
    }
    let table = breakpoints_cn(item);
    proof {
        lemma_cn_table_ordered(item);
        lemma_first_covering(cn_table(item), conc as int);
    }
    match find_segment(&table, conc) {
        Some(k) => Some(table[k].interpolate_ceil(conc)),
        None => Some(INDEX_MAX),
    }
}

/// Which averaging windows a set of readings was taken over.
#[derive(Clone, Copy, Debug, PartialEq, Eq)]
pub enum DataType {
    Hourly,
    Daily,
}

/// The items of the six pollutants for a kind of reading, in the order
/// PM2.5, PM10, SO2, NO2, CO, O3.
pub open spec fn cn_items(data_type: DataType) -> (CnItem, CnItem, CnItem, CnItem, CnItem, CnItem) {
    match data_type {
        DataType::Hourly => (
            CnItem::PM25_1H,
            CnItem::PM10_1H,
            CnItem::SO2_1H,
            CnItem::NO2_1H,
            CnItem::CO_1H,
            CnItem::O3_1H,
        ),
        DataType::Daily => (
            CnItem::PM25_24H,
            CnItem::PM10_24H,
            CnItem::SO2_24H,
            CnItem::NO2_24H,
            CnItem::CO_24H,
            CnItem::O3_8H,
        ),
    }
}

/// The sub-index of an item at a reading that may be missing.
pub open spec fn sub_index_cn(item: CnItem, reading: Option<i64>) -> Option<int> {
    match reading {
        Some(conc) => iaqi_cn(item, conc as int),
        None => None,
    }
}

/// One optional sub-index for each of the six pollutants.
pub struct CnIaqiMap {
    pub pm25: Option<i32>,
    pub pm10: Option<i32>,
    pub so2: Option<i32>,
    pub no2: Option<i32>,
    pub co: Option<i32>,
    pub o3: Option<i32>,
}

impl View for CnIaqiMap {
    type V = Seq<Option<int>>;

    /// The six sub-indices in the order PM2.5, PM10, SO2, NO2, CO, O3.
    open spec fn view(&self) -> Seq<Option<int>> {
        seq![
            widen(self.pm25),
            widen(self.pm10),
            widen(self.so2),
            widen(self.no2),
            widen(self.co),
            widen(self.o3),
        ]
    }
}

impl Clone for CnIaqiMap {
    fn clone(&self) -> (copy: CnIaqiMap)
        ensures
            copy == *self,
    {
        CnIaqiMap {
            pm25: self.pm25,
            pm10: self.pm10,
            so2: self.so2,
            no2: self.no2,
            co: self.co,
            o3: self.o3,
        }
    }
}

impl Default for CnIaqiMap {
    /// The set in which every sub-index is absent.
    fn default() -> (map: CnIaqiMap)
        ensures
            map@ == Seq::new(6, |i: int| None::<int>),
    {
        let map = CnIaqiMap { pm25: None, pm10: None, so2: None, no2: None, co: None, o3: None };
        assert(map@ =~= Seq::new(6, |i: int| None::<int>));
        map
    }
}

impl CnIaqiMap {
    /// The six sub-indices keyed by the names of their pollutants.
    ///
    /// The map is vstd's `StringHashMap`: vstd gives `String` keys of a std
    /// `HashMap` no key model, so nothing could be said of what such a map
    /// holds. To walk the sub-indices, read the six fields.
    pub fn to_dict(&self) -> (dict: StringHashMap<Option<i32>>)
        ensures
            dict@.dom() == pollutant_names().to_set(),
            forall|i: int| 0 <= i < 6 ==> widen(#[trigger] dict@[pollutant_names()[i]]) == self@[i],
    {
        let mut m: StringHashMap<Option<i32>> = StringHashMap::new();
        m.insert(String::from_str("PM2.5"), self.pm25);
        m.insert(String::from_str("PM10"), self.pm10);
        m.insert(String::from_str("SO2"), self.so2);
        m.insert(String::from_str("NO2"), self.no2);
        m.insert(String::from_str("CO"), self.co);
        m.insert(String::from_str("O3"), self.o3);
        proof {
            lemma_pollutant_names_distinct();
            let names = pollutant_names();
            assert(m@.dom() =~= names.to_set()) by {
                assert forall|k: Seq<char>| names.to_set().contains(k) implies m@.dom().contains(
                    k,
                ) by {
                    let i = choose|i: int| 0 <= i < names.len() && names[i] == k;
                    assert(0 <= i < 6);
                }
                assert forall|k: Seq<char>| m@.dom().contains(k) implies names.to_set().contains(
                    k,
                ) by {
                    assert(k == names[0] || k == names[1] || k == names[2] || k == names[3] || k
                        == names[4] || k == names[5]);
                }
            }
        }
        m
    }

    /// The greatest sub-index that is present.
    pub fn max_iaqi(&self) -> (max: Option<i32>)
        ensures
            widen(max) == max_present(self@),
    {
        highest_of_six(self.pm25, self.pm10, self.so2, self.no2, self.co, self.o3)
    }
}

/// The sub-index of `item` at a reading that may be missing.
fn sub_index(item: CnItem, reading: Option<i64>) -> (index: Option<i32>)
    ensures
        widen(index) == sub_index_cn(item, reading),
{
    match reading {
        Some(conc) => cal_iaqi_cn(item, conc),
        None => None,
    }
}

/// Computes the six sub-indices of a set of readings, each in millionths of
/// its pollutant's unit, and the overall index: the greatest sub-index that
/// is present. `data_type` picks the averaging window of every pollutant.
pub fn cal_aqi_cn(
    pm25: Option<i64>,
    pm10: Option<i64>,
    so2: Option<i64>,
    no2: Option<i64>,
    co: Option<i64>,
    o3: Option<i64>,
    data_type: DataType,
) -> (result: (Option<i32>, CnIaqiMap))
    ensures
        widen(result.1.pm25) == sub_index_cn(cn_items(data_type).0, pm25),
        widen(result.1.pm10) == sub_index_cn(cn_items(data_type).1, pm10),
        widen(result.1.so2) == sub_index_cn(cn_items(data_type).2, so2),
        widen(result.1.no2) == sub_index_cn(cn_items(data_type).3, no2),
        widen(result.1.co) == sub_index_cn(cn_items(data_type).4, co),
        widen(result.1.o3) == sub_index_cn(cn_items(data_type).5, o3),
        widen(result.0) == max_present(result.1@),
{
    let (pm25_item, pm10_item, so2_item, no2_item, co_item, o3_item) = match data_type {
        DataType::Hourly => (
            CnItem::PM25_1H,
            CnItem::PM10_1H,
            CnItem::SO2_1H,
            CnItem::NO2_1H,
            CnItem::CO_1H,
            CnItem::O3_1H,
        ),
        DataType::Daily => (
            CnItem::PM25_24H,
            CnItem::PM10_24H,
            CnItem::SO2_24H,
            CnItem::NO2_24H,
            CnItem::CO_24H,
            CnItem::O3_8H,
        ),
    };
    let iaqi = CnIaqiMap {
        pm25: sub_index(pm25_item, pm25),
        pm10: sub_index(pm10_item, pm10),
        so2: sub_index(so2_item, so2),
        no2: sub_index(no2_item, no2),
        co: sub_index(co_item, co),
        o3: sub_index(o3_item, o3),
    };
    let aqi = iaqi.max_iaqi();
    (aqi, iaqi)
}

/// The level of an overall index from 0 to 500; any other index has none.
pub fn get_aqi_level_cn(aqi: i32) -> (level: Option<i32>)
    ensures
        level is Some <==> 0 <= aqi <= 500,
        level matches Some(l) ==> l == level_of(aqi as int),
{
    if aqi < 0 || aqi > 500 {
        return None;
    }
    Some(level_for(aqi))
}

/// The RGB triple of a level.
pub open spec fn cn_rgb(level: int) -> (int, int, int) {
    if level == 1 {
        (0, 228, 0)
    } else if level == 2 {
        (255, 255, 0)
    } else if level == 3 {
        (255, 126, 0)
    } else if level == 4 {
        (255, 0, 0)
    } else if level == 5 {
        (153, 0, 76)
    } else {
        (126, 0, 35)
    }
}

/// The CMYK quadruple of a level.
pub open spec fn cn_cmyk(level: int) -> (int, int, int, int) {
    if level == 1 {
        (40, 0, 100, 0)
    } else if level == 2 {
        (0, 0, 100, 0)
    } else if level == 3 {
        (0, 52, 100, 0)
    } else if level == 4 {
        (0, 100, 100, 0)
    } else if level == 5 {
        (10, 100, 40, 30)
    } else {
        (30, 100, 100, 30)
    }
}

/// The hexadecimal rendering of a level's RGB colour.
pub open spec fn cn_rgb_hex(level: int) -> Seq<char> {
    if level == 1 {
        "#00E400"@
    } else if level == 2 {
        "#FFFF00"@
    } else if level == 3 {
        "#FF7E00"@
    } else if level == 4 {
        "#FF0000"@
    } else if level == 5 {
        "#99004C"@
    } else {
        "#7E0023"@
    }
}

/// The hexadecimal rendering of a level's CMYK colour.
pub open spec fn cn_cmyk_hex(level: int) -> Seq<char> {
    if level == 1 {
        "#99FF00"@
    } else if level == 2 {
        "#FFFF00"@
    } else if level == 3 {
        "#FF7A00"@
    } else if level == 4 {
        "#FF0000"@
    } else if level == 5 {
        "#A0006B"@
    } else {
        "#7C0000"@
    }
}

/// The colour of a level from 1 to 6; other levels have none.
pub open spec fn cn_color(level: int) -> Option<ColorEntry> {
    if 1 <= level <= 6 {
        Some(
            ColorEntry {
                rgb: cn_rgb(level),
                cmyk: cn_cmyk(level),
                rgb_hex: cn_rgb_hex(level),
                cmyk_hex: cn_cmyk_hex(level),
            },
        )
    } else {
        None
    }
}

/// The colour of a level in every encoding.
#[derive(Debug, PartialEq)]
pub struct ColorValue {
    pub rgb: (i32, i32, i32),
    pub cmyk: (i32, i32, i32, i32),
    pub rgb_hex: String,
    pub cmyk_hex: String,
}

impl View for ColorValue {
    type V = ColorEntry;

    open spec fn view(&self) -> ColorEntry {
        ColorEntry {
            rgb: (self.rgb.0 as int, self.rgb.1 as int, self.rgb.2 as int),
            cmyk: (self.cmyk.0 as int, self.cmyk.1 as int, self.cmyk.2 as int, self.cmyk.3 as int),
            rgb_hex: self.rgb_hex@,
            cmyk_hex: self.cmyk_hex@,
        }
    }
}

impl Clone for ColorValue {
    fn clone(&self) -> (copy: ColorValue)
        ensures
            copy@ == self@,
    {
        ColorValue {
            rgb: self.rgb,
            cmyk: self.cmyk,
            rgb_hex: self.rgb_hex.clone(),
            cmyk_hex: self.cmyk_hex.clone(),
        }
    }
}

/// Looks up the colour of a level from 1 to 6. The record holds every
/// encoding; `_color_type` names the one the caller will read and does not
/// change the record.
pub fn get_aqi_level_color_cn(level: i32, _color_type: &str) -> (color: Option<ColorValue>)
    ensures
        color is Some <==> 1 <= level <= 6,
        match color {
            Some(c) => cn_color(level as int) == Some(c@),
            None => cn_color(level as int) is None,
        },
{
    if level < 1 || level > 6 {
        return None;
    }
    let rgb: (i32, i32, i32) = match level {
        1 => (0, 228, 0),
        2 => (255, 255, 0),
        3 => (255, 126, 0),
        4 => (255, 0, 0),
        5 => (153, 0, 76),
        _ => (126, 0, 35),
    };
    let cmyk: (i32, i32, i32, i32) = match level {
        1 => (40, 0, 100, 0),
        2 => (0, 0, 100, 0),
        3 => (0, 52, 100, 0),
        4 => (0, 100, 100, 0),
        5 => (10, 100, 40, 30),
        _ => (30, 100, 100, 30),
    };
    let rgb_hex = match level {
        1 => "#00E400",
        2 => "#FFFF00",
        3 => "#FF7E00",
        4 => "#FF0000",
        5 => "#99004C",
        _ => "#7E0023",
    };
    let cmyk_hex = match level {
        1 => "#99FF00",
        2 => "#FFFF00",
        3 => "#FF7A00",
        4 => "#FF0000",
        5 => "#A0006B",
        _ => "#7C0000",
    };
    Some(
        ColorValue {
            rgb,
            cmyk,
            rgb_hex: String::from_str(rgb_hex),
            cmyk_hex: String::from_str(cmyk_hex),
        },
    )
}

/// The primary pollutants of a set of sub-indices: every pollutant whose
/// sub-index is the greatest one present, provided that is above 50. With
/// no sub-index present, or none above 50, there is none.
pub open spec fn primary_pollutants_cn(slots: Seq<Option<int>>) -> Seq<Seq<char>> {
    match max_present(slots) {
        Some(m) => if m > GOOD_MAX {
            tied_names(slots, pollutant_names(), m)
        } else {
            Seq::empty()
        },
        None => Seq::empty(),
    }
}

/// Names the primary pollutants of a set of sub-indices, in the order
/// PM2.5, PM10, SO2, NO2, CO, O3.
pub fn cal_primary_pollutant_cn(iaqi: &CnIaqiMap) -> (names: Vec<String>)
    ensures
        texts(names@) == primary_pollutants_cn(iaqi@),
{
    let max_iaqi = match iaqi.max_iaqi() {
        Some(m) => m,
        None => {
            let none: Vec<String> = Vec::new();
            assert(texts(none@) =~= Seq::<Seq<char>>::empty());
            return none;
        },
    };
    if max_iaqi <= GOOD_MAX {
        let none: Vec<String> = Vec::new();
        assert(texts(none@) =~= Seq::<Seq<char>>::empty());
        return none;
    }
    names_tied_at(iaqi.pm25, iaqi.pm10, iaqi.so2, iaqi.no2, iaqi.co, iaqi.o3, max_iaqi)
}

/// The name by which an item is known.
pub open spec fn cn_item_name(item: CnItem) -> Seq<char> {
    match item {
        CnItem::PM25_1H => "PM25_1H"@,
        CnItem::PM25_24H => "PM25_24H"@,
        CnItem::PM10_1H => "PM10_1H"@,
        CnItem::PM10_24H => "PM10_24H"@,
        CnItem::SO2_1H => "SO2_1H"@,
        CnItem::SO2_24H => "SO2_24H"@,
        CnItem::NO2_1H => "NO2_1H"@,
        CnItem::NO2_24H => "NO2_24H"@,
        CnItem::CO_1H => "CO_1H"@,
        CnItem::CO_24H => "CO_24H"@,
        CnItem::O3_1H => "O3_1H"@,
        CnItem::O3_8H => "O3_8H"@,
    }
}

/// Reads an item's name: the result is an item exactly when the string is
/// that item's name, letter for letter. A string that names no item gives
/// nothing.
pub fn cn_item_from_str(s: &str) -> (item: Option<CnItem>)
    ensures
        forall|i: CnItem| item == Some(i) <==> s@ == #[trigger] cn_item_name(i),
{
    let item = if str_eq(s, "PM25_1H") {
        Some(CnItem::PM25_1H)
    } else if str_eq(s, "PM25_24H") {
        Some(CnItem::PM25_24H)
    } else if str_eq(s, "PM10_1H") {
        Some(CnItem::PM10_1H)
    } else if str_eq(s, "PM10_24H") {
        Some(CnItem::PM10_24H)
    } else if str_eq(s, "SO2_1H") {
        Some(CnItem::SO2_1H)
    } else if str_eq(s, "SO2_24H") {
        Some(CnItem::SO2_24H)
    } else if str_eq(s, "NO2_1H") {
        Some(CnItem::NO2_1H)
    } else if str_eq(s, "NO2_24H") {
        Some(CnItem::NO2_24H)
    } else if str_eq(s, "CO_1H") {
        Some(CnItem::CO_1H)
    } else if str_eq(s, "CO_24H") {
        Some(CnItem::CO_24H)
    } else if str_eq(s, "O3_1H") {
        Some(CnItem::O3_1H)
    } else if str_eq(s, "O3_8H") {
        Some(CnItem::O3_8H)
    } else {
        None
    };
    proof {
        if let Some(j) = item {
            assert(s@ == cn_item_name(j));
            assert forall|i: CnItem| s@ == #[trigger] cn_item_name(i) implies i == j by {
                lemma_cn_item_names_distinct(i, j);
            }
        }
    }
    item
}

/// The name by which a kind of reading is known.
pub open spec fn data_type_name(data_type: DataType) -> Seq<char> {
    match data_type {
        DataType::Hourly => "hourly"@,
        DataType::Daily => "daily"@,
    }
}

/// The two kinds of reading have different names.
pub proof fn lemma_data_type_names_distinct(a: DataType, b: DataType)
    requires
        data_type_name(a) == data_type_name(b),
    ensures
        a == b,
{
    reveal_strlit("hourly");
    reveal_strlit("daily");
    // the names have 6 and 5 letters
    assert("hourly"@.len() == 6 && "daily"@.len() == 5);
    assert(data_type_name(a).len() == data_type_name(b).len());
}

/// Reads the name of a kind of reading: the result is a kind exactly when
/// the string is that kind's name, `hourly` or `daily`.
pub fn data_type_from_str(s: &str) -> (data_type: Option<DataType>)
    ensures
        forall|d: DataType| data_type == Some(d) <==> s@ == #[trigger] data_type_name(d),
{
    let data_type = if str_eq(s, "hourly") {
        Some(DataType::Hourly)
    } else if str_eq(s, "daily") {
        Some(DataType::Daily)
    } else {
        None
    };
    proof {
        if let Some(found) = data_type {
            assert(s@ == data_type_name(found));
            assert forall|d: DataType| s@ == #[trigger] data_type_name(d) implies d == found by {
                lemma_data_type_names_distinct(d, found);
            }
        }
    }
    data_type
}

/// From zero to the top of an item's table every reading lies in some
/// segment.
pub proof fn lemma_cn_table_covers(item: CnItem, conc: int)
    requires
        0 <= conc <= cn_table(item).last().conc_hi,
    ensures
        first_covering(cn_table(item), conc) is Some,
{
    reveal_with_fuel(covering_from, 8);
}

/// The sub-index of an item does not fall as the reading rises, within a
/// segment, from one segment to the next, and above the table.
pub proof fn lemma_iaqi_cn_monotonic(item: CnItem, conc1: int, conc2: int)
    requires
        0 <= conc1 <= conc2,
    ensures
        iaqi_cn(item, conc1)->0 <= iaqi_cn(item, conc2)->0,
{
    let table = cn_table(item);
    let top = table.last().conc_hi as int;
    lemma_cn_table_ordered(item);
    if conc1 <= top {
        lemma_cn_table_covers(item, conc1);
        lemma_first_covering(table, conc1);
        let s1 = table[first_covering(table, conc1)->0];
        lemma_scaled_bounds(s1.rise(), conc1 - s1.conc_lo, s1.run());
        assert(s1.index_hi <= cn_top_index(item));
        if conc2 <= top {
            lemma_cn_table_covers(item, conc2);
            lemma_table_monotonic(table, conc1, conc2);
        } else {
            lemma_cn_saturation(item, conc2);
        }
    } else {
        lemma_cn_saturation(item, conc1);
        lemma_cn_saturation(item, conc2);
    }
}

/// At both ends of each segment the sub-index is the segment's index value
/// there. Where two segments share an end the lower one decides, and it
/// gives the same value.
pub proof fn lemma_cn_segment_ends(item: CnItem, k: int)
    requires
        0 <= k < cn_table(item).len(),
    ensures
        iaqi_cn(item, cn_table(item)[k].conc_lo as int) == Some(
            cn_table(item)[k].index_lo as int,
        ),
        iaqi_cn(item, cn_table(item)[k].conc_hi as int) == Some(
            cn_table(item)[k].index_hi as int,
        ),
{
    let table = cn_table(item);
    lemma_cn_table_ordered(item);
    lemma_upper_end(table, k);
    lemma_lower_end(table, k);
    if k > 0 {
        lemma_upper_end(table, k - 1);
        assert(table[k - 1].index_hi == table[k].index_lo);
    }
}

/// From the top of its table on, the sub-index of an item is the index at
/// the top: `SO2_1H_CAP` for the one-hour SO2 item, `O3_8H_CAP` for the
/// eight-hour ozone item, `INDEX_MAX` for every other.
pub proof fn lemma_cn_saturation(item: CnItem, conc: int)
    requires
        conc >= cn_table(item).last().conc_hi,
    ensures
        cn_top_index(item) == cn_table(item).last().index_hi,
        iaqi_cn(item, conc) == Some(cn_top_index(item)),
{
    let table = cn_table(item);
    lemma_cn_table_ordered(item);
    lemma_upper_end(table, table.len() - 1);
    lemma_first_covering(table, conc);
}

/// A pollutant is named primary exactly when its own sub-index is the
/// greatest one present and above `GOOD_MAX`: every pollutant tied at the
/// maximum is named, and no other.
pub proof fn lemma_primary_pollutants_cn(slots: Seq<Option<int>>, i: int)
    requires
        slots.len() == 6,
        0 <= i < 6,
    ensures
        primary_pollutants_cn(slots).contains(pollutant_names()[i]) <==> (slots[i] is Some
            && slots[i] == max_present(slots) && slots[i]->0 > GOOD_MAX),
        max_present(slots) is None ==> primary_pollutants_cn(slots).len() == 0,
        max_present(slots) matches Some(m) && m <= GOOD_MAX ==> primary_pollutants_cn(slots).len()
            == 0,
{
    if let Some(m) = max_present(slots) {
        lemma_tied_pollutants(slots, m, i);
    }
}

/// No two items have the same name.
pub proof fn lemma_cn_item_names_distinct(a: CnItem, b: CnItem)
    requires
        cn_item_name(a) == cn_item_name(b),
    ensures
        a == b,
{
    let x = cn_item_name(a);
    let y = cn_item_name(b);
    // the length and three of the letters tell the names apart
    assert(x.len() == y.len() && x[0] == y[0] && x[2] == y[2] && x[3] == y[3]);
    lemma_cn_item_name_shape(a);
    lemma_cn_item_name_shape(b);
}

/// The length of an item's name and its first, third and fourth letters.
proof fn lemma_cn_item_name_shape(item: CnItem)
    ensures
        match item {
            CnItem::PM25_1H => cn_item_name(item).len() == 7 && cn_item_name(item)[0] == 'P'
                && cn_item_name(item)[2] == '2' && cn_item_name(item)[3] == '5',
            CnItem::PM25_24H => cn_item_name(item).len() == 8 && cn_item_name(item)[0] == 'P'
                && cn_item_name(item)[2] == '2' && cn_item_name(item)[3] == '5',
            CnItem::PM10_1H => cn_item_name(item).len() == 7 && cn_item_name(item)[0] == 'P'
                && cn_item_name(item)[2] == '1' && cn_item_name(item)[3] == '0',
            CnItem::PM10_24H => cn_item_name(item).len() == 8 && cn_item_name(item)[0] == 'P'
                && cn_item_name(item)[2] == '1' && cn_item_name(item)[3] == '0',
            CnItem::SO2_1H => cn_item_name(item).len() == 6 && cn_item_name(item)[0] == 'S'
                && cn_item_name(item)[2] == '2' && cn_item_name(item)[3] == '_',
            CnItem::SO2_24H => cn_item_name(item).len() == 7 && cn_item_name(item)[0] == 'S'
                && cn_item_name(item)[2] == '2' && cn_item_name(item)[3] == '_',
            CnItem::NO2_1H => cn_item_name(item).len() == 6 && cn_item_name(item)[0] == 'N'
                && cn_item_name(item)[2] == '2' && cn_item_name(item)[3] == '_',
            CnItem::NO2_24H => cn_item_name(item).len() == 7 && cn_item_name(item)[0] == 'N'
                && cn_item_name(item)[2] == '2' && cn_item_name(item)[3] == '_',
            CnItem::CO_1H => cn_item_name(item).len() == 5 && cn_item_name(item)[0] == 'C'
                && cn_item_name(item)[2] == '_' && cn_item_name(item)[3] == '1',
            CnItem::CO_24H => cn_item_name(item).len() == 6 && cn_item_name(item)[0] == 'C'
                && cn_item_name(item)[2] == '_' && cn_item_name(item)[3] == '2',
            CnItem::O3_1H => cn_item_name(item).len() == 5 && cn_item_name(item)[0] == 'O'
                && cn_item_name(item)[2] == '_' && cn_item_name(item)[3] == '1',
            CnItem::O3_8H => cn_item_name(item).len() == 5 && cn_item_name(item)[0] == 'O'
                && cn_item_name(item)[2] == '_' && cn_item_name(item)[3] == '8',
        },
{
    reveal_strlit("PM25_1H");
    reveal_strlit("PM25_24H");
    reveal_strlit("PM10_1H");
    reveal_strlit("PM10_24H");
    reveal_strlit("SO2_1H");
    reveal_strlit("SO2_24H");
    reveal_strlit("NO2_1H");
    reveal_strlit("NO2_24H");
    reveal_strlit("CO_1H");
    reveal_strlit("CO_24H");
    reveal_strlit("O3_1H");
    reveal_strlit("O3_8H");
}

} // verus!
