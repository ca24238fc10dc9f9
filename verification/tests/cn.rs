use aqi_hub::cn::{
    cal_aqi_cn, cal_iaqi_cn, cal_primary_pollutant_cn, cn_item_from_str, data_type_from_str,
    get_aqi_level_cn, get_aqi_level_color_cn, CnIaqiMap, CnItem, ColorValue, DataType,
};

/// A concentration as a reading: millionths of the unit, to the nearest.
fn cn_reading(value: f64) -> i64 {
    (value * 1_000_000.0).round() as i64
}

fn cn_iaqi(item: CnItem, value: f64) -> Option<i32> {
    cal_iaqi_cn(item, cn_reading(value))
}

#[test]
fn test_pm25_iaqi() {
    assert_eq!(cn_iaqi(CnItem::PM25_24H, 0.), Some(0));
    assert_eq!(cn_iaqi(CnItem::PM25_24H, 35.), Some(50));
    assert_eq!(cn_iaqi(CnItem::PM25_24H, 60.), Some(100));
    assert_eq!(cn_iaqi(CnItem::PM25_24H, 75.), Some(114));
    assert_eq!(cn_iaqi(CnItem::PM25_1H, 59.), Some(98));
    assert_eq!(cn_iaqi(CnItem::PM25_1H, 60.), Some(100));
    assert_eq!(cn_iaqi(CnItem::PM25_24H, 500.), Some(500));
    assert_eq!(cn_iaqi(CnItem::PM25_24H, 600.), Some(500));
}

#[test]
fn test_pm10_iaqi() {
    for &(v, exp) in &[
        (0., 0),
        (50., 50),
        (120., 100),
        (150., 112),
        (250., 150),
        (350., 200),
        (420., 300),
        (500., 400),
        (600., 500),
    ] {
        assert_eq!(cn_iaqi(CnItem::PM10_24H, v), Some(exp), "PM10_24H {} -> {}", v, exp);
        assert_eq!(cn_iaqi(CnItem::PM10_1H, v), Some(exp), "PM10_1H {} -> {}", v, exp);
    }
}

#[test]
fn test_so2_24h_iaqi() {
    for &(v, exp) in &[
        (0., 0),
        (150., 50),
        (500., 100),
        (650., 150),
        (800., 200),
        (1600., 300),
        (2100., 400),
        (2620., 500),
        (3000., 500),
    ] {
        assert_eq!(cn_iaqi(CnItem::SO2_24H, v), Some(exp), "SO2_24H {} -> {}", v, exp);
    }
}

#[test]
fn test_so2_1h_iaqi() {
    for &(v, exp) in &[
        (0., 0),
        (150., 50),
        (500., 100),
        (650., 150),
        (800., 200),
        (1600., 200),
        (2100., 200),
        (2620., 200),
        (3000., 200),
    ] {
        assert_eq!(cn_iaqi(CnItem::SO2_1H, v), Some(exp), "SO2_1H {} -> {}", v, exp);
    }
}

#[test]
fn test_no2_24h_iaqi() {
    for &(v, exp) in &[
        (0., 0),
        (40., 50),
        (80., 100),
        (180., 150),
        (280., 200),
        (565., 300),
        (750., 400),
        (940., 500),
        (1000., 500),
    ] {
        assert_eq!(cn_iaqi(CnItem::NO2_24H, v), Some(exp), "NO2_24H {} -> {}", v, exp);
    }
}

#[test]
fn test_no2_1h_iaqi() {
    for &(v, exp) in &[
        (0., 0),
        (100., 50),
        (200., 100),
        (700., 150),
        (1200., 200),
        (2340., 300),
        (3090., 400),
        (3840., 500),
        (4000., 500),
    ] {
        assert_eq!(cn_iaqi(CnItem::NO2_1H, v), Some(exp), "NO2_1H {} -> {}", v, exp);
    }
}

#[test]
fn test_co_24h_iaqi() {
    for &(v, exp) in &[
        (0., 0),
        (2., 50),
        (4., 100),
        (14., 150),
        (24., 200),
        (36., 300),
        (48., 400),
        (60., 500),
        (100., 500),
    ] {
        assert_eq!(cn_iaqi(CnItem::CO_24H, v), Some(exp), "CO_24H {} -> {}", v, exp);
    }
}

#[test]
fn test_co_1h_iaqi() {
    for &(v, exp) in &[
        (0., 0),
        (5., 50),
        (10., 100),
        (35., 150),
        (60., 200),
        (90., 300),
        (120., 400),
        (150., 500),
        (200., 500),
    ] {
        assert_eq!(cn_iaqi(CnItem::CO_1H, v), Some(exp), "CO_1H {} -> {}", v, exp);
    }
}

#[test]
fn test_o3_1h_iaqi() {
    for &(v, exp) in &[
        (0., 0),
        (160., 50),
        (200., 100),
        (300., 150),
        (400., 200),
        (800., 300),
        (1000., 400),
        (1200., 500),
        (1500., 500),
        (2000., 500),
    ] {
        assert_eq!(cn_iaqi(CnItem::O3_1H, v), Some(exp), "O3_1H {} -> {}", v, exp);
    }
}

#[test]
fn test_o3_8h_iaqi() {
    for &(v, exp) in &[
        (0., 0),
        (100., 50),
        (160., 100),
        (215., 150),
        (265., 200),
        (800., 300),
        (1000., 300),
        (1200., 300),
        (1500., 300),
    ] {
        assert_eq!(cn_iaqi(CnItem::O3_8H, v), Some(exp), "O3_8H {} -> {}", v, exp);
    }
}

#[test]
fn test_so2_1h_over_800() {
    assert_eq!(cn_iaqi(CnItem::SO2_1H, 801.), Some(200));
}

#[test]
fn test_o3_8h_over_800() {
    assert_eq!(cn_iaqi(CnItem::O3_8H, 1000.), Some(300));
}

#[test]
fn test_iaqi_cn_negative_returns_none() {
    assert_eq!(cn_iaqi(CnItem::PM25_24H, -1.), None);
}

#[test]
fn test_cal_aqi_cn_hourly() {
    let (aqi, iaqi) = cal_aqi_cn(
        Some(cn_reading(35.)),
        Some(cn_reading(50.)),
        Some(cn_reading(150.)),
        Some(cn_reading(100.)),
        Some(cn_reading(5.)),
        Some(cn_reading(160.)),
        DataType::Hourly,
    );
    assert_eq!(aqi, Some(50));
    assert_eq!(iaqi.pm25, Some(50));
    assert_eq!(iaqi.o3, Some(50));
}

#[test]
fn test_cal_aqi_cn_daily() {
    let (aqi, iaqi) = cal_aqi_cn(
        Some(cn_reading(35.)),
        Some(cn_reading(50.)),
        Some(cn_reading(150.)),
        Some(cn_reading(40.)),
        Some(cn_reading(2.)),
        Some(cn_reading(100.)),
        DataType::Daily,
    );
    assert_eq!(aqi, Some(50));
    assert_eq!(iaqi.o3, Some(50));
}

#[test]
fn test_get_aqi_level_cn_valid() {
    let cases = [
        (0, 1),
        (25, 1),
        (50, 1),
        (51, 2),
        (75, 2),
        (100, 2),
        (101, 3),
        (125, 3),
        (150, 3),
        (151, 4),
        (175, 4),
        (200, 4),
        (201, 5),
        (250, 5),
        (300, 5),
        (301, 6),
        (400, 6),
        (500, 6),
    ];
    for (aqi, level) in cases {
        assert_eq!(get_aqi_level_cn(aqi), Some(level), "aqi {} -> level {}", aqi, level);
    }
}

#[test]
fn test_get_aqi_level_cn_invalid_returns_none() {
    assert_eq!(get_aqi_level_cn(-1), None);
    assert_eq!(get_aqi_level_cn(501), None);
    assert_eq!(get_aqi_level_cn(600), None);
}

#[test]
fn test_get_aqi_level_color_cn() {
    assert_eq!(
        get_aqi_level_color_cn(1, "RGB"),
        Some(ColorValue {
            rgb: (0, 228, 0),
            cmyk: (40, 0, 100, 0),
            rgb_hex: "#00E400".into(),
            cmyk_hex: "#99FF00".into()
        })
    );
    assert_eq!(
        get_aqi_level_color_cn(2, "RGB"),
        Some(ColorValue {
            rgb: (255, 255, 0),
            cmyk: (0, 0, 100, 0),
            rgb_hex: "#FFFF00".into(),
            cmyk_hex: "#FFFF00".into()
        })
    );
    assert_eq!(
        get_aqi_level_color_cn(6, "RGB_HEX").map(|c| c.rgb_hex),
        Some("#7E0023".into())
    );
    assert_eq!(
        get_aqi_level_color_cn(1, "CMYK_HEX").map(|c| c.cmyk_hex),
        Some("#99FF00".into())
    );
    assert_eq!(get_aqi_level_color_cn(0, "RGB"), None);
    assert_eq!(get_aqi_level_color_cn(7, "RGB"), None);
}

#[test]
fn test_cal_primary_pollutant_cn() {
    let map = CnIaqiMap {
        pm25: Some(150),
        pm10: Some(75),
        so2: Some(50),
        no2: Some(100),
        co: Some(80),
        o3: Some(120),
    };
    assert_eq!(cal_primary_pollutant_cn(&map), vec!["PM2.5"]);

    let map2 = CnIaqiMap {
        pm25: Some(200),
        pm10: Some(200),
        so2: Some(150),
        no2: Some(180),
        co: Some(160),
        o3: Some(200),
    };
    let mut r = cal_primary_pollutant_cn(&map2);
    r.sort();
    assert_eq!(r, ["O3", "PM10", "PM2.5"]);

    let map3 = CnIaqiMap {
        pm25: Some(100),
        pm10: Some(100),
        so2: Some(100),
        no2: Some(100),
        co: Some(100),
        o3: Some(100),
    };
    let mut r3 = cal_primary_pollutant_cn(&map3);
    r3.sort();
    assert_eq!(r3, ["CO", "NO2", "O3", "PM10", "PM2.5", "SO2"]);

    let empty = CnIaqiMap::default();
    assert!(cal_primary_pollutant_cn(&empty).is_empty());

    let all_low = CnIaqiMap {
        pm25: Some(50),
        pm10: Some(40),
        so2: None,
        no2: None,
        co: None,
        o3: None,
    };
    assert!(cal_primary_pollutant_cn(&all_low).is_empty());
}

#[test]
fn test_cn_item_from_str() {
    assert!(cn_item_from_str("PM25_24H").is_some());
    assert!(cn_item_from_str("INVALID").is_none());
}

// ---- further cases ----

const CN_ITEMS: [(&str, CnItem); 12] = [
    ("PM25_1H", CnItem::PM25_1H),
    ("PM25_24H", CnItem::PM25_24H),
    ("PM10_1H", CnItem::PM10_1H),
    ("PM10_24H", CnItem::PM10_24H),
    ("SO2_1H", CnItem::SO2_1H),
    ("SO2_24H", CnItem::SO2_24H),
    ("NO2_1H", CnItem::NO2_1H),
    ("NO2_24H", CnItem::NO2_24H),
    ("CO_1H", CnItem::CO_1H),
    ("CO_24H", CnItem::CO_24H),
    ("O3_1H", CnItem::O3_1H),
    ("O3_8H", CnItem::O3_8H),
];

#[test]
fn cn_item_names_round_trip() {
    for (name, item) in CN_ITEMS {
        assert_eq!(cn_item_from_str(name), Some(item), "{}", name);
    }
}

#[test]
fn cn_item_names_are_matched_exactly() {
    for name in ["", "pm25_24h", "PM25_24H ", " PM25_24H", "PM25", "PM2.5", "CO_8H", "O3_24H", "PM25_24HH"] {
        assert_eq!(cn_item_from_str(name), None, "{:?}", name);
    }
}

#[test]
fn cn_negative_reading_has_no_index_for_any_item() {
    for (name, item) in CN_ITEMS {
        assert_eq!(cal_iaqi_cn(item, -1), None, "{}", name);
        assert_eq!(cal_iaqi_cn(item, i64::MIN), None, "{}", name);
        assert_eq!(cal_iaqi_cn(item, 0), Some(0), "{}", name);
    }
}

#[test]
fn cn_index_is_rounded_up() {
    // PM2.5 between 0 and 35: 50 * c / 35
    assert_eq!(cal_iaqi_cn(CnItem::PM25_24H, 1), Some(1));
    assert_eq!(cn_iaqi(CnItem::PM25_24H, 0.7), Some(1));
    assert_eq!(cn_iaqi(CnItem::PM25_24H, 7.), Some(10));
    assert_eq!(cal_iaqi_cn(CnItem::PM25_24H, 7_000_001), Some(11));
    assert_eq!(cn_iaqi(CnItem::PM25_24H, 16.1), Some(23));
    // PM10 between 350 and 420: 200 + 100 * (c - 350) / 70
    assert_eq!(cn_iaqi(CnItem::PM10_24H, 352.1), Some(203));
    assert_eq!(cn_iaqi(CnItem::PM10_24H, 352.2), Some(204));
    // CO between 2 and 4: 50 + 25 * (c - 2)
    assert_eq!(cn_iaqi(CnItem::CO_24H, 3.), Some(75));
    assert_eq!(cn_iaqi(CnItem::CO_24H, 3.01), Some(76));
}

#[test]
fn cn_shared_boundary_belongs_to_the_lower_segment() {
    assert_eq!(cn_iaqi(CnItem::PM25_24H, 35.), Some(50));
    assert_eq!(cal_iaqi_cn(CnItem::PM25_24H, 35_000_001), Some(51));
    assert_eq!(cal_iaqi_cn(CnItem::PM25_24H, 34_999_999), Some(50));
}

#[test]
fn cn_saturation_above_the_table() {
    assert_eq!(cal_iaqi_cn(CnItem::SO2_1H, 800_000_000), Some(200));
    assert_eq!(cal_iaqi_cn(CnItem::SO2_1H, 800_000_001), Some(200));
    assert_eq!(cal_iaqi_cn(CnItem::SO2_1H, i64::MAX), Some(200));
    assert_eq!(cal_iaqi_cn(CnItem::O3_8H, 800_000_000), Some(300));
    assert_eq!(cal_iaqi_cn(CnItem::O3_8H, 800_000_001), Some(300));
    assert_eq!(cal_iaqi_cn(CnItem::O3_8H, i64::MAX), Some(300));
    assert_eq!(cal_iaqi_cn(CnItem::PM25_1H, 500_000_001), Some(500));
    assert_eq!(cal_iaqi_cn(CnItem::NO2_1H, 3_840_000_001), Some(500));
    assert_eq!(cal_iaqi_cn(CnItem::CO_24H, i64::MAX), Some(500));
}

#[test]
fn cn_index_does_not_fall_as_the_reading_rises() {
    for (name, item) in CN_ITEMS {
        let mut last = 0;
        let mut reading: i64 = 0;
        while reading <= 4_000_000_000 {
            let index = cal_iaqi_cn(item, reading).unwrap();
            assert!(index >= last, "{} at {}", name, reading);
            assert!(index <= 500);
            last = index;
            reading += 1_370_001;
        }
    }
}

#[test]
fn cn_hourly_scenario() {
    let (aqi, iaqi) = cal_aqi_cn(
        Some(cn_reading(45.)),
        Some(cn_reading(80.)),
        Some(cn_reading(35.)),
        Some(cn_reading(85.)),
        Some(cn_reading(3.)),
        Some(cn_reading(140.)),
        DataType::Hourly,
    );
    assert_eq!(iaqi.pm25, Some(70));
    assert_eq!(iaqi.pm10, Some(72));
    assert_eq!(iaqi.so2, Some(12));
    assert_eq!(iaqi.no2, Some(43));
    assert_eq!(iaqi.co, Some(30));
    assert_eq!(iaqi.o3, Some(44));
    assert_eq!(aqi, Some(72));
    assert_eq!(cal_primary_pollutant_cn(&iaqi), vec!["PM10"]);
    assert_eq!(get_aqi_level_cn(aqi.unwrap()), Some(2));
}

#[test]
fn cn_daily_scenario() {
    let (aqi, iaqi) = cal_aqi_cn(
        Some(cn_reading(60.)),
        Some(cn_reading(80.)),
        None,
        None,
        None,
        Some(cn_reading(100.)),
        DataType::Daily,
    );
    assert_eq!(aqi, Some(100));
    assert_eq!(iaqi.pm25, Some(100));
    assert_eq!(iaqi.pm10, Some(72));
    assert_eq!(iaqi.so2, None);
    assert_eq!(iaqi.no2, None);
    assert_eq!(iaqi.co, None);
    assert_eq!(iaqi.o3, Some(50));
    assert_eq!(cal_primary_pollutant_cn(&iaqi), vec!["PM2.5"]);
}

#[test]
fn cn_data_type_picks_the_window_of_every_pollutant() {
    let r = Some(cn_reading(100.));
    let (_, hourly) = cal_aqi_cn(r, r, r, r, r, r, DataType::Hourly);
    let (_, daily) = cal_aqi_cn(r, r, r, r, r, r, DataType::Daily);
    assert_eq!(hourly.so2, cn_iaqi(CnItem::SO2_1H, 100.));
    assert_eq!(daily.so2, cn_iaqi(CnItem::SO2_24H, 100.));
    assert_eq!(hourly.no2, Some(50));
    assert_eq!(daily.no2, Some(110));
    assert_eq!(hourly.co, Some(334));
    assert_eq!(daily.co, Some(500));
    assert_eq!(hourly.o3, Some(32));
    assert_eq!(daily.o3, Some(50));
}

#[test]
fn cn_aqi_is_absent_only_when_every_sub_index_is() {
    let (aqi, iaqi) = cal_aqi_cn(None, None, None, None, None, None, DataType::Hourly);
    assert_eq!(aqi, None);
    assert_eq!(iaqi.max_iaqi(), None);
    let (aqi, iaqi) = cal_aqi_cn(None, None, Some(-5), None, None, None, DataType::Hourly);
    assert_eq!(aqi, None);
    assert_eq!(iaqi.so2, None);
    let (aqi, _) = cal_aqi_cn(None, None, None, None, Some(0), None, DataType::Hourly);
    assert_eq!(aqi, Some(0));
    let (aqi, _) = cal_aqi_cn(
        None,
        Some(cn_reading(50.)),
        None,
        Some(-1),
        Some(cn_reading(150.)),
        None,
        DataType::Hourly,
    );
    assert_eq!(aqi, Some(500));
}

#[test]
fn cn_max_iaqi_is_the_greatest_present() {
    let map = CnIaqiMap {
        pm25: None,
        pm10: Some(12),
        so2: Some(401),
        no2: None,
        co: Some(400),
        o3: Some(-3),
    };
    assert_eq!(map.max_iaqi(), Some(401));
    let one = CnIaqiMap { pm25: None, pm10: None, so2: None, no2: None, co: None, o3: Some(-3) };
    assert_eq!(one.max_iaqi(), Some(-3));
    assert_eq!(CnIaqiMap::default().max_iaqi(), None);
}

#[test]
fn cn_primary_pollutant_needs_more_than_50() {
    let at_50 = CnIaqiMap {
        pm25: Some(50),
        pm10: Some(50),
        so2: None,
        no2: None,
        co: None,
        o3: None,
    };
    assert!(cal_primary_pollutant_cn(&at_50).is_empty());
    let at_51 = CnIaqiMap {
        pm25: Some(51),
        pm10: Some(50),
        so2: None,
        no2: Some(51),
        co: None,
        o3: None,
    };
    assert_eq!(cal_primary_pollutant_cn(&at_51), vec!["PM2.5", "NO2"]);
}

#[test]
fn cn_to_dict_has_the_six_names() {
    let map = CnIaqiMap {
        pm25: Some(1),
        pm10: Some(2),
        so2: None,
        no2: Some(4),
        co: Some(5),
        o3: Some(6),
    };
    let dict = map.to_dict();
    assert_eq!(dict.len(), 6);
    assert_eq!(dict.get("PM2.5"), Some(&Some(1)));
    assert_eq!(dict.get("PM10"), Some(&Some(2)));
    assert_eq!(dict.get("SO2"), Some(&None));
    assert_eq!(dict.get("NO2"), Some(&Some(4)));
    assert_eq!(dict.get("CO"), Some(&Some(5)));
    assert_eq!(dict.get("O3"), Some(&Some(6)));
    assert_eq!(dict.get("PM25"), None);
}

#[test]
fn cn_map_clone_and_default() {
    let map = CnIaqiMap {
        pm25: Some(1),
        pm10: None,
        so2: Some(3),
        no2: None,
        co: Some(5),
        o3: None,
    };
    let copy = map.clone();
    assert_eq!(
        (copy.pm25, copy.pm10, copy.so2, copy.no2, copy.co, copy.o3),
        (Some(1), None, Some(3), None, Some(5), None)
    );
    let empty = CnIaqiMap::default();
    assert_eq!(
        (empty.pm25, empty.pm10, empty.so2, empty.no2, empty.co, empty.o3),
        (None, None, None, None, None, None)
    );
}

#[test]
fn cn_colors_of_every_level() {
    let rows: [((i32, i32, i32), (i32, i32, i32, i32), &str, &str); 6] = [
        ((0, 228, 0), (40, 0, 100, 0), "#00E400", "#99FF00"),
        ((255, 255, 0), (0, 0, 100, 0), "#FFFF00", "#FFFF00"),
        ((255, 126, 0), (0, 52, 100, 0), "#FF7E00", "#FF7A00"),
        ((255, 0, 0), (0, 100, 100, 0), "#FF0000", "#FF0000"),
        ((153, 0, 76), (10, 100, 40, 30), "#99004C", "#A0006B"),
        ((126, 0, 35), (30, 100, 100, 30), "#7E0023", "#7C0000"),
    ];
    for (i, (rgb, cmyk, rgb_hex, cmyk_hex)) in rows.into_iter().enumerate() {
        let level = i as i32 + 1;
        let c = get_aqi_level_color_cn(level, "anything").unwrap();
        assert_eq!(c.rgb, rgb);
        assert_eq!(c.cmyk, cmyk);
        assert_eq!(c.rgb_hex, rgb_hex);
        assert_eq!(c.cmyk_hex, cmyk_hex);
        assert_eq!(c.clone(), c);
    }
    assert_eq!(get_aqi_level_color_cn(i32::MIN, "RGB"), None);
    assert_eq!(get_aqi_level_color_cn(i32::MAX, "RGB"), None);
}

#[test]
fn cn_data_type_names() {
    assert_eq!(data_type_from_str("hourly"), Some(DataType::Hourly));
    assert_eq!(data_type_from_str("daily"), Some(DataType::Daily));
    assert_eq!(data_type_from_str("Hourly"), None);
    assert_eq!(data_type_from_str(""), None);
    assert_eq!(data_type_from_str("weekly"), None);
}
