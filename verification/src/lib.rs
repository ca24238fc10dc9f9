//! Air quality index calculation for the Chinese (GB 3095 / HJ 633) and the
//! United States (EPA) standards.
//!
//! A reading is a fixed-point concentration: a whole number of millionths
//! of the unit in which the pollutant's table is published. From readings
//! the library computes each pollutant's sub-index by interpolation over
//! breakpoint tables, the overall index as the greatest sub-index, its
//! severity level, the level's display colour and the primary pollutants.

pub mod breakpoint;
pub mod cn;
pub mod color;
pub mod concentration;
pub mod level;
pub mod subindex;
pub mod text;
pub mod usa;

pub use cn::{
    cal_aqi_cn, cal_iaqi_cn, cal_primary_pollutant_cn, cn_item_from_str, data_type_from_str,
    get_aqi_level_cn, get_aqi_level_color_cn, CnIaqiMap, CnItem, ColorValue, DataType,
};
pub use color::{color_type_from_str, ColorType};
pub use concentration::MICRO;
pub use usa::{
    cal_aqi_usa, cal_iaqi_usa, cal_primary_pollutant_usa, get_aqi_level_color_usa,
    get_aqi_level_usa, usa_item_from_str, UsaColorValue, UsaIaqiMap, UsaItem,
};
