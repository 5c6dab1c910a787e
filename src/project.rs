//! Projection of a column of one row of a decoded response to a cell.

use vstd::prelude::*;
use vstd::string::StringExecFns;
use crate::decode::{hourly_data_of, hourly_row_of, texts_of};
use crate::json::{Json, array_of, float_of, member};
use crate::error::{ErrorKind, FdwError, error_with};
use crate::json::same_text;
use crate::rowset::{
    CurrentRow, MinutelyRow, HourlyRow, DailyRow, AlertRow, HistoricalRow, SummaryRow, OverviewRow,
    EndpointData,
};

verus! {

/// One value handed to the host for a (row, column) pair.
#[derive(Debug, PartialEq, Eq)]
pub enum Cell {
    /// A floating value, as its decimal text.
    Float64(String),
    Int64(i64),
    Text(String),
    /// Microseconds since the Unix epoch.
    Timestamp(i64),
    Null,
}

/// Epoch seconds as microseconds; a count that does not fit in `i64`
/// saturates at its bounds.
pub open spec fn micros(s: i64) -> i64 {
    if s * 1_000_000 > i64::MAX {
        i64::MAX
    } else if s * 1_000_000 < i64::MIN {
        i64::MIN
    } else {
        (s * 1_000_000) as i64
    }
}

/// Epoch seconds as microseconds.
pub fn to_micros(s: i64) -> (r: i64)
    ensures
        r == micros(s),
{
    if s > i64::MAX / 1_000_000 {
        i64::MAX
    } else if s < i64::MIN / 1_000_000 {
        i64::MIN
    } else {
        s * 1_000_000
    }
}

/// The cell of an optional floating value: null where it is absent.
pub open spec fn float_cell_of(v: Option<String>) -> Cell {
    match v {
        Some(t) => Cell::Float64(t),
        None => Cell::Null,
    }
}

/// The cell of an optional floating value.
fn float_cell(v: &Option<String>) -> (r: Cell)
    ensures
        r == float_cell_of(*v),
{
    match v {
        Some(t) => Cell::Float64(t.clone()),
        None => Cell::Null,
    }
}

/// Texts joined with commas between them.
pub open spec fn joined(s: Seq<Seq<char>>) -> Seq<char>
    decreases s.len(),
{
    if s.len() == 0 {
        Seq::empty()
    } else if s.len() == 1 {
        s[0]
    } else {
        joined(s.drop_last()) + ","@ + s.last()
    }
}

/// The tags of an alert joined with commas.
pub fn join_tags(tags: &Vec<String>) -> (r: String)
    ensures
        r@ == joined(texts_of(tags@)),
{
    let ghost all = texts_of(tags@);
    let mut out = String::new();
    let mut i: usize = 0;
    while i < tags.len()
        invariant
            i <= tags@.len(),
            all == texts_of(tags@),
            out@ == joined(all.subrange(0, i as int)),
        decreases tags@.len() - i,
    {
        assert(all.subrange(0, i + 1).drop_last() =~= all.subrange(0, i as int));
        if i > 0 {
            out.append(",");
        }
        out.append(tags[i].as_str());
        i = i + 1;
    }
    assert(all.subrange(0, tags@.len() as int) =~= all);
    out
}

/// Whether `col` names a column of the `current_weather` table.
pub open spec fn current_column(col: Seq<char>) -> bool {
    col == "latitude"@
    || col == "longitude"@
    || col == "timezone_name"@
    || col == "observation_time"@
    || col == "temperature_temp"@
    || col == "apparent_temperature_temp"@
    || col == "pressure_hpa"@
    || col == "humidity_pct"@
    || col == "dew_point_temp"@
    || col == "uv_index"@
    || col == "cloud_cover_pct"@
    || col == "visibility_m"@
    || col == "wind_speed_m_s"@
    || col == "wind_direction_deg"@
    || col == "wind_gust_speed_m_s"@
    || col == "weather_condition"@
    || col == "weather_description"@
    || col == "weather_icon_code"@
}

/// Whether `c` is the cell of column `col` in a row of the `current_weather` table.
pub open spec fn current_cell(lat: String, lon: String, tz: String, r: CurrentRow, col: Seq<char>, c: Cell) -> bool {
    if col == "latitude"@ {
        c == Cell::Float64(lat)
    } else if col == "longitude"@ {
        c == Cell::Float64(lon)
    } else if col == "timezone_name"@ {
        c == Cell::Text(tz)
    } else if col == "observation_time"@ {
        c == Cell::Timestamp(micros(r.observation_time))
    } else if col == "temperature_temp"@ {
        c == Cell::Float64(r.temperature_temp)
    } else if col == "apparent_temperature_temp"@ {
        c == Cell::Float64(r.apparent_temperature_temp)
    } else if col == "pressure_hpa"@ {
        c == Cell::Int64(r.pressure_hpa)
    } else if col == "humidity_pct"@ {
        c == Cell::Int64(r.humidity_pct)
    } else if col == "dew_point_temp"@ {
        c == Cell::Float64(r.dew_point_temp)
    } else if col == "uv_index"@ {
        c == Cell::Float64(r.uv_index)
    } else if col == "cloud_cover_pct"@ {
        c == Cell::Int64(r.cloud_cover_pct)
    } else if col == "visibility_m"@ {
        c == Cell::Int64(r.visibility_m)
    } else if col == "wind_speed_m_s"@ {
        c == Cell::Float64(r.wind_speed_m_s)
    } else if col == "wind_direction_deg"@ {
        c == Cell::Int64(r.wind_direction_deg)
    } else if col == "wind_gust_speed_m_s"@ {
        c == float_cell_of(r.wind_gust_speed_m_s)
    } else if col == "weather_condition"@ {
        c == Cell::Text(r.weather.main)
    } else if col == "weather_description"@ {
        c == Cell::Text(r.weather.description)
    } else if col == "weather_icon_code"@ {
        c == Cell::Text(r.weather.icon)
    } else {
        false
    }
}

/// The cell of column `col` in a row of the `current_weather` table; `None` for a column it does not have.
fn current_cell_value(lat: &String, lon: &String, tz: &String, r: &CurrentRow, col: &String) -> (res: Option<Cell>)
    ensures
        res is Some <==> current_column(col@),
        res matches Some(c) ==> current_cell(*lat, *lon, *tz, *r, col@, c),
{
    if same_text(col, "latitude") {
        return Some(Cell::Float64(lat.clone()));
    }
    if same_text(col, "longitude") {
        return Some(Cell::Float64(lon.clone()));
    }
    if same_text(col, "timezone_name") {
        return Some(Cell::Text(tz.clone()));
    }
    if same_text(col, "observation_time") {
        return Some(Cell::Timestamp(to_micros(r.observation_time)));
    }
    if same_text(col, "temperature_temp") {
        return Some(Cell::Float64(r.temperature_temp.clone()));
    }
    if same_text(col, "apparent_temperature_temp") {
        return Some(Cell::Float64(r.apparent_temperature_temp.clone()));
    }
    if same_text(col, "pressure_hpa") {
        return Some(Cell::Int64(r.pressure_hpa));
    }
    if same_text(col, "humidity_pct") {
        return Some(Cell::Int64(r.humidity_pct));
    }
    if same_text(col, "dew_point_temp") {
        return Some(Cell::Float64(r.dew_point_temp.clone()));
    }
    if same_text(col, "uv_index") {
        return Some(Cell::Float64(r.uv_index.clone()));
    }
    if same_text(col, "cloud_cover_pct") {
        return Some(Cell::Int64(r.cloud_cover_pct));
    }
    if same_text(col, "visibility_m") {
        return Some(Cell::Int64(r.visibility_m));
    }
    if same_text(col, "wind_speed_m_s") {
        return Some(Cell::Float64(r.wind_speed_m_s.clone()));
    }
    if same_text(col, "wind_direction_deg") {
        return Some(Cell::Int64(r.wind_direction_deg));
    }
    if same_text(col, "wind_gust_speed_m_s") {
        return Some(float_cell(&r.wind_gust_speed_m_s));
    }
    if same_text(col, "weather_condition") {
        return Some(Cell::Text(r.weather.main.clone()));
    }
    if same_text(col, "weather_description") {
        return Some(Cell::Text(r.weather.description.clone()));
    }
    if same_text(col, "weather_icon_code") {
        return Some(Cell::Text(r.weather.icon.clone()));
    }
    None
}

/// Whether `col` names a column of the `minutely_forecast` table.
pub open spec fn minutely_column(col: Seq<char>) -> bool {
    col == "latitude"@
    || col == "longitude"@
    || col == "forecast_time"@
    || col == "precipitation_mm"@
}

/// Whether `c` is the cell of column `col` in a row of the `minutely_forecast` table.
pub open spec fn minutely_cell(lat: String, lon: String, r: MinutelyRow, col: Seq<char>, c: Cell) -> bool {
    if col == "latitude"@ {
        c == Cell::Float64(lat)
    } else if col == "longitude"@ {
        c == Cell::Float64(lon)
    } else if col == "forecast_time"@ {
        c == Cell::Timestamp(micros(r.forecast_time))
    } else if col == "precipitation_mm"@ {
        c == Cell::Float64(r.precipitation_mm)
    } else {
        false
    }
}

/// The cell of column `col` in a row of the `minutely_forecast` table; `None` for a column it does not have.
fn minutely_cell_value(lat: &String, lon: &String, r: &MinutelyRow, col: &String) -> (res: Option<Cell>)
    ensures
        res is Some <==> minutely_column(col@),
        res matches Some(c) ==> minutely_cell(*lat, *lon, *r, col@, c),
{
    if same_text(col, "latitude") {
        return Some(Cell::Float64(lat.clone()));
    }
    if same_text(col, "longitude") {
        return Some(Cell::Float64(lon.clone()));
    }
    if same_text(col, "forecast_time") {
        return Some(Cell::Timestamp(to_micros(r.forecast_time)));
    }
    if same_text(col, "precipitation_mm") {
        return Some(Cell::Float64(r.precipitation_mm.clone()));
    }
    None
}

/// Whether `col` names a column of the `hourly_forecast` table.
pub open spec fn hourly_column(col: Seq<char>) -> bool {
    col == "latitude"@
    || col == "longitude"@
    || col == "forecast_time"@
    || col == "temperature_temp"@
    || col == "apparent_temperature_temp"@
    || col == "pressure_hpa"@
    || col == "humidity_pct"@
    || col == "dew_point_temp"@
    || col == "uv_index"@
    || col == "cloud_cover_pct"@
    || col == "visibility_m"@
    || col == "wind_speed_m_s"@
    || col == "wind_direction_deg"@
    || col == "wind_gust_speed_m_s"@
    || col == "precipitation_probability"@
    || col == "rain_volume_1h_mm"@
    || col == "snow_volume_1h_mm"@
    || col == "weather_condition"@
    || col == "weather_description"@
    || col == "weather_icon_code"@
}

/// Whether `c` is the cell of column `col` in a row of the `hourly_forecast` table.
pub open spec fn hourly_cell(lat: String, lon: String, r: HourlyRow, col: Seq<char>, c: Cell) -> bool {
    if col == "latitude"@ {
        c == Cell::Float64(lat)
    } else if col == "longitude"@ {
        c == Cell::Float64(lon)
    } else if col == "forecast_time"@ {
        c == Cell::Timestamp(micros(r.forecast_time))
    } else if col == "temperature_temp"@ {
        c == Cell::Float64(r.temperature_temp)
    } else if col == "apparent_temperature_temp"@ {
        c == Cell::Float64(r.apparent_temperature_temp)
    } else if col == "pressure_hpa"@ {
        c == Cell::Int64(r.pressure_hpa)
    } else if col == "humidity_pct"@ {
        c == Cell::Int64(r.humidity_pct)
    } else if col == "dew_point_temp"@ {
        c == Cell::Float64(r.dew_point_temp)
    } else if col == "uv_index"@ {
        c == Cell::Float64(r.uv_index)
    } else if col == "cloud_cover_pct"@ {
        c == Cell::Int64(r.cloud_cover_pct)
    } else if col == "visibility_m"@ {
        c == Cell::Int64(r.visibility_m)
    } else if col == "wind_speed_m_s"@ {
        c == Cell::Float64(r.wind_speed_m_s)
    } else if col == "wind_direction_deg"@ {
        c == Cell::Int64(r.wind_direction_deg)
    } else if col == "wind_gust_speed_m_s"@ {
        c == float_cell_of(r.wind_gust_speed_m_s)
    } else if col == "precipitation_probability"@ {
        c == Cell::Float64(r.precipitation_probability)
    } else if col == "rain_volume_1h_mm"@ {
        c == float_cell_of(r.rain_volume_1h_mm)
    } else if col == "snow_volume_1h_mm"@ {
        c == float_cell_of(r.snow_volume_1h_mm)
    } else if col == "weather_condition"@ {
        c == Cell::Text(r.weather.main)
    } else if col == "weather_description"@ {
        c == Cell::Text(r.weather.description)
    } else if col == "weather_icon_code"@ {
        c == Cell::Text(r.weather.icon)
    } else {
        false
    }
}

/// The cell of column `col` in a row of the `hourly_forecast` table; `None` for a column it does not have.
fn hourly_cell_value(lat: &String, lon: &String, r: &HourlyRow, col: &String) -> (res: Option<Cell>)
    ensures
        res is Some <==> hourly_column(col@),
        res matches Some(c) ==> hourly_cell(*lat, *lon, *r, col@, c),
{
    if same_text(col, "latitude") {
        return Some(Cell::Float64(lat.clone()));
    }
    if same_text(col, "longitude") {
        return Some(Cell::Float64(lon.clone()));
    }
    if same_text(col, "forecast_time") {
        return Some(Cell::Timestamp(to_micros(r.forecast_time)));
    }
    if same_text(col, "temperature_temp") {
        return Some(Cell::Float64(r.temperature_temp.clone()));
    }
    if same_text(col, "apparent_temperature_temp") {
        return Some(Cell::Float64(r.apparent_temperature_temp.clone()));
    }
    if same_text(col, "pressure_hpa") {
        return Some(Cell::Int64(r.pressure_hpa));
    }
    if same_text(col, "humidity_pct") {
        return Some(Cell::Int64(r.humidity_pct));
    }
    if same_text(col, "dew_point_temp") {
        return Some(Cell::Float64(r.dew_point_temp.clone()));
    }
    if same_text(col, "uv_index") {
        return Some(Cell::Float64(r.uv_index.clone()));
    }
    if same_text(col, "cloud_cover_pct") {
        return Some(Cell::Int64(r.cloud_cover_pct));
    }
    if same_text(col, "visibility_m") {
        return Some(Cell::Int64(r.visibility_m));
    }
    if same_text(col, "wind_speed_m_s") {
        return Some(Cell::Float64(r.wind_speed_m_s.clone()));
    }
    if same_text(col, "wind_direction_deg") {
        return Some(Cell::Int64(r.wind_direction_deg));
    }
    if same_text(col, "wind_gust_speed_m_s") {
        return Some(float_cell(&r.wind_gust_speed_m_s));
    }
    if same_text(col, "precipitation_probability") {
        return Some(Cell::Float64(r.precipitation_probability.clone()));
    }
    if same_text(col, "rain_volume_1h_mm") {
        return Some(float_cell(&r.rain_volume_1h_mm));
    }
    if same_text(col, "snow_volume_1h_mm") {
        return Some(float_cell(&r.snow_volume_1h_mm));
    }
    if same_text(col, "weather_condition") {
        return Some(Cell::Text(r.weather.main.clone()));
    }
    if same_text(col, "weather_description") {
        return Some(Cell::Text(r.weather.description.clone()));
    }
    if same_text(col, "weather_icon_code") {
        return Some(Cell::Text(r.weather.icon.clone()));
    }
    None
}

/// Whether `col` names a column of the `daily_forecast` table.
pub open spec fn daily_column(col: Seq<char>) -> bool {
    col == "latitude"@
    || col == "longitude"@
    || col == "forecast_date"@
    || col == "sunrise_time"@
    || col == "sunset_time"@
    || col == "moonrise_time"@
    || col == "moonset_time"@
    || col == "moon_phase_fraction"@
    || col == "temperature_day_temp"@
    || col == "temperature_min_temp"@
    || col == "temperature_max_temp"@
    || col == "temperature_night_temp"@
    || col == "temperature_evening_temp"@
    || col == "temperature_morning_temp"@
    || col == "apparent_temperature_day_temp"@
    || col == "apparent_temperature_night_temp"@
    || col == "apparent_temperature_evening_temp"@
    || col == "apparent_temperature_morning_temp"@
    || col == "pressure_hpa"@
    || col == "humidity_pct"@
    || col == "dew_point_temp"@
    || col == "wind_speed_m_s"@
    || col == "wind_direction_deg"@
    || col == "wind_gust_speed_m_s"@
    || col == "cloud_cover_pct"@
    || col == "precipitation_probability"@
    || col == "rain_volume_mm"@
    || col == "snow_volume_mm"@
    || col == "uv_index"@
    || col == "weather_condition"@
    || col == "weather_description"@
    || col == "weather_icon_code"@
}

/// Whether `c` is the cell of column `col` in a row of the `daily_forecast` table.
pub open spec fn daily_cell(lat: String, lon: String, r: DailyRow, col: Seq<char>, c: Cell) -> bool {
    if col == "latitude"@ {
        c == Cell::Float64(lat)
    } else if col == "longitude"@ {
        c == Cell::Float64(lon)
    } else if col == "forecast_date"@ {
        c == Cell::Timestamp(micros(r.forecast_date))
    } else if col == "sunrise_time"@ {
        c == Cell::Timestamp(micros(r.sunrise_time))
    } else if col == "sunset_time"@ {
        c == Cell::Timestamp(micros(r.sunset_time))
    } else if col == "moonrise_time"@ {
        c == Cell::Timestamp(micros(r.moonrise_time))
    } else if col == "moonset_time"@ {
        c == Cell::Timestamp(micros(r.moonset_time))
    } else if col == "moon_phase_fraction"@ {
        c == Cell::Float64(r.moon_phase_fraction)
    } else if col == "temperature_day_temp"@ {
        c == Cell::Float64(r.temperature.day)
    } else if col == "temperature_min_temp"@ {
        c == Cell::Float64(r.temperature.min)
    } else if col == "temperature_max_temp"@ {
        c == Cell::Float64(r.temperature.max)
    } else if col == "temperature_night_temp"@ {
        c == Cell::Float64(r.temperature.night)
    } else if col == "temperature_evening_temp"@ {
        c == Cell::Float64(r.temperature.evening)
    } else if col == "temperature_morning_temp"@ {
        c == Cell::Float64(r.temperature.morning)
    } else if col == "apparent_temperature_day_temp"@ {
        c == Cell::Float64(r.apparent_temperature.day)
    } else if col == "apparent_temperature_night_temp"@ {
        c == Cell::Float64(r.apparent_temperature.night)
    } else if col == "apparent_temperature_evening_temp"@ {
        c == Cell::Float64(r.apparent_temperature.evening)
    } else if col == "apparent_temperature_morning_temp"@ {
        c == Cell::Float64(r.apparent_temperature.morning)
    } else if col == "pressure_hpa"@ {
        c == Cell::Int64(r.pressure_hpa)
    } else if col == "humidity_pct"@ {
        c == Cell::Int64(r.humidity_pct)
    } else if col == "dew_point_temp"@ {
        c == Cell::Float64(r.dew_point_temp)
    } else if col == "wind_speed_m_s"@ {
        c == Cell::Float64(r.wind_speed_m_s)
    } else if col == "wind_direction_deg"@ {
        c == Cell::Int64(r.wind_direction_deg)
    } else if col == "wind_gust_speed_m_s"@ {
        c == float_cell_of(r.wind_gust_speed_m_s)
    } else if col == "cloud_cover_pct"@ {
        c == Cell::Int64(r.cloud_cover_pct)
    } else if col == "precipitation_probability"@ {
        c == Cell::Float64(r.precipitation_probability)
    } else if col == "rain_volume_mm"@ {
        c == float_cell_of(r.rain_volume_mm)
    } else if col == "snow_volume_mm"@ {
        c == float_cell_of(r.snow_volume_mm)
    } else if col == "uv_index"@ {
        c == Cell::Float64(r.uv_index)
    } else if col == "weather_condition"@ {
        c == Cell::Text(r.weather.main)
    } else if col == "weather_description"@ {
        c == Cell::Text(r.weather.description)
    } else if col == "weather_icon_code"@ {
        c == Cell::Text(r.weather.icon)
    } else {
        false
    }
}

/// The cell of column `col` in a row of the `daily_forecast` table; `None` for a column it does not have.
fn daily_cell_value(lat: &String, lon: &String, r: &DailyRow, col: &String) -> (res: Option<Cell>)
    ensures
        res is Some <==> daily_column(col@),
        res matches Some(c) ==> daily_cell(*lat, *lon, *r, col@, c),
{
    if same_text(col, "latitude") {
        return Some(Cell::Float64(lat.clone()));
    }
    if same_text(col, "longitude") {
        return Some(Cell::Float64(lon.clone()));
    }
    if same_text(col, "forecast_date") {
        return Some(Cell::Timestamp(to_micros(r.forecast_date)));
    }
    if same_text(col, "sunrise_time") {
        return Some(Cell::Timestamp(to_micros(r.sunrise_time)));
    }
    if same_text(col, "sunset_time") {
        return Some(Cell::Timestamp(to_micros(r.sunset_time)));
    }
    if same_text(col, "moonrise_time") {
        return Some(Cell::Timestamp(to_micros(r.moonrise_time)));
    }
    if same_text(col, "moonset_time") {
        return Some(Cell::Timestamp(to_micros(r.moonset_time)));
    }
    if same_text(col, "moon_phase_fraction") {
        return Some(Cell::Float64(r.moon_phase_fraction.clone()));
    }
    if same_text(col, "temperature_day_temp") {
        return Some(Cell::Float64(r.temperature.day.clone()));
    }
    if same_text(col, "temperature_min_temp") {
        return Some(Cell::Float64(r.temperature.min.clone()));
    }
    if same_text(col, "temperature_max_temp") {
        return Some(Cell::Float64(r.temperature.max.clone()));
    }
    if same_text(col, "temperature_night_temp") {
        return Some(Cell::Float64(r.temperature.night.clone()));
    }
    if same_text(col, "temperature_evening_temp") {
        return Some(Cell::Float64(r.temperature.evening.clone()));
    }
    if same_text(col, "temperature_morning_temp") {
        return Some(Cell::Float64(r.temperature.morning.clone()));
    }
    if same_text(col, "apparent_temperature_day_temp") {
        return Some(Cell::Float64(r.apparent_temperature.day.clone()));
    }
    if same_text(col, "apparent_temperature_night_temp") {
        return Some(Cell::Float64(r.apparent_temperature.night.clone()));
    }
    if same_text(col, "apparent_temperature_evening_temp") {
        return Some(Cell::Float64(r.apparent_temperature.evening.clone()));
    }
    if same_text(col, "apparent_temperature_morning_temp") {
        return Some(Cell::Float64(r.apparent_temperature.morning.clone()));
    }
    if same_text(col, "pressure_hpa") {
        return Some(Cell::Int64(r.pressure_hpa));
    }
    if same_text(col, "humidity_pct") {
        return Some(Cell::Int64(r.humidity_pct));
    }
    if same_text(col, "dew_point_temp") {
        return Some(Cell::Float64(r.dew_point_temp.clone()));
    }
    if same_text(col, "wind_speed_m_s") {
        return Some(Cell::Float64(r.wind_speed_m_s.clone()));
    }
    if same_text(col, "wind_direction_deg") {
        return Some(Cell::Int64(r.wind_direction_deg));
    }
    if same_text(col, "wind_gust_speed_m_s") {
        return Some(float_cell(&r.wind_gust_speed_m_s));
    }
    if same_text(col, "cloud_cover_pct") {
        return Some(Cell::Int64(r.cloud_cover_pct));
    }
    if same_text(col, "precipitation_probability") {
        return Some(Cell::Float64(r.precipitation_probability.clone()));
    }
    if same_text(col, "rain_volume_mm") {
        return Some(float_cell(&r.rain_volume_mm));
    }
    if same_text(col, "snow_volume_mm") {
        return Some(float_cell(&r.snow_volume_mm));
    }
    if same_text(col, "uv_index") {
        return Some(Cell::Float64(r.uv_index.clone()));
    }
    if same_text(col, "weather_condition") {
        return Some(Cell::Text(r.weather.main.clone()));
    }
    if same_text(col, "weather_description") {
        return Some(Cell::Text(r.weather.description.clone()));
    }
    if same_text(col, "weather_icon_code") {
        return Some(Cell::Text(r.weather.icon.clone()));
    }
    None
}

/// Whether `col` names a column of the `weather_alerts` table.
pub open spec fn alert_column(col: Seq<char>) -> bool {
    col == "latitude"@
    || col == "longitude"@
    || col == "alert_sender_name"@
    || col == "alert_event_type"@
    || col == "alert_start_time"@
    || col == "alert_end_time"@
    || col == "alert_description"@
    || col == "alert_tags"@
}

/// Whether `c` is the cell of column `col` in a row of the `weather_alerts` table.
pub open spec fn alert_cell(lat: String, lon: String, r: AlertRow, col: Seq<char>, c: Cell) -> bool {
    if col == "latitude"@ {
        c == Cell::Float64(lat)
    } else if col == "longitude"@ {
        c == Cell::Float64(lon)
    } else if col == "alert_sender_name"@ {
        c == Cell::Text(r.alert_sender_name)
    } else if col == "alert_event_type"@ {
        c == Cell::Text(r.alert_event_type)
    } else if col == "alert_start_time"@ {
        c == Cell::Timestamp(micros(r.alert_start_time))
    } else if col == "alert_end_time"@ {
        c == Cell::Timestamp(micros(r.alert_end_time))
    } else if col == "alert_description"@ {
        c == Cell::Text(r.alert_description)
    } else if col == "alert_tags"@ {
        c matches Cell::Text(t) && t@ == joined(texts_of(r.alert_tags@))
    } else {
        false
    }
}

/// The cell of column `col` in a row of the `weather_alerts` table; `None` for a column it does not have.
fn alert_cell_value(lat: &String, lon: &String, r: &AlertRow, col: &String) -> (res: Option<Cell>)
    ensures
        res is Some <==> alert_column(col@),
        res matches Some(c) ==> alert_cell(*lat, *lon, *r, col@, c),
{
    if same_text(col, "latitude") {
        return Some(Cell::Float64(lat.clone()));
    }
    if same_text(col, "longitude") {
        return Some(Cell::Float64(lon.clone()));
    }
    if same_text(col, "alert_sender_name") {
        return Some(Cell::Text(r.alert_sender_name.clone()));
    }
    if same_text(col, "alert_event_type") {
        return Some(Cell::Text(r.alert_event_type.clone()));
    }
    if same_text(col, "alert_start_time") {
        return Some(Cell::Timestamp(to_micros(r.alert_start_time)));
    }
    if same_text(col, "alert_end_time") {
        return Some(Cell::Timestamp(to_micros(r.alert_end_time)));
    }
    if same_text(col, "alert_description") {
        return Some(Cell::Text(r.alert_description.clone()));
    }
    if same_text(col, "alert_tags") {
        return Some(Cell::Text(join_tags(&r.alert_tags)));
    }
    None
}

/// Whether `col` names a column of the `historical_weather` table.
pub open spec fn historical_column(col: Seq<char>) -> bool {
    col == "latitude"@
    || col == "longitude"@
    || col == "observation_time"@
    || col == "temperature_temp"@
    || col == "apparent_temperature_temp"@
    || col == "pressure_hpa"@
    || col == "humidity_pct"@
    || col == "dew_point_temp"@
    || col == "cloud_cover_pct"@
    || col == "visibility_m"@
    || col == "wind_speed_m_s"@
    || col == "wind_direction_deg"@
    || col == "weather_condition"@
    || col == "weather_description"@
    || col == "weather_icon_code"@
}

/// Whether `c` is the cell of column `col` in a row of the `historical_weather` table.
pub open spec fn historical_cell(lat: String, lon: String, r: HistoricalRow, col: Seq<char>, c: Cell) -> bool {
    if col == "latitude"@ {
        c == Cell::Float64(lat)
    } else if col == "longitude"@ {
        c == Cell::Float64(lon)
    } else if col == "observation_time"@ {
        c == Cell::Timestamp(micros(r.observation_time))
    } else if col == "temperature_temp"@ {
        c == Cell::Float64(r.temperature_temp)
    } else if col == "apparent_temperature_temp"@ {
        c == Cell::Float64(r.apparent_temperature_temp)
    } else if col == "pressure_hpa"@ {
        c == Cell::Int64(r.pressure_hpa)
    } else if col == "humidity_pct"@ {
        c == Cell::Int64(r.humidity_pct)
    } else if col == "dew_point_temp"@ {
        c == Cell::Float64(r.dew_point_temp)
    } else if col == "cloud_cover_pct"@ {
        c == Cell::Int64(r.cloud_cover_pct)
    } else if col == "visibility_m"@ {
        c == Cell::Int64(r.visibility_m)
    } else if col == "wind_speed_m_s"@ {
        c == Cell::Float64(r.wind_speed_m_s)
    } else if col == "wind_direction_deg"@ {
        c == Cell::Int64(r.wind_direction_deg)
    } else if col == "weather_condition"@ {
        c == Cell::Text(r.weather.main)
    } else if col == "weather_description"@ {
        c == Cell::Text(r.weather.description)
    } else if col == "weather_icon_code"@ {
        c == Cell::Text(r.weather.icon)
    } else {
        false
    }
}

/// The cell of column `col` in a row of the `historical_weather` table; `None` for a column it does not have.
fn historical_cell_value(lat: &String, lon: &String, r: &HistoricalRow, col: &String) -> (res: Option<Cell>)
    ensures
        res is Some <==> historical_column(col@),
        res matches Some(c) ==> historical_cell(*lat, *lon, *r, col@, c),
{
    if same_text(col, "latitude") {
        return Some(Cell::Float64(lat.clone()));
    }
    if same_text(col, "longitude") {
        return Some(Cell::Float64(lon.clone()));
    }
    if same_text(col, "observation_time") {
        return Some(Cell::Timestamp(to_micros(r.observation_time)));
    }
    if same_text(col, "temperature_temp") {
        return Some(Cell::Float64(r.temperature_temp.clone()));
    }
    if same_text(col, "apparent_temperature_temp") {
        return Some(Cell::Float64(r.apparent_temperature_temp.clone()));
    }
    if same_text(col, "pressure_hpa") {
        return Some(Cell::Int64(r.pressure_hpa));
    }
    if same_text(col, "humidity_pct") {
        return Some(Cell::Int64(r.humidity_pct));
    }
    if same_text(col, "dew_point_temp") {
        return Some(Cell::Float64(r.dew_point_temp.clone()));
    }
    if same_text(col, "cloud_cover_pct") {
        return Some(Cell::Int64(r.cloud_cover_pct));
    }
    if same_text(col, "visibility_m") {
        return Some(Cell::Int64(r.visibility_m));
    }
    if same_text(col, "wind_speed_m_s") {
        return Some(Cell::Float64(r.wind_speed_m_s.clone()));
    }
    if same_text(col, "wind_direction_deg") {
        return Some(Cell::Int64(r.wind_direction_deg));
    }
    if same_text(col, "weather_condition") {
        return Some(Cell::Text(r.weather.main.clone()));
    }
    if same_text(col, "weather_description") {
        return Some(Cell::Text(r.weather.description.clone()));
    }
    if same_text(col, "weather_icon_code") {
        return Some(Cell::Text(r.weather.icon.clone()));
    }
    None
}

/// Whether `col` names a column of the `daily_summary` table.
pub open spec fn summary_column(col: Seq<char>) -> bool {
    col == "latitude"@
    || col == "longitude"@
    || col == "timezone_offset"@
    || col == "summary_date"@
    || col == "unit_system"@
    || col == "temperature_min_temp"@
    || col == "temperature_max_temp"@
    || col == "temperature_morning_temp"@
    || col == "temperature_afternoon_temp"@
    || col == "temperature_evening_temp"@
    || col == "temperature_night_temp"@
    || col == "cloud_cover_afternoon_pct"@
    || col == "humidity_afternoon_pct"@
    || col == "pressure_afternoon_hpa"@
    || col == "precipitation_total_mm"@
    || col == "wind_max_speed_m_s"@
    || col == "wind_max_direction_deg"@
}

/// Whether `c` is the cell of column `col` in a row of the `daily_summary` table.
pub open spec fn summary_cell(lat: String, lon: String, r: SummaryRow, col: Seq<char>, c: Cell) -> bool {
    if col == "latitude"@ {
        c == Cell::Float64(lat)
    } else if col == "longitude"@ {
        c == Cell::Float64(lon)
    } else if col == "timezone_offset"@ {
        c == Cell::Text(r.timezone_offset)
    } else if col == "summary_date"@ {
        c == Cell::Text(r.summary_date)
    } else if col == "unit_system"@ {
        c == Cell::Text(r.unit_system)
    } else if col == "temperature_min_temp"@ {
        c == Cell::Float64(r.temperature_min_temp)
    } else if col == "temperature_max_temp"@ {
        c == Cell::Float64(r.temperature_max_temp)
    } else if col == "temperature_morning_temp"@ {
        c == Cell::Float64(r.temperature_morning_temp)
    } else if col == "temperature_afternoon_temp"@ {
        c == Cell::Float64(r.temperature_afternoon_temp)
    } else if col == "temperature_evening_temp"@ {
        c == Cell::Float64(r.temperature_evening_temp)
    } else if col == "temperature_night_temp"@ {
        c == Cell::Float64(r.temperature_night_temp)
    } else if col == "cloud_cover_afternoon_pct"@ {
        c == Cell::Float64(r.cloud_cover_afternoon_pct)
    } else if col == "humidity_afternoon_pct"@ {
        c == Cell::Float64(r.humidity_afternoon_pct)
    } else if col == "pressure_afternoon_hpa"@ {
        c == Cell::Float64(r.pressure_afternoon_hpa)
    } else if col == "precipitation_total_mm"@ {
        c == Cell::Float64(r.precipitation_total_mm)
    } else if col == "wind_max_speed_m_s"@ {
        c == Cell::Float64(r.wind_max_speed_m_s)
    } else if col == "wind_max_direction_deg"@ {
        c == Cell::Float64(r.wind_max_direction_deg)
    } else {
        false
    }
}

/// The cell of column `col` in a row of the `daily_summary` table; `None` for a column it does not have.
fn summary_cell_value(lat: &String, lon: &String, r: &SummaryRow, col: &String) -> (res: Option<Cell>)
    ensures
        res is Some <==> summary_column(col@),
        res matches Some(c) ==> summary_cell(*lat, *lon, *r, col@, c),
{
    if same_text(col, "latitude") {
        return Some(Cell::Float64(lat.clone()));
    }
    if same_text(col, "longitude") {
        return Some(Cell::Float64(lon.clone()));
    }
    if same_text(col, "timezone_offset") {
        return Some(Cell::Text(r.timezone_offset.clone()));
    }
    if same_text(col, "summary_date") {
        return Some(Cell::Text(r.summary_date.clone()));
    }
    if same_text(col, "unit_system") {
        return Some(Cell::Text(r.unit_system.clone()));
    }
    if same_text(col, "temperature_min_temp") {
        return Some(Cell::Float64(r.temperature_min_temp.clone()));
    }
    if same_text(col, "temperature_max_temp") {
        return Some(Cell::Float64(r.temperature_max_temp.clone()));
    }
    if same_text(col, "temperature_morning_temp") {
        return Some(Cell::Float64(r.temperature_morning_temp.clone()));
    }
    if same_text(col, "temperature_afternoon_temp") {
        return Some(Cell::Float64(r.temperature_afternoon_temp.clone()));
    }
    if same_text(col, "temperature_evening_temp") {
        return Some(Cell::Float64(r.temperature_evening_temp.clone()));
    }
    if same_text(col, "temperature_night_temp") {
        return Some(Cell::Float64(r.temperature_night_temp.clone()));
    }
    if same_text(col, "cloud_cover_afternoon_pct") {
        return Some(Cell::Float64(r.cloud_cover_afternoon_pct.clone()));
    }
    if same_text(col, "humidity_afternoon_pct") {
        return Some(Cell::Float64(r.humidity_afternoon_pct.clone()));
    }
    if same_text(col, "pressure_afternoon_hpa") {
        return Some(Cell::Float64(r.pressure_afternoon_hpa.clone()));
    }
    if same_text(col, "precipitation_total_mm") {
        return Some(Cell::Float64(r.precipitation_total_mm.clone()));
    }
    if same_text(col, "wind_max_speed_m_s") {
        return Some(Cell::Float64(r.wind_max_speed_m_s.clone()));
    }
    if same_text(col, "wind_max_direction_deg") {
        return Some(Cell::Float64(r.wind_max_direction_deg.clone()));
    }
    None
}

/// Whether `col` names a column of the `weather_overview` table.
pub open spec fn overview_column(col: Seq<char>) -> bool {
    col == "latitude"@
    || col == "longitude"@
    || col == "timezone_offset"@
    || col == "overview_date"@
    || col == "unit_system"@
    || col == "weather_overview"@
}

/// Whether `c` is the cell of column `col` in a row of the `weather_overview` table.
pub open spec fn overview_cell(lat: String, lon: String, r: OverviewRow, col: Seq<char>, c: Cell) -> bool {
    if col == "latitude"@ {
        c == Cell::Float64(lat)
    } else if col == "longitude"@ {
        c == Cell::Float64(lon)
    } else if col == "timezone_offset"@ {
        c == Cell::Text(r.timezone_offset)
    } else if col == "overview_date"@ {
        c == Cell::Text(r.overview_date)
    } else if col == "unit_system"@ {
        c == Cell::Text(r.unit_system)
    } else if col == "weather_overview"@ {
        c == Cell::Text(r.weather_overview)
    } else {
        false
    }
}

/// The cell of column `col` in a row of the `weather_overview` table; `None` for a column it does not have.
fn overview_cell_value(lat: &String, lon: &String, r: &OverviewRow, col: &String) -> (res: Option<Cell>)
    ensures
        res is Some <==> overview_column(col@),
        res matches Some(c) ==> overview_cell(*lat, *lon, *r, col@, c),
{
    if same_text(col, "latitude") {
        return Some(Cell::Float64(lat.clone()));
    }
    if same_text(col, "longitude") {
        return Some(Cell::Float64(lon.clone()));
    }
    if same_text(col, "timezone_offset") {
        return Some(Cell::Text(r.timezone_offset.clone()));
    }
    if same_text(col, "overview_date") {
        return Some(Cell::Text(r.overview_date.clone()));
    }
    if same_text(col, "unit_system") {
        return Some(Cell::Text(r.unit_system.clone()));
    }
    if same_text(col, "weather_overview") {
        return Some(Cell::Text(r.weather_overview.clone()));
    }
    None
}
/// Whether `col` names a column of the table that `d` was decoded for.
pub open spec fn has_column(d: EndpointData, col: Seq<char>) -> bool {
    match d {
        EndpointData::Empty => false,
        EndpointData::CurrentWeather { .. } => current_column(col),
        EndpointData::MinutelyForecast { .. } => minutely_column(col),
        EndpointData::HourlyForecast { .. } => hourly_column(col),
        EndpointData::DailyForecast { .. } => daily_column(col),
        EndpointData::WeatherAlerts { .. } => alert_column(col),
        EndpointData::HistoricalWeather { .. } => historical_column(col),
        EndpointData::DailySummary { .. } => summary_column(col),
        EndpointData::WeatherOverview { .. } => overview_column(col),
    }
}

/// Whether `c` is the cell of column `col` at row `i` of `d`.
pub open spec fn cell_at(d: EndpointData, i: int, col: Seq<char>, c: Cell) -> bool {
    match d {
        EndpointData::Empty => false,
        EndpointData::CurrentWeather { latitude, longitude, timezone_name, row } =>
            current_cell(latitude, longitude, timezone_name, row, col, c),
        EndpointData::MinutelyForecast { latitude, longitude, rows } =>
            minutely_cell(latitude, longitude, rows@[i], col, c),
        EndpointData::HourlyForecast { latitude, longitude, rows } =>
            hourly_cell(latitude, longitude, rows@[i], col, c),
        EndpointData::DailyForecast { latitude, longitude, rows } =>
            daily_cell(latitude, longitude, rows@[i], col, c),
        EndpointData::WeatherAlerts { latitude, longitude, alerts } =>
            alert_cell(latitude, longitude, alerts@[i], col, c),
        EndpointData::HistoricalWeather { latitude, longitude, row } =>
            historical_cell(latitude, longitude, row, col, c),
        EndpointData::DailySummary { latitude, longitude, row } =>
            summary_cell(latitude, longitude, row, col, c),
        EndpointData::WeatherOverview { latitude, longitude, row } =>
            overview_cell(latitude, longitude, row, col, c),
    }
}

/// The name of the table that `d` was decoded for, as error messages give it.
fn table_label(d: &EndpointData) -> (r: &'static str) {
    match d {
        EndpointData::Empty => "no",
        EndpointData::CurrentWeather { .. } => "current_weather",
        EndpointData::MinutelyForecast { .. } => "minutely_forecast",
        EndpointData::HourlyForecast { .. } => "hourly_forecast",
        EndpointData::DailyForecast { .. } => "daily_forecast",
        EndpointData::WeatherAlerts { .. } => "weather_alerts",
        EndpointData::HistoricalWeather { .. } => "historical_weather",
        EndpointData::DailySummary { .. } => "daily_summary",
        EndpointData::WeatherOverview { .. } => "weather_overview",
    }
}

/// The cell of column `col` at row `i` of `d`. A row past the end is
/// `RowIndexOutOfBounds`; a column that the table lacks is `UnknownColumn`,
/// naming the table. Epoch times come out as microseconds.
pub fn get_cell_value(d: &EndpointData, i: usize, col: &str) -> (r: Result<Cell, FdwError>)
    ensures
        r is Ok <==> (i < d.spec_row_count() && has_column(*d, col@)),
        r matches Ok(c) ==> cell_at(*d, i as int, col@, c),
        r matches Err(e) ==> e.kind == (if i >= d.spec_row_count() {
            ErrorKind::RowIndexOutOfBounds
        } else {
            ErrorKind::UnknownColumn
        }),
{
    if i >= d.row_count() {
        return Err(FdwError::new(ErrorKind::RowIndexOutOfBounds, "row index out of bounds"));
    }
    let name = col.to_owned();
    let found = match d {
        EndpointData::Empty => None,
        EndpointData::CurrentWeather { latitude, longitude, timezone_name, row } =>
            current_cell_value(latitude, longitude, timezone_name, row, &name),
        EndpointData::MinutelyForecast { latitude, longitude, rows } =>
            minutely_cell_value(latitude, longitude, &rows[i], &name),
        EndpointData::HourlyForecast { latitude, longitude, rows } =>
            hourly_cell_value(latitude, longitude, &rows[i], &name),
        EndpointData::DailyForecast { latitude, longitude, rows } =>
            daily_cell_value(latitude, longitude, &rows[i], &name),
        EndpointData::WeatherAlerts { latitude, longitude, alerts } =>
            alert_cell_value(latitude, longitude, &alerts[i], &name),
        EndpointData::HistoricalWeather { latitude, longitude, row } =>
            historical_cell_value(latitude, longitude, row, &name),
        EndpointData::DailySummary { latitude, longitude, row } =>
            summary_cell_value(latitude, longitude, row, &name),
        EndpointData::WeatherOverview { latitude, longitude, row } =>
            overview_cell_value(latitude, longitude, row, &name),
    };
    match found {
        Some(c) => Ok(c),
        None => {
            let table = table_label(d);
            let e = error_with(ErrorKind::UnknownColumn, "unknown column '", col, "' for ");
            Err(FdwError { kind: e.kind, message: e.message.concat(table).concat(" endpoint") })
        },
    }
}

/// Projecting `temperature_temp` at row `i` of a decoded hourly response
/// gives exactly the `temp` of the `i`-th element of its `hourly` array; the
/// column exists, so the projection succeeds.
pub proof fn lemma_hourly_temperature_round_trip(
    doc: Json,
    lat: Seq<char>,
    lon: Seq<char>,
    d: EndpointData,
    i: int,
    c: Cell,
)
    requires
        hourly_data_of(doc, lat, lon, d),
        0 <= i < d.spec_row_count(),
        cell_at(d, i, "temperature_temp"@, c),
    ensures
        has_column(d, "temperature_temp"@),
        c matches Cell::Float64(t) && float_of(
            member(array_of(member(doc, "hourly"@))->Some_0[i], "temp"@),
        ) == Some(t@),
{
    reveal_strlit("latitude");
    reveal_strlit("longitude");
    reveal_strlit("forecast_time");
    reveal_strlit("temperature_temp");
    assert("temperature_temp"@[0] != "latitude"@[0]);
    assert("temperature_temp"@[0] != "longitude"@[0]);
    assert(hourly_row_of(array_of(member(doc, "hourly"@))->Some_0[i], d->HourlyForecast_rows@[i]));
}

} // verus!
