//! One decoder for each endpoint's JSON shape. Each states, over the document,
//! when it succeeds and what every field of every row holds.

use vstd::prelude::*;
use crate::endpoint::EndpointType;
use crate::error::{ErrorKind, FdwError, error_with};
use crate::json::{
    Json, member, member_of, int_of, float_of, text_of, object_of, array_of, first_of, text_or,
    opt_val, get, get_in, as_int, as_float, as_array, as_object, text_or_default,
    parse_document, parsed_document,
};
use crate::rowset::{
    Condition, CurrentRow, MinutelyRow, HourlyRow, DailyRow, DayTemperatures, DayApparent,
    AlertRow, HistoricalRow, SummaryRow, OverviewRow, EndpointData,
};

verus! {

/// An optional string, read as an optional text.
pub open spec fn view_opt(o: Option<String>) -> Option<Seq<char>> {
    match o {
        Some(s) => Some(s@),
        None => None,
    }
}

/// An optional integer, or `dflt` where it is absent.
pub open spec fn int_or(o: Option<i64>, dflt: i64) -> i64 {
    match o {
        Some(v) => v,
        None => dflt,
    }
}

/// Whether `c` holds the condition of the first `weather` element of `item`:
/// its main, description and icon, each with its default where it is no string.
pub open spec fn condition_of(item: Json, c: Condition) -> bool {
    let w = first_of(member(item, "weather"@));
    &&& c.main@ == text_or(text_of(member_of(w, "main"@)), "Unknown"@)
    &&& c.description@ == text_or(text_of(member_of(w, "description"@)), "unknown"@)
    &&& c.icon@ == text_or(text_of(member_of(w, "icon"@)), "01d"@)
}

/// The error for a required field that a response lacks.
fn missing(key: &str, place: &str) -> (r: FdwError)
    ensures
        r.kind == ErrorKind::MalformedResponse,
{
    error_with(ErrorKind::MalformedResponse, "missing '", key, place)
}

/// The required integer member `key`.
fn req_int(o: Option<&Json>, key: &str, place: &str) -> (r: Result<i64, FdwError>)
    ensures
        match r {
            Ok(v) => int_of(member_of(opt_val(o), key@)) == Some(v),
            Err(e) => int_of(member_of(opt_val(o), key@)) is None && e.kind == ErrorKind::MalformedResponse,
        },
{
    match as_int(get_in(o, key)) {
        Some(v) => Ok(v),
        None => Err(missing(key, place)),
    }
}

/// The required floating member `key`, as its decimal text.
fn req_float(o: Option<&Json>, key: &str, place: &str) -> (r: Result<String, FdwError>)
    ensures
        match r {
            Ok(v) => float_of(member_of(opt_val(o), key@)) == Some(v@),
            Err(e) => float_of(member_of(opt_val(o), key@)) is None && e.kind == ErrorKind::MalformedResponse,
        },
{
    match as_float(get_in(o, key)) {
        Some(v) => Ok(v),
        None => Err(missing(key, place)),
    }
}

/// The optional floating member `key`.
fn opt_float(o: Option<&Json>, key: &str) -> (r: Option<String>)
    ensures
        view_opt(r) == float_of(member_of(opt_val(o), key@)),
{
    as_float(get_in(o, key))
}

/// The floating member `key`, or zero where it is absent.
fn float_or_zero(o: Option<&Json>, key: &str) -> (r: String)
    ensures
        r@ == text_or(float_of(member_of(opt_val(o), key@)), "0"@),
{
    match as_float(get_in(o, key)) {
        Some(v) => v,
        None => "0".to_owned(),
    }
}

/// The integer member `key`, or zero where it is absent.
fn int_or_zero(o: Option<&Json>, key: &str) -> (r: i64)
    ensures
        r == int_or(int_of(member_of(opt_val(o), key@)), 0),
{
    match as_int(get_in(o, key)) {
        Some(v) => v,
        None => 0,
    }
}

/// The condition of the first element of the `weather` array, which must be present and non-empty.
fn condition(item: &Json) -> (r: Result<Condition, FdwError>)
    ensures
        r is Ok <==> first_of(member(*item, "weather"@)) is Some,
        r matches Ok(c) ==> condition_of(*item, c),
        r matches Err(e) ==> e.kind == ErrorKind::MalformedResponse,
{
    let arr = match as_array(get(item, "weather")) {
        Some(v) => v,
        None => return Err(FdwError::new(ErrorKind::MalformedResponse, "missing 'weather' array")),
    };
    if arr.len() == 0 {
        return Err(FdwError::new(ErrorKind::MalformedResponse, "weather array is empty"));
    }
    let w = Some(&arr[0]);
    Ok(Condition {
        main: text_or_default(get_in(w, "main"), "Unknown"),
        description: text_or_default(get_in(w, "description"), "unknown"),
        icon: text_or_default(get_in(w, "icon"), "01d"),
    })
}

/// Whether the `current` section holds every field that the current-weather row needs.
pub open spec fn current_ok(item: Json) -> bool {
    &&& int_of(member(item, "dt"@)) is Some
    &&& float_of(member(item, "temp"@)) is Some
    &&& float_of(member(item, "feels_like"@)) is Some
    &&& int_of(member(item, "pressure"@)) is Some
    &&& int_of(member(item, "humidity"@)) is Some
    &&& float_of(member(item, "dew_point"@)) is Some
    &&& float_of(member(item, "uvi"@)) is Some
    &&& int_of(member(item, "clouds"@)) is Some
    &&& int_of(member(item, "visibility"@)) is Some
    &&& float_of(member(item, "wind_speed"@)) is Some
    &&& int_of(member(item, "wind_deg"@)) is Some
    &&& first_of(member(item, "weather"@)) is Some
}

/// Whether `row` holds what the `current` section gives, with the weather condition of its first `weather` element.
pub open spec fn current_row_of(item: Json, row: CurrentRow) -> bool {
    &&& int_of(member(item, "dt"@)) == Some(row.observation_time)
    &&& float_of(member(item, "temp"@)) == Some(row.temperature_temp@)
    &&& float_of(member(item, "feels_like"@)) == Some(row.apparent_temperature_temp@)
    &&& int_of(member(item, "pressure"@)) == Some(row.pressure_hpa)
    &&& int_of(member(item, "humidity"@)) == Some(row.humidity_pct)
    &&& float_of(member(item, "dew_point"@)) == Some(row.dew_point_temp@)
    &&& float_of(member(item, "uvi"@)) == Some(row.uv_index@)
    &&& int_of(member(item, "clouds"@)) == Some(row.cloud_cover_pct)
    &&& int_of(member(item, "visibility"@)) == Some(row.visibility_m)
    &&& float_of(member(item, "wind_speed"@)) == Some(row.wind_speed_m_s@)
    &&& int_of(member(item, "wind_deg"@)) == Some(row.wind_direction_deg)
    &&& view_opt(row.wind_gust_speed_m_s) == float_of(member(item, "wind_gust"@))
    &&& condition_of(item, row.weather)
}

/// Decodes the `current` section.
fn decode_current_item(item: &Json) -> (r: Result<CurrentRow, FdwError>)
    ensures
        r is Ok <==> current_ok(*item),
        r matches Ok(row) ==> current_row_of(*item, row),
        r matches Err(e) ==> e.kind == ErrorKind::MalformedResponse,
{
    let o = Some(item);
    let observation_time = match req_int(o, "dt", "' in current") { Ok(x) => x, Err(e) => return Err(e) };
    let temperature_temp = match req_float(o, "temp", "' in current") { Ok(x) => x, Err(e) => return Err(e) };
    let apparent_temperature_temp = match req_float(o, "feels_like", "' in current") { Ok(x) => x, Err(e) => return Err(e) };
    let pressure_hpa = match req_int(o, "pressure", "' in current") { Ok(x) => x, Err(e) => return Err(e) };
    let humidity_pct = match req_int(o, "humidity", "' in current") { Ok(x) => x, Err(e) => return Err(e) };
    let dew_point_temp = match req_float(o, "dew_point", "' in current") { Ok(x) => x, Err(e) => return Err(e) };
    let uv_index = match req_float(o, "uvi", "' in current") { Ok(x) => x, Err(e) => return Err(e) };
    let cloud_cover_pct = match req_int(o, "clouds", "' in current") { Ok(x) => x, Err(e) => return Err(e) };
    let visibility_m = match req_int(o, "visibility", "' in current") { Ok(x) => x, Err(e) => return Err(e) };
    let wind_speed_m_s = match req_float(o, "wind_speed", "' in current") { Ok(x) => x, Err(e) => return Err(e) };
    let wind_direction_deg = match req_int(o, "wind_deg", "' in current") { Ok(x) => x, Err(e) => return Err(e) };
    let wind_gust_speed_m_s = opt_float(o, "wind_gust");
    let weather = match condition(item) { Ok(x) => x, Err(e) => return Err(e) };
    Ok(CurrentRow {
        observation_time,
        temperature_temp,
        apparent_temperature_temp,
        pressure_hpa,
        humidity_pct,
        dew_point_temp,
        uv_index,
        cloud_cover_pct,
        visibility_m,
        wind_speed_m_s,
        wind_direction_deg,
        wind_gust_speed_m_s,
        weather,
    })
}

/// Whether a minutely element holds its time.
pub open spec fn minutely_ok(item: Json) -> bool {
    &&& int_of(member(item, "dt"@)) is Some
}

/// Whether `row` holds what a minutely element gives; a missing precipitation reads as zero.
pub open spec fn minutely_row_of(item: Json, row: MinutelyRow) -> bool {
    &&& int_of(member(item, "dt"@)) == Some(row.forecast_time)
    &&& row.precipitation_mm@ == text_or(float_of(member(item, "precipitation"@)), "0"@)
}

/// Decodes one minutely element.
fn decode_minutely_item(item: &Json) -> (r: Result<MinutelyRow, FdwError>)
    ensures
        r is Ok <==> minutely_ok(*item),
        r matches Ok(row) ==> minutely_row_of(*item, row),
        r matches Err(e) ==> e.kind == ErrorKind::MalformedResponse,
{
    let o = Some(item);
    let forecast_time = match req_int(o, "dt", "' in minutely element") { Ok(x) => x, Err(e) => return Err(e) };
    let precipitation_mm = float_or_zero(o, "precipitation");
    Ok(MinutelyRow {
        forecast_time,
        precipitation_mm,
    })
}

/// Whether an hourly element holds every field that an hourly row needs.
pub open spec fn hourly_ok(item: Json) -> bool {
    &&& int_of(member(item, "dt"@)) is Some
    &&& float_of(member(item, "temp"@)) is Some
    &&& float_of(member(item, "feels_like"@)) is Some
    &&& int_of(member(item, "pressure"@)) is Some
    &&& int_of(member(item, "humidity"@)) is Some
    &&& float_of(member(item, "dew_point"@)) is Some
    &&& float_of(member(item, "uvi"@)) is Some
    &&& int_of(member(item, "clouds"@)) is Some
    &&& int_of(member(item, "visibility"@)) is Some
    &&& float_of(member(item, "wind_speed"@)) is Some
    &&& int_of(member(item, "wind_deg"@)) is Some
    &&& float_of(member(item, "pop"@)) is Some
    &&& first_of(member(item, "weather"@)) is Some
}

/// Whether `row` holds what an hourly element gives; gust, rain and snow stay absent where the element has none.
pub open spec fn hourly_row_of(item: Json, row: HourlyRow) -> bool {
    &&& int_of(member(item, "dt"@)) == Some(row.forecast_time)
    &&& float_of(member(item, "temp"@)) == Some(row.temperature_temp@)
    &&& float_of(member(item, "feels_like"@)) == Some(row.apparent_temperature_temp@)
    &&& int_of(member(item, "pressure"@)) == Some(row.pressure_hpa)
    &&& int_of(member(item, "humidity"@)) == Some(row.humidity_pct)
    &&& float_of(member(item, "dew_point"@)) == Some(row.dew_point_temp@)
    &&& float_of(member(item, "uvi"@)) == Some(row.uv_index@)
    &&& int_of(member(item, "clouds"@)) == Some(row.cloud_cover_pct)
    &&& int_of(member(item, "visibility"@)) == Some(row.visibility_m)
    &&& float_of(member(item, "wind_speed"@)) == Some(row.wind_speed_m_s@)
    &&& int_of(member(item, "wind_deg"@)) == Some(row.wind_direction_deg)
    &&& view_opt(row.wind_gust_speed_m_s) == float_of(member(item, "wind_gust"@))
    &&& float_of(member(item, "pop"@)) == Some(row.precipitation_probability@)
    &&& view_opt(row.rain_volume_1h_mm) == float_of(member_of(member(item, "rain"@), "1h"@))
    &&& view_opt(row.snow_volume_1h_mm) == float_of(member_of(member(item, "snow"@), "1h"@))
    &&& condition_of(item, row.weather)
}

/// Decodes one hourly element.
fn decode_hourly_item(item: &Json) -> (r: Result<HourlyRow, FdwError>)
    ensures
        r is Ok <==> hourly_ok(*item),
        r matches Ok(row) ==> hourly_row_of(*item, row),
        r matches Err(e) ==> e.kind == ErrorKind::MalformedResponse,
{
    let o = Some(item);
    let rain_obj = get(item, "rain");
    let snow_obj = get(item, "snow");
    let forecast_time = match req_int(o, "dt", "' in hourly element") { Ok(x) => x, Err(e) => return Err(e) };
    let temperature_temp = match req_float(o, "temp", "' in hourly element") { Ok(x) => x, Err(e) => return Err(e) };
    let apparent_temperature_temp = match req_float(o, "feels_like", "' in hourly element") { Ok(x) => x, Err(e) => return Err(e) };
    let pressure_hpa = match req_int(o, "pressure", "' in hourly element") { Ok(x) => x, Err(e) => return Err(e) };
    let humidity_pct = match req_int(o, "humidity", "' in hourly element") { Ok(x) => x, Err(e) => return Err(e) };
    let dew_point_temp = match req_float(o, "dew_point", "' in hourly element") { Ok(x) => x, Err(e) => return Err(e) };
    let uv_index = match req_float(o, "uvi", "' in hourly element") { Ok(x) => x, Err(e) => return Err(e) };
    let cloud_cover_pct = match req_int(o, "clouds", "' in hourly element") { Ok(x) => x, Err(e) => return Err(e) };
    let visibility_m = match req_int(o, "visibility", "' in hourly element") { Ok(x) => x, Err(e) => return Err(e) };
    let wind_speed_m_s = match req_float(o, "wind_speed", "' in hourly element") { Ok(x) => x, Err(e) => return Err(e) };
    let wind_direction_deg = match req_int(o, "wind_deg", "' in hourly element") { Ok(x) => x, Err(e) => return Err(e) };
    let wind_gust_speed_m_s = opt_float(o, "wind_gust");
    let precipitation_probability = match req_float(o, "pop", "' in hourly element") { Ok(x) => x, Err(e) => return Err(e) };
    let rain_volume_1h_mm = opt_float(rain_obj, "1h");
    let snow_volume_1h_mm = opt_float(snow_obj, "1h");
    let weather = match condition(item) { Ok(x) => x, Err(e) => return Err(e) };
    Ok(HourlyRow {
        forecast_time,
        temperature_temp,
        apparent_temperature_temp,
        pressure_hpa,
        humidity_pct,
        dew_point_temp,
        uv_index,
        cloud_cover_pct,
        visibility_m,
        wind_speed_m_s,
        wind_direction_deg,
        wind_gust_speed_m_s,
        precipitation_probability,
        rain_volume_1h_mm,
        snow_volume_1h_mm,
        weather,
    })
}

/// Whether a daily element holds every field that a daily row needs.
pub open spec fn daily_ok(item: Json) -> bool {
    &&& int_of(member(item, "dt"@)) is Some
    &&& int_of(member(item, "sunrise"@)) is Some
    &&& int_of(member(item, "sunset"@)) is Some
    &&& int_of(member(item, "moonrise"@)) is Some
    &&& int_of(member(item, "moonset"@)) is Some
    &&& float_of(member(item, "moon_phase"@)) is Some
    &&& float_of(member_of(member(item, "temp"@), "day"@)) is Some
    &&& float_of(member_of(member(item, "temp"@), "min"@)) is Some
    &&& float_of(member_of(member(item, "temp"@), "max"@)) is Some
    &&& float_of(member_of(member(item, "temp"@), "night"@)) is Some
    &&& float_of(member_of(member(item, "temp"@), "eve"@)) is Some
    &&& float_of(member_of(member(item, "temp"@), "morn"@)) is Some
    &&& float_of(member_of(member(item, "feels_like"@), "day"@)) is Some
    &&& float_of(member_of(member(item, "feels_like"@), "night"@)) is Some
    &&& float_of(member_of(member(item, "feels_like"@), "eve"@)) is Some
    &&& float_of(member_of(member(item, "feels_like"@), "morn"@)) is Some
    &&& int_of(member(item, "pressure"@)) is Some
    &&& int_of(member(item, "humidity"@)) is Some
    &&& float_of(member(item, "dew_point"@)) is Some
    &&& float_of(member(item, "wind_speed"@)) is Some
    &&& int_of(member(item, "wind_deg"@)) is Some
    &&& int_of(member(item, "clouds"@)) is Some
    &&& float_of(member(item, "pop"@)) is Some
    &&& float_of(member(item, "uvi"@)) is Some
    &&& first_of(member(item, "weather"@)) is Some
}

/// Whether `row` holds what a daily element gives; gust, rain and snow stay absent where the element has none.
pub open spec fn daily_row_of(item: Json, row: DailyRow) -> bool {
    &&& int_of(member(item, "dt"@)) == Some(row.forecast_date)
    &&& int_of(member(item, "sunrise"@)) == Some(row.sunrise_time)
    &&& int_of(member(item, "sunset"@)) == Some(row.sunset_time)
    &&& int_of(member(item, "moonrise"@)) == Some(row.moonrise_time)
    &&& int_of(member(item, "moonset"@)) == Some(row.moonset_time)
    &&& float_of(member(item, "moon_phase"@)) == Some(row.moon_phase_fraction@)
    &&& float_of(member_of(member(item, "temp"@), "day"@)) == Some(row.temperature.day@)
    &&& float_of(member_of(member(item, "temp"@), "min"@)) == Some(row.temperature.min@)
    &&& float_of(member_of(member(item, "temp"@), "max"@)) == Some(row.temperature.max@)
    &&& float_of(member_of(member(item, "temp"@), "night"@)) == Some(row.temperature.night@)
    &&& float_of(member_of(member(item, "temp"@), "eve"@)) == Some(row.temperature.evening@)
    &&& float_of(member_of(member(item, "temp"@), "morn"@)) == Some(row.temperature.morning@)
    &&& float_of(member_of(member(item, "feels_like"@), "day"@)) == Some(row.apparent_temperature.day@)
    &&& float_of(member_of(member(item, "feels_like"@), "night"@)) == Some(row.apparent_temperature.night@)
    &&& float_of(member_of(member(item, "feels_like"@), "eve"@)) == Some(row.apparent_temperature.evening@)
    &&& float_of(member_of(member(item, "feels_like"@), "morn"@)) == Some(row.apparent_temperature.morning@)
    &&& int_of(member(item, "pressure"@)) == Some(row.pressure_hpa)
    &&& int_of(member(item, "humidity"@)) == Some(row.humidity_pct)
    &&& float_of(member(item, "dew_point"@)) == Some(row.dew_point_temp@)
    &&& float_of(member(item, "wind_speed"@)) == Some(row.wind_speed_m_s@)
    &&& int_of(member(item, "wind_deg"@)) == Some(row.wind_direction_deg)
    &&& view_opt(row.wind_gust_speed_m_s) == float_of(member(item, "wind_gust"@))
    &&& int_of(member(item, "clouds"@)) == Some(row.cloud_cover_pct)
    &&& float_of(member(item, "pop"@)) == Some(row.precipitation_probability@)
    &&& view_opt(row.rain_volume_mm) == float_of(member(item, "rain"@))
    &&& view_opt(row.snow_volume_mm) == float_of(member(item, "snow"@))
    &&& float_of(member(item, "uvi"@)) == Some(row.uv_index@)
    &&& condition_of(item, row.weather)
}

/// Decodes one daily element.
fn decode_daily_item(item: &Json) -> (r: Result<DailyRow, FdwError>)
    ensures
        r is Ok <==> daily_ok(*item),
        r matches Ok(row) ==> daily_row_of(*item, row),
        r matches Err(e) ==> e.kind == ErrorKind::MalformedResponse,
{
    let o = Some(item);
    let temp_obj = get(item, "temp");
    let feels_like_obj = get(item, "feels_like");
    let forecast_date = match req_int(o, "dt", "' in daily element") { Ok(x) => x, Err(e) => return Err(e) };
    let sunrise_time = match req_int(o, "sunrise", "' in daily element") { Ok(x) => x, Err(e) => return Err(e) };
    let sunset_time = match req_int(o, "sunset", "' in daily element") { Ok(x) => x, Err(e) => return Err(e) };
    let moonrise_time = match req_int(o, "moonrise", "' in daily element") { Ok(x) => x, Err(e) => return Err(e) };
    let moonset_time = match req_int(o, "moonset", "' in daily element") { Ok(x) => x, Err(e) => return Err(e) };
    let moon_phase_fraction = match req_float(o, "moon_phase", "' in daily element") { Ok(x) => x, Err(e) => return Err(e) };
    let temperature_day = match req_float(temp_obj, "day", "' in the 'temp' object of daily element") { Ok(x) => x, Err(e) => return Err(e) };
    let temperature_min = match req_float(temp_obj, "min", "' in the 'temp' object of daily element") { Ok(x) => x, Err(e) => return Err(e) };
    let temperature_max = match req_float(temp_obj, "max", "' in the 'temp' object of daily element") { Ok(x) => x, Err(e) => return Err(e) };
    let temperature_night = match req_float(temp_obj, "night", "' in the 'temp' object of daily element") { Ok(x) => x, Err(e) => return Err(e) };
    let temperature_evening = match req_float(temp_obj, "eve", "' in the 'temp' object of daily element") { Ok(x) => x, Err(e) => return Err(e) };
    let temperature_morning = match req_float(temp_obj, "morn", "' in the 'temp' object of daily element") { Ok(x) => x, Err(e) => return Err(e) };
    let apparent_temperature_day = match req_float(feels_like_obj, "day", "' in the 'feels_like' object of daily element") { Ok(x) => x, Err(e) => return Err(e) };
    let apparent_temperature_night = match req_float(feels_like_obj, "night", "' in the 'feels_like' object of daily element") { Ok(x) => x, Err(e) => return Err(e) };
    let apparent_temperature_evening = match req_float(feels_like_obj, "eve", "' in the 'feels_like' object of daily element") { Ok(x) => x, Err(e) => return Err(e) };
    let apparent_temperature_morning = match req_float(feels_like_obj, "morn", "' in the 'feels_like' object of daily element") { Ok(x) => x, Err(e) => return Err(e) };
    let pressure_hpa = match req_int(o, "pressure", "' in daily element") { Ok(x) => x, Err(e) => return Err(e) };
    let humidity_pct = match req_int(o, "humidity", "' in daily element") { Ok(x) => x, Err(e) => return Err(e) };
    let dew_point_temp = match req_float(o, "dew_point", "' in daily element") { Ok(x) => x, Err(e) => return Err(e) };
    let wind_speed_m_s = match req_float(o, "wind_speed", "' in daily element") { Ok(x) => x, Err(e) => return Err(e) };
    let wind_direction_deg = match req_int(o, "wind_deg", "' in daily element") { Ok(x) => x, Err(e) => return Err(e) };
    let wind_gust_speed_m_s = opt_float(o, "wind_gust");
    let cloud_cover_pct = match req_int(o, "clouds", "' in daily element") { Ok(x) => x, Err(e) => return Err(e) };
    let precipitation_probability = match req_float(o, "pop", "' in daily element") { Ok(x) => x, Err(e) => return Err(e) };
    let rain_volume_mm = opt_float(o, "rain");
    let snow_volume_mm = opt_float(o, "snow");
    let uv_index = match req_float(o, "uvi", "' in daily element") { Ok(x) => x, Err(e) => return Err(e) };
    let weather = match condition(item) { Ok(x) => x, Err(e) => return Err(e) };
    Ok(DailyRow {
        forecast_date,
        sunrise_time,
        sunset_time,
        moonrise_time,
        moonset_time,
        moon_phase_fraction,
        pressure_hpa,
        humidity_pct,
        dew_point_temp,
        wind_speed_m_s,
        wind_direction_deg,
        wind_gust_speed_m_s,
        cloud_cover_pct,
        precipitation_probability,
        rain_volume_mm,
        snow_volume_mm,
        uv_index,
        weather,
        temperature: DayTemperatures { day: temperature_day, min: temperature_min, max: temperature_max, night: temperature_night, evening: temperature_evening, morning: temperature_morning },
        apparent_temperature: DayApparent { day: apparent_temperature_day, night: apparent_temperature_night, evening: apparent_temperature_evening, morning: apparent_temperature_morning },
    })
}

/// Whether a historical record holds every field that the historical row needs.
pub open spec fn historical_ok(item: Json) -> bool {
    &&& int_of(member(item, "dt"@)) is Some
    &&& float_of(member(item, "temp"@)) is Some
    &&& float_of(member(item, "feels_like"@)) is Some
    &&& int_of(member(item, "pressure"@)) is Some
    &&& int_of(member(item, "humidity"@)) is Some
    &&& float_of(member(item, "dew_point"@)) is Some
    &&& int_of(member(item, "clouds"@)) is Some
    &&& int_of(member(item, "visibility"@)) is Some
    &&& float_of(member(item, "wind_speed"@)) is Some
    &&& int_of(member(item, "wind_deg"@)) is Some
    &&& first_of(member(item, "weather"@)) is Some
}

/// Whether `row` holds what a historical record gives.
pub open spec fn historical_row_of(item: Json, row: HistoricalRow) -> bool {
    &&& int_of(member(item, "dt"@)) == Some(row.observation_time)
    &&& float_of(member(item, "temp"@)) == Some(row.temperature_temp@)
    &&& float_of(member(item, "feels_like"@)) == Some(row.apparent_temperature_temp@)
    &&& int_of(member(item, "pressure"@)) == Some(row.pressure_hpa)
    &&& int_of(member(item, "humidity"@)) == Some(row.humidity_pct)
    &&& float_of(member(item, "dew_point"@)) == Some(row.dew_point_temp@)
    &&& int_of(member(item, "clouds"@)) == Some(row.cloud_cover_pct)
    &&& int_of(member(item, "visibility"@)) == Some(row.visibility_m)
    &&& float_of(member(item, "wind_speed"@)) == Some(row.wind_speed_m_s@)
    &&& int_of(member(item, "wind_deg"@)) == Some(row.wind_direction_deg)
    &&& condition_of(item, row.weather)
}

/// Decodes the record of a historical response.
fn decode_historical_item(item: &Json) -> (r: Result<HistoricalRow, FdwError>)
    ensures
        r is Ok <==> historical_ok(*item),
        r matches Ok(row) ==> historical_row_of(*item, row),
        r matches Err(e) ==> e.kind == ErrorKind::MalformedResponse,
{
    let o = Some(item);
    let observation_time = match req_int(o, "dt", "' in historical record") { Ok(x) => x, Err(e) => return Err(e) };
    let temperature_temp = match req_float(o, "temp", "' in historical record") { Ok(x) => x, Err(e) => return Err(e) };
    let apparent_temperature_temp = match req_float(o, "feels_like", "' in historical record") { Ok(x) => x, Err(e) => return Err(e) };
    let pressure_hpa = match req_int(o, "pressure", "' in historical record") { Ok(x) => x, Err(e) => return Err(e) };
    let humidity_pct = match req_int(o, "humidity", "' in historical record") { Ok(x) => x, Err(e) => return Err(e) };
    let dew_point_temp = match req_float(o, "dew_point", "' in historical record") { Ok(x) => x, Err(e) => return Err(e) };
    let cloud_cover_pct = match req_int(o, "clouds", "' in historical record") { Ok(x) => x, Err(e) => return Err(e) };
    let visibility_m = match req_int(o, "visibility", "' in historical record") { Ok(x) => x, Err(e) => return Err(e) };
    let wind_speed_m_s = match req_float(o, "wind_speed", "' in historical record") { Ok(x) => x, Err(e) => return Err(e) };
    let wind_direction_deg = match req_int(o, "wind_deg", "' in historical record") { Ok(x) => x, Err(e) => return Err(e) };
    let weather = match condition(item) { Ok(x) => x, Err(e) => return Err(e) };
    Ok(HistoricalRow {
        observation_time,
        temperature_temp,
        apparent_temperature_temp,
        pressure_hpa,
        humidity_pct,
        dew_point_temp,
        cloud_cover_pct,
        visibility_m,
        wind_speed_m_s,
        wind_direction_deg,
        weather,
    })
}
/// Whether each element of `items` decodes as a minutely row.
pub open spec fn all_minutely_ok(items: Seq<Json>) -> bool {
    forall|i: int| 0 <= i < items.len() ==> minutely_ok(#[trigger] items[i])
}

/// Whether the `minutely` array is present and each of its elements decodes.
pub open spec fn minutely_section_ok(doc: Json) -> bool {
    match array_of(member(doc, "minutely"@)) {
        Some(items) => all_minutely_ok(items),
        None => false,
    }
}

/// Whether `d` holds the location and, in order, one row for each element of the `minutely` array.
pub open spec fn minutely_data_of(doc: Json, lat: Seq<char>, lon: Seq<char>, d: EndpointData) -> bool {
    match (d, array_of(member(doc, "minutely"@))) {
        (EndpointData::MinutelyForecast { latitude, longitude, rows }, Some(items)) => {
            &&& latitude@ == lat
            &&& longitude@ == lon
            &&& rows@.len() == items.len()
            &&& forall|i: int| 0 <= i < items.len() ==> minutely_row_of(#[trigger] items[i], rows@[i])
        },
        _ => false,
    }
}

/// Decodes the `minutely` array of a `/onecall` response, one row per element;
/// an element that lacks a required field fails the whole decode.
pub fn decode_minutely(doc: &Json, lat: &String, lon: &String) -> (r: Result<EndpointData, FdwError>)
    ensures
        r is Ok <==> minutely_section_ok(*doc),
        r matches Ok(d) ==> minutely_data_of(*doc, lat@, lon@, d),
        r matches Err(e) ==> e.kind == ErrorKind::MalformedResponse,
{
    let items = match as_array(get(doc, "minutely")) {
        Some(v) => v,
        None => return Err(FdwError::new(ErrorKind::MalformedResponse, "missing 'minutely' array in /onecall response")),
    };
    let mut rows: Vec<MinutelyRow> = Vec::new();
    let mut i: usize = 0;
    while i < items.len()
        invariant
            i <= items@.len(),
            array_of(member(*doc, "minutely"@)) == Some(items@),
            rows@.len() == i,
            forall|k: int| 0 <= k < i ==> minutely_ok(#[trigger] items@[k]),
            forall|k: int| 0 <= k < i ==> minutely_row_of(#[trigger] items@[k], rows@[k]),
        decreases items@.len() - i,
    {
        match decode_minutely_item(&items[i]) {
            Ok(row) => rows.push(row),
            Err(e) => {
                assert(!minutely_ok(items@[i as int]));
                return Err(e);
            },
        }
        i = i + 1;
    }
    Ok(EndpointData::MinutelyForecast { latitude: lat.clone(), longitude: lon.clone(), rows })
}

/// Whether each element of `items` decodes as a hourly row.
pub open spec fn all_hourly_ok(items: Seq<Json>) -> bool {
    forall|i: int| 0 <= i < items.len() ==> hourly_ok(#[trigger] items[i])
}

/// Whether the `hourly` array is present and each of its elements decodes.
pub open spec fn hourly_section_ok(doc: Json) -> bool {
    match array_of(member(doc, "hourly"@)) {
        Some(items) => all_hourly_ok(items),
        None => false,
    }
}

/// Whether `d` holds the location and, in order, one row for each element of the `hourly` array.
pub open spec fn hourly_data_of(doc: Json, lat: Seq<char>, lon: Seq<char>, d: EndpointData) -> bool {
    match (d, array_of(member(doc, "hourly"@))) {
        (EndpointData::HourlyForecast { latitude, longitude, rows }, Some(items)) => {
            &&& latitude@ == lat
            &&& longitude@ == lon
            &&& rows@.len() == items.len()
            &&& forall|i: int| 0 <= i < items.len() ==> hourly_row_of(#[trigger] items[i], rows@[i])
        },
        _ => false,
    }
}

/// Decodes the `hourly` array of a `/onecall` response, one row per element;
/// an element that lacks a required field fails the whole decode.
pub fn decode_hourly(doc: &Json, lat: &String, lon: &String) -> (r: Result<EndpointData, FdwError>)
    ensures
        r is Ok <==> hourly_section_ok(*doc),
        r matches Ok(d) ==> hourly_data_of(*doc, lat@, lon@, d),
        r matches Err(e) ==> e.kind == ErrorKind::MalformedResponse,
{
    let items = match as_array(get(doc, "hourly")) {
        Some(v) => v,
        None => return Err(FdwError::new(ErrorKind::MalformedResponse, "missing 'hourly' array in /onecall response")),
    };
    let mut rows: Vec<HourlyRow> = Vec::new();
    let mut i: usize = 0;
    while i < items.len()
        invariant
            i <= items@.len(),
            array_of(member(*doc, "hourly"@)) == Some(items@),
            rows@.len() == i,
            forall|k: int| 0 <= k < i ==> hourly_ok(#[trigger] items@[k]),
            forall|k: int| 0 <= k < i ==> hourly_row_of(#[trigger] items@[k], rows@[k]),
        decreases items@.len() - i,
    {
        match decode_hourly_item(&items[i]) {
            Ok(row) => rows.push(row),
            Err(e) => {
                assert(!hourly_ok(items@[i as int]));
                return Err(e);
            },
        }
        i = i + 1;
    }
    Ok(EndpointData::HourlyForecast { latitude: lat.clone(), longitude: lon.clone(), rows })
}

/// Whether each element of `items` decodes as a daily row.
pub open spec fn all_daily_ok(items: Seq<Json>) -> bool {
    forall|i: int| 0 <= i < items.len() ==> daily_ok(#[trigger] items[i])
}

/// Whether the `daily` array is present and each of its elements decodes.
pub open spec fn daily_section_ok(doc: Json) -> bool {
    match array_of(member(doc, "daily"@)) {
        Some(items) => all_daily_ok(items),
        None => false,
    }
}

/// Whether `d` holds the location and, in order, one row for each element of the `daily` array.
pub open spec fn daily_data_of(doc: Json, lat: Seq<char>, lon: Seq<char>, d: EndpointData) -> bool {
    match (d, array_of(member(doc, "daily"@))) {
        (EndpointData::DailyForecast { latitude, longitude, rows }, Some(items)) => {
            &&& latitude@ == lat
            &&& longitude@ == lon
            &&& rows@.len() == items.len()
            &&& forall|i: int| 0 <= i < items.len() ==> daily_row_of(#[trigger] items[i], rows@[i])
        },
        _ => false,
    }
}

/// Decodes the `daily` array of a `/onecall` response, one row per element;
/// an element that lacks a required field fails the whole decode.
pub fn decode_daily(doc: &Json, lat: &String, lon: &String) -> (r: Result<EndpointData, FdwError>)
    ensures
        r is Ok <==> daily_section_ok(*doc),
        r matches Ok(d) ==> daily_data_of(*doc, lat@, lon@, d),
        r matches Err(e) ==> e.kind == ErrorKind::MalformedResponse,
{
    let items = match as_array(get(doc, "daily")) {
        Some(v) => v,
        None => return Err(FdwError::new(ErrorKind::MalformedResponse, "missing 'daily' array in /onecall response")),
    };
    let mut rows: Vec<DailyRow> = Vec::new();
    let mut i: usize = 0;
    while i < items.len()
        invariant
            i <= items@.len(),
            array_of(member(*doc, "daily"@)) == Some(items@),
            rows@.len() == i,
            forall|k: int| 0 <= k < i ==> daily_ok(#[trigger] items@[k]),
            forall|k: int| 0 <= k < i ==> daily_row_of(#[trigger] items@[k], rows@[k]),
        decreases items@.len() - i,
    {
        match decode_daily_item(&items[i]) {
            Ok(row) => rows.push(row),
            Err(e) => {
                assert(!daily_ok(items@[i as int]));
                return Err(e);
            },
        }
        i = i + 1;
    }
    Ok(EndpointData::DailyForecast { latitude: lat.clone(), longitude: lon.clone(), rows })
}

/// Whether the `current` section is present and holds every required field.
pub open spec fn current_section_ok(doc: Json) -> bool {
    match member(doc, "current"@) {
        Some(c) => current_ok(c),
        None => false,
    }
}

/// Whether `d` holds the location, the time zone name (`UTC` where the
/// response has none) and the row of the `current` section.
pub open spec fn current_data_of(doc: Json, lat: Seq<char>, lon: Seq<char>, d: EndpointData) -> bool {
    match (d, member(doc, "current"@)) {
        (EndpointData::CurrentWeather { latitude, longitude, timezone_name, row }, Some(c)) => {
            &&& latitude@ == lat
            &&& longitude@ == lon
            &&& timezone_name@ == text_or(text_of(member(doc, "timezone"@)), "UTC"@)
            &&& current_row_of(c, row)
        },
        _ => false,
    }
}

/// Decodes the `current` section of a `/onecall` response into one row.
pub fn decode_current(doc: &Json, lat: &String, lon: &String) -> (r: Result<EndpointData, FdwError>)
    ensures
        r is Ok <==> current_section_ok(*doc),
        r matches Ok(d) ==> current_data_of(*doc, lat@, lon@, d),
        r matches Err(e) ==> e.kind == ErrorKind::MalformedResponse,
{
    let current = match get(doc, "current") {
        Some(c) => c,
        None => return Err(FdwError::new(ErrorKind::MalformedResponse, "missing 'current' object in /onecall response")),
    };
    let row = match decode_current_item(current) {
        Ok(row) => row,
        Err(e) => return Err(e),
    };
    let timezone_name = text_or_default(get(doc, "timezone"), "UTC");
    Ok(EndpointData::CurrentWeather { latitude: lat.clone(), longitude: lon.clone(), timezone_name, row })
}

/// The record that a historical response reports: the first element of its `data` array.
pub open spec fn historical_record(doc: Json) -> Option<Json> {
    first_of(member(doc, "data"@))
}

/// Whether the `data` array is present, non-empty, and its first element holds every required field.
pub open spec fn historical_section_ok(doc: Json) -> bool {
    match historical_record(doc) {
        Some(h) => historical_ok(h),
        None => false,
    }
}

/// Whether `d` holds the location and the row of the first `data` element; later elements are ignored.
pub open spec fn historical_data_of(doc: Json, lat: Seq<char>, lon: Seq<char>, d: EndpointData) -> bool {
    match (d, historical_record(doc)) {
        (EndpointData::HistoricalWeather { latitude, longitude, row }, Some(h)) => {
            &&& latitude@ == lat
            &&& longitude@ == lon
            &&& historical_row_of(h, row)
        },
        _ => false,
    }
}

/// Decodes a `/onecall/timemachine` response from the first element of its `data` array.
pub fn decode_historical(doc: &Json, lat: &String, lon: &String) -> (r: Result<EndpointData, FdwError>)
    ensures
        r is Ok <==> historical_section_ok(*doc),
        r matches Ok(d) ==> historical_data_of(*doc, lat@, lon@, d),
        array_of(member(*doc, "data"@)) == Some(Seq::<Json>::empty())
            ==> (r matches Err(e) && e.message@ == "data array is empty"@),
        r matches Err(e) ==> e.kind == ErrorKind::MalformedResponse,
{
    let data = match as_array(get(doc, "data")) {
        Some(v) => v,
        None => return Err(FdwError::new(ErrorKind::MalformedResponse, "missing 'data' array in timemachine response")),
    };
    if data.len() == 0 {
        return Err(FdwError::new(ErrorKind::MalformedResponse, "data array is empty"));
    }
    let row = match decode_historical_item(&data[0]) {
        Ok(row) => row,
        Err(e) => return Err(e),
    };
    Ok(EndpointData::HistoricalWeather { latitude: lat.clone(), longitude: lon.clone(), row })
}

/// The strings among `s`, in order; other values are skipped.
pub open spec fn string_elems(s: Seq<Json>) -> Seq<Seq<char>>
    decreases s.len(),
{
    if s.len() == 0 {
        Seq::empty()
    } else {
        let rest = string_elems(s.drop_last());
        match s.last() {
            Json::Str(t) => rest.push(t@),
            _ => rest,
        }
    }
}

/// The texts of a sequence of strings.
pub open spec fn texts_of(v: Seq<String>) -> Seq<Seq<char>> {
    v.map_values(|t: String| t@)
}

/// The elements of an optional array; none where it is absent.
pub open spec fn elems_or_none(o: Option<Seq<Json>>) -> Seq<Json> {
    match o {
        Some(s) => s,
        None => Seq::empty(),
    }
}

/// Whether `row` holds what an alert element gives, each field with its default where it is absent.
pub open spec fn alert_row_of(item: Json, row: AlertRow) -> bool {
    &&& row.alert_sender_name@ == text_or(text_of(member(item, "sender_name"@)), "Unknown"@)
    &&& row.alert_event_type@ == text_or(text_of(member(item, "event"@)), "Unknown"@)
    &&& row.alert_start_time == int_or(int_of(member(item, "start"@)), 0)
    &&& row.alert_end_time == int_or(int_of(member(item, "end"@)), 0)
    &&& row.alert_description@ == text_or(text_of(member(item, "description"@)), ""@)
    &&& texts_of(row.alert_tags@) == string_elems(elems_or_none(array_of(member(item, "tags"@))))
}

/// The alert elements of a response: those of its `alerts` array, or none where it has no such array.
pub open spec fn alert_items(doc: Json) -> Seq<Json> {
    elems_or_none(array_of(member(doc, "alerts"@)))
}

/// Whether `alerts` holds one row for each alert element, in order.
pub open spec fn alert_rows_of(items: Seq<Json>, alerts: Seq<AlertRow>) -> bool {
    &&& alerts.len() == items.len()
    &&& forall|i: int| 0 <= i < items.len() ==> alert_row_of(#[trigger] items[i], alerts[i])
}

/// Whether `d` holds the location and one row for each alert element.
pub open spec fn alerts_data_of(doc: Json, lat: Seq<char>, lon: Seq<char>, d: EndpointData) -> bool {
    match d {
        EndpointData::WeatherAlerts { latitude, longitude, alerts } => {
            &&& latitude@ == lat
            &&& longitude@ == lon
            &&& alert_rows_of(alert_items(doc), alerts@)
        },
        _ => false,
    }
}

/// The string elements of an alert's `tags` array.
fn decode_tags(item: &Json) -> (r: Vec<String>)
    ensures
        texts_of(r@) == string_elems(elems_or_none(array_of(member(*item, "tags"@)))),
{
    let mut tags: Vec<String> = Vec::new();
    match as_array(get(item, "tags")) {
        Some(v) => {
            let mut i: usize = 0;
            while i < v.len()
                invariant
                    i <= v@.len(),
                    texts_of(tags@) == string_elems(v@.subrange(0, i as int)),
                decreases v@.len() - i,
            {
                let ghost before = tags@;
                assert(v@.subrange(0, i + 1).drop_last() =~= v@.subrange(0, i as int));
                match &v[i] {
                    Json::Str(t) => {
                        tags.push(t.clone());
                        assert(texts_of(tags@) =~= texts_of(before).push(t@));
                    },
                    _ => {},
                }
                i = i + 1;
            }
            assert(v@.subrange(0, v@.len() as int) =~= v@);
        },
        None => {
            assert(texts_of(tags@) =~= Seq::<Seq<char>>::empty());
        },
    }
    tags
}

/// Decodes one alert element; absent fields take their defaults.
fn decode_alert(item: &Json) -> (r: AlertRow)
    ensures
        alert_row_of(*item, r),
{
    let o = Some(item);
    AlertRow {
        alert_sender_name: text_or_default(get(item, "sender_name"), "Unknown"),
        alert_event_type: text_or_default(get(item, "event"), "Unknown"),
        alert_start_time: int_or_zero(o, "start"),
        alert_end_time: int_or_zero(o, "end"),
        alert_description: text_or_default(get(item, "description"), ""),
        alert_tags: decode_tags(item),
    }
}

/// Decodes the `alerts` array of a `/onecall` response. A response without
/// one has no alerts: the result is then an empty row set, not an error.
pub fn decode_alerts(doc: &Json, lat: &String, lon: &String) -> (r: EndpointData)
    ensures
        alerts_data_of(*doc, lat@, lon@, r),
{
    let mut alerts: Vec<AlertRow> = Vec::new();
    match as_array(get(doc, "alerts")) {
        Some(items) => {
            let mut i: usize = 0;
            while i < items.len()
                invariant
                    i <= items@.len(),
                    alert_items(*doc) == items@,
                    alerts@.len() == i,
                    forall|k: int| 0 <= k < i ==> alert_row_of(#[trigger] items@[k], alerts@[k]),
                decreases items@.len() - i,
            {
                alerts.push(decode_alert(&items[i]));
                i = i + 1;
            }
        },
        None => {},
    }
    EndpointData::WeatherAlerts { latitude: lat.clone(), longitude: lon.clone(), alerts }
}

/// Whether a day-summary response holds its location, its minimum and
/// maximum temperature, and a `wind` object with a `max` object.
pub open spec fn summary_ok(doc: Json) -> bool {
    &&& float_of(member(doc, "lat"@)) is Some
    &&& float_of(member(doc, "lon"@)) is Some
    &&& float_of(member_of(member(doc, "temperature"@), "min"@)) is Some
    &&& float_of(member_of(member(doc, "temperature"@), "max"@)) is Some
    &&& object_of(member_of(member(doc, "wind"@), "max"@)) is Some
}

/// A floating member of a nested object, or zero where it is absent.
pub open spec fn nested_or_zero(doc: Json, outer: Seq<char>, inner: Seq<char>) -> Seq<char> {
    text_or(float_of(member_of(member(doc, outer), inner)), "0"@)
}

/// Whether `d` holds what a day-summary response gives. Its location comes
/// from the response; absent texts take their defaults and absent
/// quantities read as zero.
pub open spec fn summary_data_of(doc: Json, d: EndpointData) -> bool {
    match d {
        EndpointData::DailySummary { latitude, longitude, row } => {
            &&& float_of(member(doc, "lat"@)) == Some(latitude@)
            &&& float_of(member(doc, "lon"@)) == Some(longitude@)
            &&& row.timezone_offset@ == text_or(text_of(member(doc, "tz"@)), "+00:00"@)
            &&& row.summary_date@ == text_or(text_of(member(doc, "date"@)), ""@)
            &&& row.unit_system@ == text_or(text_of(member(doc, "units"@)), "metric"@)
            &&& float_of(member_of(member(doc, "temperature"@), "min"@)) == Some(row.temperature_min_temp@)
            &&& float_of(member_of(member(doc, "temperature"@), "max"@)) == Some(row.temperature_max_temp@)
            &&& row.temperature_morning_temp@ == nested_or_zero(doc, "temperature"@, "morning"@)
            &&& row.temperature_afternoon_temp@ == nested_or_zero(doc, "temperature"@, "afternoon"@)
            &&& row.temperature_evening_temp@ == nested_or_zero(doc, "temperature"@, "evening"@)
            &&& row.temperature_night_temp@ == nested_or_zero(doc, "temperature"@, "night"@)
            &&& row.cloud_cover_afternoon_pct@ == nested_or_zero(doc, "cloud_cover"@, "afternoon"@)
            &&& row.humidity_afternoon_pct@ == nested_or_zero(doc, "humidity"@, "afternoon"@)
            &&& row.pressure_afternoon_hpa@ == nested_or_zero(doc, "pressure"@, "afternoon"@)
            &&& row.precipitation_total_mm@ == nested_or_zero(doc, "precipitation"@, "total"@)
            &&& row.wind_max_speed_m_s@ == text_or(
                float_of(member_of(member_of(member(doc, "wind"@), "max"@), "speed"@)),
                "0"@,
            )
            &&& row.wind_max_direction_deg@ == text_or(
                float_of(member_of(member_of(member(doc, "wind"@), "max"@), "direction"@)),
                "0"@,
            )
        },
        _ => false,
    }
}

/// Decodes a `/onecall/day_summary` response into one row.
pub fn decode_summary(doc: &Json) -> (r: Result<EndpointData, FdwError>)
    ensures
        r is Ok <==> summary_ok(*doc),
        r matches Ok(d) ==> summary_data_of(*doc, d),
        r matches Err(e) ==> e.kind == ErrorKind::MalformedResponse,
{
    let o = Some(doc);
    let latitude = match req_float(o, "lat", "' in day summary") {
        Ok(x) => x,
        Err(e) => return Err(e),
    };
    let longitude = match req_float(o, "lon", "' in day summary") {
        Ok(x) => x,
        Err(e) => return Err(e),
    };
    let temperature = get(doc, "temperature");
    let temperature_min_temp = match req_float(temperature, "min", "' in the 'temperature' object") {
        Ok(x) => x,
        Err(e) => return Err(e),
    };
    let temperature_max_temp = match req_float(temperature, "max", "' in the 'temperature' object") {
        Ok(x) => x,
        Err(e) => return Err(e),
    };
    let wind_max = as_object(get_in(get(doc, "wind"), "max"));
    if wind_max.is_none() {
        return Err(FdwError::new(ErrorKind::MalformedResponse, "missing 'wind.max' object in day summary"));
    }
    let row = SummaryRow {
        timezone_offset: text_or_default(get(doc, "tz"), "+00:00"),
        summary_date: text_or_default(get(doc, "date"), ""),
        unit_system: text_or_default(get(doc, "units"), "metric"),
        temperature_min_temp,
        temperature_max_temp,
        temperature_morning_temp: float_or_zero(temperature, "morning"),
        temperature_afternoon_temp: float_or_zero(temperature, "afternoon"),
        temperature_evening_temp: float_or_zero(temperature, "evening"),
        temperature_night_temp: float_or_zero(temperature, "night"),
        cloud_cover_afternoon_pct: float_or_zero(get(doc, "cloud_cover"), "afternoon"),
        humidity_afternoon_pct: float_or_zero(get(doc, "humidity"), "afternoon"),
        pressure_afternoon_hpa: float_or_zero(get(doc, "pressure"), "afternoon"),
        precipitation_total_mm: float_or_zero(get(doc, "precipitation"), "total"),
        wind_max_speed_m_s: float_or_zero(wind_max, "speed"),
        wind_max_direction_deg: float_or_zero(wind_max, "direction"),
    };
    Ok(EndpointData::DailySummary { latitude, longitude, row })
}

/// Whether a weather-overview response holds its location.
pub open spec fn overview_ok(doc: Json) -> bool {
    &&& float_of(member(doc, "lat"@)) is Some
    &&& float_of(member(doc, "lon"@)) is Some
}

/// Whether `d` holds what a weather-overview response gives, absent texts with their defaults.
pub open spec fn overview_data_of(doc: Json, d: EndpointData) -> bool {
    match d {
        EndpointData::WeatherOverview { latitude, longitude, row } => {
            &&& float_of(member(doc, "lat"@)) == Some(latitude@)
            &&& float_of(member(doc, "lon"@)) == Some(longitude@)
            &&& row.timezone_offset@ == text_or(text_of(member(doc, "tz"@)), "+00:00"@)
            &&& row.overview_date@ == text_or(text_of(member(doc, "date"@)), ""@)
            &&& row.unit_system@ == text_or(text_of(member(doc, "units"@)), "metric"@)
            &&& row.weather_overview@ == text_or(text_of(member(doc, "weather_overview"@)), ""@)
        },
        _ => false,
    }
}

/// Decodes a `/onecall/overview` response into one row.
pub fn decode_overview(doc: &Json) -> (r: Result<EndpointData, FdwError>)
    ensures
        r is Ok <==> overview_ok(*doc),
        r matches Ok(d) ==> overview_data_of(*doc, d),
        r matches Err(e) ==> e.kind == ErrorKind::MalformedResponse,
{
    let o = Some(doc);
    let latitude = match req_float(o, "lat", "' in weather overview") {
        Ok(x) => x,
        Err(e) => return Err(e),
    };
    let longitude = match req_float(o, "lon", "' in weather overview") {
        Ok(x) => x,
        Err(e) => return Err(e),
    };
    let row = OverviewRow {
        timezone_offset: text_or_default(get(doc, "tz"), "+00:00"),
        overview_date: text_or_default(get(doc, "date"), ""),
        unit_system: text_or_default(get(doc, "units"), "metric"),
        weather_overview: text_or_default(get(doc, "weather_overview"), ""),
    };
    Ok(EndpointData::WeatherOverview { latitude, longitude, row })
}

/// Whether a response decodes for an endpoint.
pub open spec fn decodes(e: EndpointType, doc: Json) -> bool {
    match e {
        EndpointType::CurrentWeather => current_section_ok(doc),
        EndpointType::MinutelyForecast => minutely_section_ok(doc),
        EndpointType::HourlyForecast => hourly_section_ok(doc),
        EndpointType::DailyForecast => daily_section_ok(doc),
        EndpointType::WeatherAlerts => true,
        EndpointType::HistoricalWeather => historical_section_ok(doc),
        EndpointType::DailySummary => summary_ok(doc),
        EndpointType::WeatherOverview => overview_ok(doc),
    }
}

/// Whether `d` is what a response decodes to for an endpoint, at the queried location.
pub open spec fn decoded(e: EndpointType, doc: Json, lat: Seq<char>, lon: Seq<char>, d: EndpointData) -> bool {
    match e {
        EndpointType::CurrentWeather => current_data_of(doc, lat, lon, d),
        EndpointType::MinutelyForecast => minutely_data_of(doc, lat, lon, d),
        EndpointType::HourlyForecast => hourly_data_of(doc, lat, lon, d),
        EndpointType::DailyForecast => daily_data_of(doc, lat, lon, d),
        EndpointType::WeatherAlerts => alerts_data_of(doc, lat, lon, d),
        EndpointType::HistoricalWeather => historical_data_of(doc, lat, lon, d),
        EndpointType::DailySummary => summary_data_of(doc, d),
        EndpointType::WeatherOverview => overview_data_of(doc, d),
    }
}

/// Decodes a response with the decoder of its endpoint.
pub fn decode(e: EndpointType, doc: &Json, lat: &String, lon: &String) -> (r: Result<EndpointData, FdwError>)
    ensures
        r is Ok <==> decodes(e, *doc),
        r matches Ok(d) ==> decoded(e, *doc, lat@, lon@, d),
        r matches Err(err) ==> err.kind == ErrorKind::MalformedResponse,
{
    match e {
        EndpointType::CurrentWeather => decode_current(doc, lat, lon),
        EndpointType::MinutelyForecast => decode_minutely(doc, lat, lon),
        EndpointType::HourlyForecast => decode_hourly(doc, lat, lon),
        EndpointType::DailyForecast => decode_daily(doc, lat, lon),
        EndpointType::WeatherAlerts => Ok(decode_alerts(doc, lat, lon)),
        EndpointType::HistoricalWeather => decode_historical(doc, lat, lon),
        EndpointType::DailySummary => decode_summary(doc),
        EndpointType::WeatherOverview => decode_overview(doc),
    }
}

/// Parses a response body and decodes it for an endpoint. A body that is no
/// JSON document is a malformed response.
pub fn decode_body(e: EndpointType, body: &str, lat: &String, lon: &String) -> (r: Result<EndpointData, FdwError>)
    ensures
        r is Ok <==> (parsed_document(body@) matches Some(doc) && decodes(e, doc)),
        r matches Ok(d) ==> decoded(e, parsed_document(body@)->Some_0, lat@, lon@, d),
        r matches Err(err) ==> err.kind == ErrorKind::MalformedResponse,
{
    match parse_document(body) {
        Ok(doc) => decode(e, &doc, lat, lon),
        Err(msg) => Err(error_with(ErrorKind::MalformedResponse, "JSON parse error: ", msg.as_str(), "")),
    }
}

/// The number of rows that a response holds for an endpoint: the length of
/// its array for the list endpoints, its number of alerts (none where it has
/// no `alerts` array), and one for the others.
pub open spec fn source_rows(e: EndpointType, doc: Json) -> nat {
    match e {
        EndpointType::MinutelyForecast => array_of(member(doc, "minutely"@))->Some_0.len(),
        EndpointType::HourlyForecast => array_of(member(doc, "hourly"@))->Some_0.len(),
        EndpointType::DailyForecast => array_of(member(doc, "daily"@))->Some_0.len(),
        EndpointType::WeatherAlerts => alert_items(doc).len(),
        _ => 1,
    }
}

/// A decoded response has exactly as many rows as its source holds.
pub proof fn lemma_row_count_matches_source(e: EndpointType, doc: Json, lat: Seq<char>, lon: Seq<char>, d: EndpointData)
    requires
        decoded(e, doc, lat, lon, d),
    ensures
        d.spec_row_count() == source_rows(e, doc),
{
}

} // verus!
