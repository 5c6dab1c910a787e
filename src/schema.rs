//! The foreign table definitions that a schema import creates.

use vstd::prelude::*;
use crate::endpoint::EndpointType;
use crate::error::join3;

verus! {

/// The columns of the `current_weather` table.
pub const CURRENT_WEATHER_COLUMNS: &'static str = "    latitude numeric,\n    longitude numeric,\n    timezone_name text,\n    observation_time timestamp with time zone,\n    temperature_temp numeric,\n    apparent_temperature_temp numeric,\n    pressure_hpa numeric,\n    humidity_pct numeric,\n    dew_point_temp numeric,\n    uv_index numeric,\n    cloud_cover_pct numeric,\n    visibility_m numeric,\n    wind_speed_m_s numeric,\n    wind_direction_deg numeric,\n    wind_gust_speed_m_s numeric,\n    weather_condition text,\n    weather_description text,\n    weather_icon_code text";

/// The columns of the `minutely_forecast` table.
pub const MINUTELY_FORECAST_COLUMNS: &'static str = "    latitude numeric,\n    longitude numeric,\n    forecast_time timestamp with time zone,\n    precipitation_mm numeric";

/// The columns of the `hourly_forecast` table.
pub const HOURLY_FORECAST_COLUMNS: &'static str = "    latitude numeric,\n    longitude numeric,\n    forecast_time timestamp with time zone,\n    temperature_temp numeric,\n    apparent_temperature_temp numeric,\n    pressure_hpa numeric,\n    humidity_pct numeric,\n    dew_point_temp numeric,\n    uv_index numeric,\n    cloud_cover_pct numeric,\n    visibility_m numeric,\n    wind_speed_m_s numeric,\n    wind_direction_deg numeric,\n    wind_gust_speed_m_s numeric,\n    precipitation_probability numeric,\n    rain_volume_1h_mm numeric,\n    snow_volume_1h_mm numeric,\n    weather_condition text,\n    weather_description text,\n    weather_icon_code text";

/// The columns of the `daily_forecast` table.
pub const DAILY_FORECAST_COLUMNS: &'static str = "    latitude numeric,\n    longitude numeric,\n    forecast_date timestamp with time zone,\n    sunrise_time timestamp with time zone,\n    sunset_time timestamp with time zone,\n    moonrise_time timestamp with time zone,\n    moonset_time timestamp with time zone,\n    moon_phase_fraction numeric,\n    temperature_day_temp numeric,\n    temperature_min_temp numeric,\n    temperature_max_temp numeric,\n    temperature_night_temp numeric,\n    temperature_evening_temp numeric,\n    temperature_morning_temp numeric,\n    apparent_temperature_day_temp numeric,\n    apparent_temperature_night_temp numeric,\n    apparent_temperature_evening_temp numeric,\n    apparent_temperature_morning_temp numeric,\n    pressure_hpa numeric,\n    humidity_pct numeric,\n    dew_point_temp numeric,\n    wind_speed_m_s numeric,\n    wind_direction_deg numeric,\n    wind_gust_speed_m_s numeric,\n    cloud_cover_pct numeric,\n    precipitation_probability numeric,\n    rain_volume_mm numeric,\n    snow_volume_mm numeric,\n    uv_index numeric,\n    weather_condition text,\n    weather_description text,\n    weather_icon_code text";

/// The columns of the `weather_alerts` table.
pub const WEATHER_ALERTS_COLUMNS: &'static str = "    latitude numeric,\n    longitude numeric,\n    alert_sender_name text,\n    alert_event_type text,\n    alert_start_time timestamp with time zone,\n    alert_end_time timestamp with time zone,\n    alert_description text,\n    alert_tags text";

/// The columns of the `historical_weather` table.
pub const HISTORICAL_WEATHER_COLUMNS: &'static str = "    latitude numeric,\n    longitude numeric,\n    observation_time timestamp with time zone,\n    temperature_temp numeric,\n    apparent_temperature_temp numeric,\n    pressure_hpa numeric,\n    humidity_pct numeric,\n    dew_point_temp numeric,\n    cloud_cover_pct numeric,\n    visibility_m numeric,\n    wind_speed_m_s numeric,\n    wind_direction_deg numeric,\n    weather_condition text,\n    weather_description text,\n    weather_icon_code text";

/// The columns of the `daily_summary` table.
pub const DAILY_SUMMARY_COLUMNS: &'static str = "    latitude numeric,\n    longitude numeric,\n    timezone_offset text,\n    summary_date text,\n    unit_system text,\n    temperature_min_temp numeric,\n    temperature_max_temp numeric,\n    temperature_morning_temp numeric,\n    temperature_afternoon_temp numeric,\n    temperature_evening_temp numeric,\n    temperature_night_temp numeric,\n    cloud_cover_afternoon_pct numeric,\n    humidity_afternoon_pct numeric,\n    pressure_afternoon_hpa numeric,\n    precipitation_total_mm numeric,\n    wind_max_speed_m_s numeric,\n    wind_max_direction_deg numeric";

/// The columns of the `weather_overview` table.
pub const WEATHER_OVERVIEW_COLUMNS: &'static str = "    latitude numeric,\n    longitude numeric,\n    timezone_offset text,\n    overview_date text,\n    unit_system text,\n    weather_overview text";

/// The column definitions of the table of an endpoint.
pub open spec fn table_columns(e: EndpointType) -> Seq<char> {
    match e {
        EndpointType::CurrentWeather => CURRENT_WEATHER_COLUMNS@,
        EndpointType::MinutelyForecast => MINUTELY_FORECAST_COLUMNS@,
        EndpointType::HourlyForecast => HOURLY_FORECAST_COLUMNS@,
        EndpointType::DailyForecast => DAILY_FORECAST_COLUMNS@,
        EndpointType::WeatherAlerts => WEATHER_ALERTS_COLUMNS@,
        EndpointType::HistoricalWeather => HISTORICAL_WEATHER_COLUMNS@,
        EndpointType::DailySummary => DAILY_SUMMARY_COLUMNS@,
        EndpointType::WeatherOverview => WEATHER_OVERVIEW_COLUMNS@,
    }
}

/// The column definitions of the table of an endpoint.
pub fn columns_of(e: EndpointType) -> (r: &'static str)
    ensures
        r@ == table_columns(e),
{
    match e {
        EndpointType::CurrentWeather => CURRENT_WEATHER_COLUMNS,
        EndpointType::MinutelyForecast => MINUTELY_FORECAST_COLUMNS,
        EndpointType::HourlyForecast => HOURLY_FORECAST_COLUMNS,
        EndpointType::DailyForecast => DAILY_FORECAST_COLUMNS,
        EndpointType::WeatherAlerts => WEATHER_ALERTS_COLUMNS,
        EndpointType::HistoricalWeather => HISTORICAL_WEATHER_COLUMNS,
        EndpointType::DailySummary => DAILY_SUMMARY_COLUMNS,
        EndpointType::WeatherOverview => WEATHER_OVERVIEW_COLUMNS,
    }
}

/// The endpoints in the order that a schema import defines their tables.
pub open spec fn endpoint_order() -> Seq<EndpointType> {
    seq![
        EndpointType::CurrentWeather,
        EndpointType::MinutelyForecast,
        EndpointType::HourlyForecast,
        EndpointType::DailyForecast,
        EndpointType::WeatherAlerts,
        EndpointType::HistoricalWeather,
        EndpointType::DailySummary,
        EndpointType::WeatherOverview,
    ]
}

/// The statement that defines the foreign table of an endpoint on a server.
pub open spec fn table_ddl(e: EndpointType, server: Seq<char>) -> Seq<char> {
    "create foreign table if not exists "@ + e.table_name() + " (\n"@ + table_columns(e)
        + "\n)\nserver "@ + server + " options (\n    object '"@ + e.table_name() + "'\n)"@
}

/// The table name of an endpoint.
fn name_of(e: EndpointType) -> (r: &'static str)
    ensures
        r@ == e.table_name(),
{
    match e {
        EndpointType::CurrentWeather => "current_weather",
        EndpointType::MinutelyForecast => "minutely_forecast",
        EndpointType::HourlyForecast => "hourly_forecast",
        EndpointType::DailyForecast => "daily_forecast",
        EndpointType::WeatherAlerts => "weather_alerts",
        EndpointType::HistoricalWeather => "historical_weather",
        EndpointType::DailySummary => "daily_summary",
        EndpointType::WeatherOverview => "weather_overview",
    }
}

/// The statement that defines the foreign table of an endpoint on a server.
pub fn foreign_table_ddl(e: EndpointType, server: &str) -> (r: String)
    ensures
        r@ == table_ddl(e, server@),
{
    let head = join3("create foreign table if not exists ", name_of(e), " (\n");
    let body = join3(head.as_str(), columns_of(e), "\n)\nserver ");
    let tail = join3(" options (\n    object '", name_of(e), "'\n)");
    let r = join3(body.as_str(), server, tail.as_str());
    assert(r@ =~= table_ddl(e, server@));
    r
}

/// The statements that define the eight foreign tables on a server, one per endpoint.
pub fn import_foreign_schema(server: &str) -> (r: Vec<String>)
    ensures
        r@.len() == endpoint_order().len(),
        forall|i: int| 0 <= i < r@.len() ==> (#[trigger] r@[i])@ == table_ddl(endpoint_order()[i], server@),
{
    let mut r: Vec<String> = Vec::new();
    r.push(foreign_table_ddl(EndpointType::CurrentWeather, server));
    r.push(foreign_table_ddl(EndpointType::MinutelyForecast, server));
    r.push(foreign_table_ddl(EndpointType::HourlyForecast, server));
    r.push(foreign_table_ddl(EndpointType::DailyForecast, server));
    r.push(foreign_table_ddl(EndpointType::WeatherAlerts, server));
    r.push(foreign_table_ddl(EndpointType::HistoricalWeather, server));
    r.push(foreign_table_ddl(EndpointType::DailySummary, server));
    r.push(foreign_table_ddl(EndpointType::WeatherOverview, server));
    r
}

/// The host versions that this wrapper works with.
pub fn host_version_requirement() -> (r: String)
    ensures
        r@ == "^0.1.0"@,
{
    "^0.1.0".to_owned()
}

} // verus!
