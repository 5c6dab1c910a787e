//! The decoded, flattened form of each endpoint's response.
//!
//! Floating quantities are kept as the decimal text that the response or the
//! query gave them in; epoch times as whole seconds; quantities that the API
//! may leave out as `Option`, so that "not reported" stays apart from zero.

use vstd::prelude::*;

verus! {

/// The condition that a `weather` array reports in its first element.
#[derive(Debug)]
pub struct Condition {
    pub main: String,
    pub description: String,
    pub icon: String,
}

/// The one row of the current-weather table.
#[derive(Debug)]
pub struct CurrentRow {
    pub observation_time: i64,
    pub temperature_temp: String,
    pub apparent_temperature_temp: String,
    pub pressure_hpa: i64,
    pub humidity_pct: i64,
    pub dew_point_temp: String,
    pub uv_index: String,
    pub cloud_cover_pct: i64,
    pub visibility_m: i64,
    pub wind_speed_m_s: String,
    pub wind_direction_deg: i64,
    pub wind_gust_speed_m_s: Option<String>,
    pub weather: Condition,
}

/// One minute of the precipitation forecast.
#[derive(Debug)]
pub struct MinutelyRow {
    pub forecast_time: i64,
    pub precipitation_mm: String,
}

/// One hour of the hourly forecast.
#[derive(Debug)]
pub struct HourlyRow {
    pub forecast_time: i64,
    pub temperature_temp: String,
    pub apparent_temperature_temp: String,
    pub pressure_hpa: i64,
    pub humidity_pct: i64,
    pub dew_point_temp: String,
    pub uv_index: String,
    pub cloud_cover_pct: i64,
    pub visibility_m: i64,
    pub wind_speed_m_s: String,
    pub wind_direction_deg: i64,
    pub wind_gust_speed_m_s: Option<String>,
    pub precipitation_probability: String,
    pub rain_volume_1h_mm: Option<String>,
    pub snow_volume_1h_mm: Option<String>,
    pub weather: Condition,
}

/// The temperatures of one day, by time of day.
#[derive(Debug)]
pub struct DayTemperatures {
    pub day: String,
    pub min: String,
    pub max: String,
    pub night: String,
    pub evening: String,
    pub morning: String,
}

/// The apparent temperatures of one day, by time of day.
#[derive(Debug)]
pub struct DayApparent {
    pub day: String,
    pub night: String,
    pub evening: String,
    pub morning: String,
}

/// One day of the daily forecast.
#[derive(Debug)]
pub struct DailyRow {
    pub forecast_date: i64,
    pub sunrise_time: i64,
    pub sunset_time: i64,
    pub moonrise_time: i64,
    pub moonset_time: i64,
    pub moon_phase_fraction: String,
    pub temperature: DayTemperatures,
    pub apparent_temperature: DayApparent,
    pub pressure_hpa: i64,
    pub humidity_pct: i64,
    pub dew_point_temp: String,
    pub wind_speed_m_s: String,
    pub wind_direction_deg: i64,
    pub wind_gust_speed_m_s: Option<String>,
    pub cloud_cover_pct: i64,
    pub precipitation_probability: String,
    pub rain_volume_mm: Option<String>,
    pub snow_volume_mm: Option<String>,
    pub uv_index: String,
    pub weather: Condition,
}

/// One government weather alert.
#[derive(Debug)]
pub struct AlertRow {
    pub alert_sender_name: String,
    pub alert_event_type: String,
    pub alert_start_time: i64,
    pub alert_end_time: i64,
    pub alert_description: String,
    pub alert_tags: Vec<String>,
}

/// The one row of the historical-weather table.
#[derive(Debug)]
pub struct HistoricalRow {
    pub observation_time: i64,
    pub temperature_temp: String,
    pub apparent_temperature_temp: String,
    pub pressure_hpa: i64,
    pub humidity_pct: i64,
    pub dew_point_temp: String,
    pub cloud_cover_pct: i64,
    pub visibility_m: i64,
    pub wind_speed_m_s: String,
    pub wind_direction_deg: i64,
    pub weather: Condition,
}

/// The one row of the daily-summary table.
#[derive(Debug)]
pub struct SummaryRow {
    pub timezone_offset: String,
    pub summary_date: String,
    pub unit_system: String,
    pub temperature_min_temp: String,
    pub temperature_max_temp: String,
    pub temperature_morning_temp: String,
    pub temperature_afternoon_temp: String,
    pub temperature_evening_temp: String,
    pub temperature_night_temp: String,
    pub cloud_cover_afternoon_pct: String,
    pub humidity_afternoon_pct: String,
    pub pressure_afternoon_hpa: String,
    pub precipitation_total_mm: String,
    pub wind_max_speed_m_s: String,
    pub wind_max_direction_deg: String,
}

/// The one row of the weather-overview table.
#[derive(Debug)]
pub struct OverviewRow {
    pub timezone_offset: String,
    pub overview_date: String,
    pub unit_system: String,
    pub weather_overview: String,
}

/// A decoded response, one case for each endpoint; `Empty` before any decode.
/// Every case carries the location that its rows belong to.
#[derive(Debug)]
#[allow(inconsistent_fields)]
pub enum EndpointData {
    Empty,
    CurrentWeather { latitude: String, longitude: String, timezone_name: String, row: CurrentRow },
    MinutelyForecast { latitude: String, longitude: String, rows: Vec<MinutelyRow> },
    HourlyForecast { latitude: String, longitude: String, rows: Vec<HourlyRow> },
    DailyForecast { latitude: String, longitude: String, rows: Vec<DailyRow> },
    WeatherAlerts { latitude: String, longitude: String, alerts: Vec<AlertRow> },
    HistoricalWeather { latitude: String, longitude: String, row: HistoricalRow },
    DailySummary { latitude: String, longitude: String, row: SummaryRow },
    WeatherOverview { latitude: String, longitude: String, row: OverviewRow },
}

impl EndpointData {
    /// The number of rows: one for a single-row endpoint, the length of the
    /// row sequence for the others, none before any decode.
    pub open spec fn spec_row_count(&self) -> nat {
        match self {
            EndpointData::Empty => 0,
            EndpointData::MinutelyForecast { rows, .. } => rows@.len(),
            EndpointData::HourlyForecast { rows, .. } => rows@.len(),
            EndpointData::DailyForecast { rows, .. } => rows@.len(),
            EndpointData::WeatherAlerts { alerts, .. } => alerts@.len(),
            _ => 1,
        }
    }

    /// The number of rows.
    pub fn row_count(&self) -> (r: usize)
        ensures
            r == self.spec_row_count(),
    {
        match self {
            EndpointData::Empty => 0,
            EndpointData::MinutelyForecast { rows, .. } => rows.len(),
            EndpointData::HourlyForecast { rows, .. } => rows.len(),
            EndpointData::DailyForecast { rows, .. } => rows.len(),
            EndpointData::WeatherAlerts { alerts, .. } => alerts.len(),
            _ => 1,
        }
    }

    /// Drops the decoded rows.
    pub fn clear(&mut self)
        ensures
            *final(self) is Empty,
    {
        *self = EndpointData::Empty;
    }
}

} // verus!
