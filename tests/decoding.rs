use openweather_scan::decode::decode_body;
use openweather_scan::endpoint::EndpointType;
use openweather_scan::error::ErrorKind;
use openweather_scan::json::{Json, parse_document};
use openweather_scan::project::{Cell, get_cell_value, join_tags, to_micros};
use openweather_scan::rowset::EndpointData;
use openweather_scan::schema::{host_version_requirement, import_foreign_schema};

fn decode(e: EndpointType, body: &str) -> Result<EndpointData, openweather_scan::error::FdwError> {
    decode_body(e, body, &"52.52".to_string(), &"13.405".to_string())
}

fn cell(d: &EndpointData, row: usize, col: &str) -> Cell {
    get_cell_value(d, row, col).unwrap()
}

const CURRENT: &str = r#"{"timezone": "Europe/Berlin", "current": {"dt": 1700000000, "temp": 5,
  "feels_like": 2.75, "pressure": 1020, "humidity": 90, "dew_point": 3.5, "uvi": 0, "clouds": 20,
  "visibility": 10000, "wind_speed": 4.1, "wind_deg": 250,
  "weather": [{"main": "Clear", "description": "clear sky"}]}}"#;

#[test]
fn current_weather_decodes_one_row() {
    let d = decode(EndpointType::CurrentWeather, CURRENT).unwrap();
    assert_eq!(d.row_count(), 1);
    assert_eq!(cell(&d, 0, "timezone_name"), Cell::Text("Europe/Berlin".to_string()));
    assert_eq!(cell(&d, 0, "observation_time"), Cell::Timestamp(1_700_000_000_000_000));
    assert_eq!(cell(&d, 0, "temperature_temp"), Cell::Float64("5".to_string()));
    assert_eq!(cell(&d, 0, "apparent_temperature_temp"), Cell::Float64("2.75".to_string()));
    assert_eq!(cell(&d, 0, "pressure_hpa"), Cell::Int64(1020));
    assert_eq!(cell(&d, 0, "wind_gust_speed_m_s"), Cell::Null);
    assert_eq!(cell(&d, 0, "weather_icon_code"), Cell::Text("01d".to_string()));
    assert_eq!(cell(&d, 0, "latitude"), Cell::Float64("52.52".to_string()));
    assert_eq!(get_cell_value(&d, 1, "latitude").unwrap_err().kind, ErrorKind::RowIndexOutOfBounds);
}

#[test]
fn current_weather_without_timezone_is_utc() {
    let body = CURRENT.replace("\"timezone\": \"Europe/Berlin\",", "");
    let d = decode(EndpointType::CurrentWeather, &body).unwrap();
    assert_eq!(cell(&d, 0, "timezone_name"), Cell::Text("UTC".to_string()));
}

#[test]
fn current_weather_missing_field_is_malformed() {
    let body = CURRENT.replace("\"humidity\": 90,", "");
    let err = decode(EndpointType::CurrentWeather, &body).unwrap_err();
    assert_eq!(err.kind, ErrorKind::MalformedResponse);
    assert!(err.message.contains("humidity"));
    let body = CURRENT.replace("[{\"main\": \"Clear\", \"description\": \"clear sky\"}]", "[]");
    let err = decode(EndpointType::CurrentWeather, &body).unwrap_err();
    assert_eq!(err.message, "weather array is empty");
    let err = decode(EndpointType::CurrentWeather, "{}").unwrap_err();
    assert_eq!(err.kind, ErrorKind::MalformedResponse);
}

#[test]
fn timestamp_is_seconds_times_a_million() {
    assert_eq!(to_micros(1_700_000_000), 1_700_000_000_000_000);
    assert_eq!(to_micros(-1), -1_000_000);
    assert_eq!(to_micros(i64::MAX), i64::MAX);
    assert_eq!(to_micros(i64::MIN), i64::MIN);
}

#[test]
fn minutely_rows_follow_the_array() {
    let body = r#"{"minutely": [{"dt": 1, "precipitation": 0.25}, {"dt": 61}, {"dt": 121, "precipitation": 0}]}"#;
    let d = decode(EndpointType::MinutelyForecast, body).unwrap();
    assert_eq!(d.row_count(), 3);
    assert_eq!(cell(&d, 0, "precipitation_mm"), Cell::Float64("0.25".to_string()));
    assert_eq!(cell(&d, 1, "precipitation_mm"), Cell::Float64("0".to_string()));
    assert_eq!(cell(&d, 2, "forecast_time"), Cell::Timestamp(121_000_000));
}

#[test]
fn minutely_element_without_time_fails_the_decode() {
    let body = r#"{"minutely": [{"dt": 1}, {"precipitation": 1.5}]}"#;
    assert_eq!(decode(EndpointType::MinutelyForecast, body).unwrap_err().kind, ErrorKind::MalformedResponse);
}

#[test]
fn empty_hourly_array_gives_no_rows() {
    let d = decode(EndpointType::HourlyForecast, r#"{"hourly": []}"#).unwrap();
    assert_eq!(d.row_count(), 0);
    assert_eq!(get_cell_value(&d, 0, "latitude").unwrap_err().kind, ErrorKind::RowIndexOutOfBounds);
}

const DAY: &str = r#"{"dt": 1700000000, "sunrise": 1699990000, "sunset": 1700020000, "moonrise": 0,
  "moonset": 1700030000, "moon_phase": 0.5,
  "temp": {"day": 10.5, "min": 4, "max": 12, "night": 6, "eve": 9, "morn": 5},
  "feels_like": {"day": 9.5, "night": 5, "eve": 8, "morn": 4},
  "pressure": 1015, "humidity": 70, "dew_point": 3.1, "wind_speed": 5.5, "wind_deg": 180,
  "clouds": 40, "pop": 0.3, "rain": 1.25, "uvi": 1.5,
  "weather": [{"main": "Rain", "description": "light rain", "icon": "10d"}]}"#;

#[test]
fn daily_rows_read_nested_temperatures() {
    let body = format!("{{\"daily\": [{}, {}]}}", DAY, DAY.replace("\"rain\": 1.25,", ""));
    let d = decode(EndpointType::DailyForecast, &body).unwrap();
    assert_eq!(d.row_count(), 2);
    assert_eq!(cell(&d, 0, "temperature_day_temp"), Cell::Float64("10.5".to_string()));
    assert_eq!(cell(&d, 0, "apparent_temperature_morning_temp"), Cell::Float64("4".to_string()));
    assert_eq!(cell(&d, 0, "sunrise_time"), Cell::Timestamp(1_699_990_000_000_000));
    assert_eq!(cell(&d, 0, "rain_volume_mm"), Cell::Float64("1.25".to_string()));
    assert_eq!(cell(&d, 1, "rain_volume_mm"), Cell::Null);
    assert_eq!(cell(&d, 1, "snow_volume_mm"), Cell::Null);
    assert_eq!(cell(&d, 1, "weather_condition"), Cell::Text("Rain".to_string()));
}

#[test]
fn daily_element_without_nested_temperature_fails() {
    let body = format!("{{\"daily\": [{}]}}", DAY.replace("\"eve\": 9, ", ""));
    let err = decode(EndpointType::DailyForecast, &body).unwrap_err();
    assert_eq!(err.kind, ErrorKind::MalformedResponse);
    assert!(err.message.contains("eve"));
}

const RECORD: &str = r#"{"dt": 1704067200, "temp": -3.5, "feels_like": -7, "pressure": 1030,
  "humidity": 85, "dew_point": -5, "clouds": 0, "visibility": 10000, "wind_speed": 2,
  "wind_deg": 90, "weather": [{"main": "Snow", "description": "light snow", "icon": "13n"}]}"#;

#[test]
fn historical_reads_the_first_record_only() {
    let second = RECORD.replace("-3.5", "99");
    let body = format!("{{\"data\": [{}, {}]}}", RECORD, second);
    let d = decode(EndpointType::HistoricalWeather, &body).unwrap();
    assert_eq!(d.row_count(), 1);
    assert_eq!(cell(&d, 0, "temperature_temp"), Cell::Float64("-3.5".to_string()));
    assert_eq!(cell(&d, 0, "observation_time"), Cell::Timestamp(1_704_067_200_000_000));
    assert_eq!(get_cell_value(&d, 0, "uv_index").unwrap_err().kind, ErrorKind::UnknownColumn);
}

#[test]
fn historical_with_empty_data_is_malformed() {
    let err = decode(EndpointType::HistoricalWeather, r#"{"data": []}"#).unwrap_err();
    assert_eq!(err.kind, ErrorKind::MalformedResponse);
    assert_eq!(err.message, "data array is empty");
    let err = decode(EndpointType::HistoricalWeather, RECORD).unwrap_err();
    assert_eq!(err.kind, ErrorKind::MalformedResponse);
}

const SUMMARY: &str = r#"{"lat": 52.52, "lon": 13.405, "tz": "+01:00", "date": "2024-01-15",
  "units": "standard", "temperature": {"min": 270.5, "max": 275, "afternoon": 274},
  "cloud_cover": {"afternoon": 80}, "precipitation": {"total": 1.5},
  "wind": {"max": {"speed": 8.5}}}"#;

#[test]
fn daily_summary_reads_nested_values_and_zero_defaults() {
    let d = decode(EndpointType::DailySummary, SUMMARY).unwrap();
    assert_eq!(d.row_count(), 1);
    assert_eq!(cell(&d, 0, "timezone_offset"), Cell::Text("+01:00".to_string()));
    assert_eq!(cell(&d, 0, "unit_system"), Cell::Text("standard".to_string()));
    assert_eq!(cell(&d, 0, "temperature_min_temp"), Cell::Float64("270.5".to_string()));
    assert_eq!(cell(&d, 0, "temperature_afternoon_temp"), Cell::Float64("274".to_string()));
    assert_eq!(cell(&d, 0, "temperature_morning_temp"), Cell::Float64("0".to_string()));
    assert_eq!(cell(&d, 0, "humidity_afternoon_pct"), Cell::Float64("0".to_string()));
    assert_eq!(cell(&d, 0, "precipitation_total_mm"), Cell::Float64("1.5".to_string()));
    assert_eq!(cell(&d, 0, "wind_max_speed_m_s"), Cell::Float64("8.5".to_string()));
    assert_eq!(cell(&d, 0, "wind_max_direction_deg"), Cell::Float64("0".to_string()));
    assert_eq!(cell(&d, 0, "latitude"), Cell::Float64("52.52".to_string()));
}

#[test]
fn daily_summary_without_wind_max_is_malformed() {
    let body = SUMMARY.replace("{\"max\": {\"speed\": 8.5}}", "{}");
    assert_eq!(decode(EndpointType::DailySummary, &body).unwrap_err().kind, ErrorKind::MalformedResponse);
    let body = SUMMARY.replace("\"max\": 275, ", "");
    assert_eq!(decode(EndpointType::DailySummary, &body).unwrap_err().kind, ErrorKind::MalformedResponse);
}

#[test]
fn overview_defaults_its_texts() {
    let d = decode(EndpointType::WeatherOverview, r#"{"lat": 1.5, "lon": -2, "weather_overview": "Mild."}"#).unwrap();
    assert_eq!(cell(&d, 0, "weather_overview"), Cell::Text("Mild.".to_string()));
    assert_eq!(cell(&d, 0, "timezone_offset"), Cell::Text("+00:00".to_string()));
    assert_eq!(cell(&d, 0, "unit_system"), Cell::Text("metric".to_string()));
    assert_eq!(cell(&d, 0, "overview_date"), Cell::Text(String::new()));
    assert_eq!(cell(&d, 0, "longitude"), Cell::Float64("-2".to_string()));
    let err = decode(EndpointType::WeatherOverview, r#"{"lat": 1.5}"#).unwrap_err();
    assert_eq!(err.kind, ErrorKind::MalformedResponse);
}

#[test]
fn parser_builds_the_tree() {
    let doc = parse_document(r#"{"a": [1, "x", null, true, 2.5]}"#).unwrap();
    match doc {
        Json::Object(members) => {
            assert_eq!(members.len(), 1);
            assert_eq!(members[0].0, "a");
            match &members[0].1 {
                Json::Array(items) => {
                    assert_eq!(items.len(), 5);
                    match &items[0] {
                        Json::Number(n) => {
                            assert_eq!(n.int, Some(1));
                            assert_eq!(n.text, "1");
                        },
                        other => panic!("not a number: {:?}", other),
                    }
                    match &items[4] {
                        Json::Number(n) => {
                            assert_eq!(n.int, None);
                            assert_eq!(n.text, "2.5");
                        },
                        other => panic!("not a number: {:?}", other),
                    }
                },
                other => panic!("not an array: {:?}", other),
            }
        },
        other => panic!("not an object: {:?}", other),
    }
    assert!(parse_document("{").is_err());
}

#[test]
fn tags_join_with_commas() {
    assert_eq!(join_tags(&vec![]), "");
    assert_eq!(join_tags(&vec!["a".to_string()]), "a");
    assert_eq!(join_tags(&vec!["a".to_string(), "b".to_string(), "c".to_string()]), "a,b,c");
}

#[test]
fn empty_data_has_no_rows() {
    let d = EndpointData::Empty;
    assert_eq!(d.row_count(), 0);
    assert_eq!(get_cell_value(&d, 0, "latitude").unwrap_err().kind, ErrorKind::RowIndexOutOfBounds);
}

#[test]
fn schema_import_defines_eight_tables() {
    let ddl = import_foreign_schema("weather_server");
    assert_eq!(ddl.len(), 8);
    assert!(ddl[0].starts_with("create foreign table if not exists current_weather (\n    latitude numeric,"));
    assert!(ddl[0].ends_with("server weather_server options (\n    object 'current_weather'\n)"));
    assert!(ddl[4].contains("alert_tags text"));
    assert!(ddl[7].contains("object 'weather_overview'"));
    assert_eq!(host_version_requirement(), "^0.1.0");
}

#[test]
fn endpoints_resolve_by_name() {
    assert_eq!(EndpointType::from_object_name("daily_summary").unwrap(), EndpointType::DailySummary);
    assert_eq!(EndpointType::from_object_name("current_weather").unwrap().api_path(), "/onecall");
    assert_eq!(EndpointType::HistoricalWeather.api_path(), "/onecall/timemachine");
    assert!(EndpointType::WeatherAlerts.calls_onecall());
    assert!(!EndpointType::WeatherOverview.calls_onecall());
    assert_eq!(
        EndpointType::from_object_name("Current_Weather").unwrap_err().kind,
        ErrorKind::UnsupportedEndpoint
    );
}
