use openweather_scan::endpoint::EndpointType;
use openweather_scan::error::ErrorKind;
use openweather_scan::params::{Qual, QualValue};
use openweather_scan::project::Cell;
use openweather_scan::request::ApiConfig;
use openweather_scan::scan::OpenWeatherFdw;

fn qual(field: &str, value: QualValue) -> Qual {
    Qual { field: field.to_string(), operator: "=".to_string(), value }
}

fn float(field: &str, text: &str) -> Qual {
    qual(field, QualValue::Float(text.to_string()))
}

fn berlin() -> Vec<Qual> {
    vec![float("latitude", "52.52"), float("longitude", "13.405")]
}

fn fdw() -> OpenWeatherFdw {
    OpenWeatherFdw::new(ApiConfig { base_url: "https://api.example.test/data/3.0".to_string(), api_key: "KEY".to_string() })
}

fn columns(names: &[&str]) -> Vec<String> {
    names.iter().map(|n| n.to_string()).collect()
}

const HOURLY_TWO: &str = r#"{"hourly": [
  {"dt": 1700000000, "temp": 12.5, "feels_like": 11.0, "pressure": 1012, "humidity": 80,
   "dew_point": 9.1, "uvi": 0.5, "clouds": 75, "visibility": 10000, "wind_speed": 3.2,
   "wind_deg": 200, "pop": 0.1, "weather": [{"main": "Clouds", "description": "broken clouds", "icon": "04d"}]},
  {"dt": 1700003600, "temp": 13.25, "feels_like": 12.0, "pressure": 1011, "humidity": 78,
   "dew_point": 9.0, "uvi": 0.7, "clouds": 60, "visibility": 9000, "wind_speed": 4.0,
   "wind_deg": 210, "wind_gust": 7.5, "pop": 0.2, "rain": {"1h": 2.5},
   "weather": [{"main": "Rain"}]}
]}"#;

#[test]
fn end_then_next_yields_end_of_data() {
    let mut s = fdw();
    let req = s.begin_scan("hourly_forecast", &berlin()).unwrap();
    assert!(req.url.contains("/onecall?"));
    s.complete_scan(200, HOURLY_TWO).unwrap();
    assert_eq!(s.data.row_count(), 2);
    s.end_scan();
    let next = s.iter_scan(&columns(&["temperature_temp"])).unwrap();
    assert!(next.is_none());
    assert!(s.endpoint_type.is_none());
}

#[test]
fn hourly_round_trip_keeps_order() {
    let mut s = fdw();
    s.begin_scan("hourly_forecast", &berlin()).unwrap();
    s.complete_scan(200, HOURLY_TWO).unwrap();
    let cols = columns(&["temperature_temp", "forecast_time"]);
    let first = s.iter_scan(&cols).unwrap().unwrap();
    let second = s.iter_scan(&cols).unwrap().unwrap();
    assert_eq!(first[0], Cell::Float64("12.5".to_string()));
    assert_eq!(second[0], Cell::Float64("13.25".to_string()));
    assert_eq!(first[1], Cell::Timestamp(1_700_000_000_000_000));
    assert_eq!(second[1], Cell::Timestamp(1_700_003_600_000_000));
    assert!(s.iter_scan(&cols).unwrap().is_none());
    assert!(s.iter_scan(&cols).unwrap().is_none());
}

#[test]
fn hourly_rain_absent_is_null_and_present_is_value() {
    let mut s = fdw();
    s.begin_scan("hourly_forecast", &berlin()).unwrap();
    s.complete_scan(200, HOURLY_TWO).unwrap();
    let cols = columns(&["rain_volume_1h_mm", "snow_volume_1h_mm", "wind_gust_speed_m_s", "weather_description"]);
    let first = s.iter_scan(&cols).unwrap().unwrap();
    let second = s.iter_scan(&cols).unwrap().unwrap();
    assert_eq!(first[0], Cell::Null);
    assert_eq!(first[1], Cell::Null);
    assert_eq!(first[2], Cell::Null);
    assert_eq!(first[3], Cell::Text("broken clouds".to_string()));
    assert_eq!(second[0], Cell::Float64("2.5".to_string()));
    assert_eq!(second[1], Cell::Null);
    assert_eq!(second[2], Cell::Float64("7.5".to_string()));
    assert_eq!(second[3], Cell::Text("unknown".to_string()));
}

#[test]
fn no_alerts_key_gives_zero_rows() {
    let mut s = fdw();
    s.begin_scan("weather_alerts", &berlin()).unwrap();
    s.complete_scan(200, r#"{"lat": 52.52, "lon": 13.405, "current": {}}"#).unwrap();
    assert_eq!(s.data.row_count(), 0);
    assert!(s.iter_scan(&columns(&["alert_event_type"])).unwrap().is_none());
}

#[test]
fn alerts_are_decoded_with_defaults_and_joined_tags() {
    let mut s = fdw();
    s.begin_scan("weather_alerts", &berlin()).unwrap();
    let body = r#"{"alerts": [
        {"sender_name": "DWD", "event": "Frost", "start": 1700000000, "end": 1700003600,
         "description": "Frost warning", "tags": ["Extreme low temperature", 5, "Ice"]},
        {}
    ]}"#;
    s.complete_scan(200, body).unwrap();
    assert_eq!(s.data.row_count(), 2);
    let cols = columns(&["alert_sender_name", "alert_start_time", "alert_tags", "latitude", "alert_description"]);
    let first = s.iter_scan(&cols).unwrap().unwrap();
    assert_eq!(first[0], Cell::Text("DWD".to_string()));
    assert_eq!(first[1], Cell::Timestamp(1_700_000_000_000_000));
    assert_eq!(first[2], Cell::Text("Extreme low temperature,Ice".to_string()));
    assert_eq!(first[3], Cell::Float64("52.52".to_string()));
    let second = s.iter_scan(&cols).unwrap().unwrap();
    assert_eq!(second[0], Cell::Text("Unknown".to_string()));
    assert_eq!(second[1], Cell::Timestamp(0));
    assert_eq!(second[2], Cell::Text(String::new()));
    assert_eq!(second[4], Cell::Text(String::new()));
}

#[test]
fn empty_alerts_array_gives_zero_rows() {
    let mut s = fdw();
    s.begin_scan("weather_alerts", &berlin()).unwrap();
    s.complete_scan(200, r#"{"alerts": []}"#).unwrap();
    assert_eq!(s.data.row_count(), 0);
}

#[test]
fn writes_are_refused_and_change_nothing() {
    let mut s = fdw();
    s.begin_scan("hourly_forecast", &berlin()).unwrap();
    s.complete_scan(200, HOURLY_TWO).unwrap();
    s.iter_scan(&columns(&["temperature_temp"])).unwrap();
    assert_eq!(s.begin_modify().unwrap_err().kind, ErrorKind::UnsupportedOperation);
    assert_eq!(s.insert(&vec![Cell::Int64(1)]).unwrap_err().kind, ErrorKind::UnsupportedOperation);
    assert_eq!(s.update(&Cell::Int64(1), &vec![Cell::Null]).unwrap_err().kind, ErrorKind::UnsupportedOperation);
    assert_eq!(s.delete(&Cell::Int64(1)).unwrap_err().kind, ErrorKind::UnsupportedOperation);
    assert_eq!(s.end_modify().unwrap_err().kind, ErrorKind::UnsupportedOperation);
    assert_eq!(s.current_row, 1);
    assert_eq!(s.data.row_count(), 2);
    assert_eq!(s.endpoint_type, Some(EndpointType::HourlyForecast));
}

#[test]
fn rescan_changes_nothing() {
    let mut s = fdw();
    s.begin_scan("hourly_forecast", &berlin()).unwrap();
    s.complete_scan(200, HOURLY_TWO).unwrap();
    s.iter_scan(&columns(&["temperature_temp"])).unwrap();
    assert!(s.re_scan().is_ok());
    assert_eq!(s.current_row, 1);
}

#[test]
fn missing_latitude_or_longitude_is_refused_before_any_request() {
    let mut s = fdw();
    let only_lon = vec![float("longitude", "13.405")];
    let err = s.begin_scan("current_weather", &only_lon).unwrap_err();
    assert_eq!(err.kind, ErrorKind::MissingRequiredParameter);
    assert!(err.message.contains("Example"));
    let only_lat = vec![float("latitude", "52.52")];
    let err = s.begin_scan("current_weather", &only_lat).unwrap_err();
    assert_eq!(err.kind, ErrorKind::MissingRequiredParameter);
    assert!(s.endpoint_type.is_none());
    assert!(s.params.is_none());
}

#[test]
fn unknown_table_is_refused() {
    let mut s = fdw();
    let err = s.begin_scan("monthly_forecast", &berlin()).unwrap_err();
    assert_eq!(err.kind, ErrorKind::UnsupportedEndpoint);
    assert!(err.message.contains("weather_overview"));
}

#[test]
fn failing_status_is_a_transport_error() {
    let mut s = fdw();
    s.begin_scan("current_weather", &berlin()).unwrap();
    let err = s.complete_scan(401, r#"{"cod": 401}"#).unwrap_err();
    assert_eq!(err.kind, ErrorKind::TransportError);
    assert!(s.endpoint_type.is_none());
}

#[test]
fn body_that_is_no_json_is_malformed() {
    let mut s = fdw();
    s.begin_scan("current_weather", &berlin()).unwrap();
    let err = s.complete_scan(200, "not json").unwrap_err();
    assert_eq!(err.kind, ErrorKind::MalformedResponse);
    assert!(err.message.starts_with("JSON parse error: "));
    assert!(s.params.is_none());
}

#[test]
fn unknown_column_fails_the_row_and_keeps_the_cursor() {
    let mut s = fdw();
    s.begin_scan("hourly_forecast", &berlin()).unwrap();
    s.complete_scan(200, HOURLY_TWO).unwrap();
    let err = s.iter_scan(&columns(&["temperature_temp", "sunrise_time"])).unwrap_err();
    assert_eq!(err.kind, ErrorKind::UnknownColumn);
    assert_eq!(err.message, "unknown column 'sunrise_time' for hourly_forecast endpoint");
    assert_eq!(s.current_row, 0);
}

#[test]
fn init_requires_an_api_key_and_defaults_the_url() {
    assert_eq!(OpenWeatherFdw::init(None, None).unwrap_err().kind, ErrorKind::MissingRequiredParameter);
    let s = OpenWeatherFdw::init(None, Some("k".to_string())).unwrap();
    assert_eq!(s.config.base_url, "https://api.openweathermap.org/data/3.0");
    let s = OpenWeatherFdw::init(Some("http://local".to_string()), Some("k".to_string())).unwrap();
    assert_eq!(s.config.base_url, "http://local");
}
