use openweather_scan::endpoint::EndpointType;
use openweather_scan::error::ErrorKind;
use openweather_scan::params::{
    Qual, QualValue, extract_and_validate_location, extract_params, extract_qual_numeric, extract_qual_string,
    micros_to_seconds,
};
use openweather_scan::request::{ApiConfig, create_request, default_headers};
use openweather_scan::text::{decimal_within_bound, int_to_text};

fn qual(field: &str, op: &str, value: QualValue) -> Qual {
    Qual { field: field.to_string(), operator: op.to_string(), value }
}

fn at(lat: &str, lon: &str) -> Vec<Qual> {
    vec![
        qual("latitude", "=", QualValue::Float(lat.to_string())),
        qual("longitude", "=", QualValue::Float(lon.to_string())),
    ]
}

fn kind_at(lat: &str, lon: &str) -> Option<ErrorKind> {
    extract_and_validate_location(&at(lat, lon)).err().map(|e| e.kind)
}

#[test]
fn latitude_bounds_are_inclusive() {
    assert_eq!(kind_at("-90", "0"), None);
    assert_eq!(kind_at("90", "0"), None);
    assert_eq!(kind_at("-90.0001", "0"), Some(ErrorKind::InvalidParameterRange));
    assert_eq!(kind_at("90.0001", "0"), Some(ErrorKind::InvalidParameterRange));
    assert_eq!(kind_at("90.0000", "0"), None);
}

#[test]
fn longitude_bounds_are_inclusive() {
    assert_eq!(kind_at("0", "-180"), None);
    assert_eq!(kind_at("0", "180"), None);
    assert_eq!(kind_at("0", "-180.0001"), Some(ErrorKind::InvalidParameterRange));
    assert_eq!(kind_at("0", "180.0001"), Some(ErrorKind::InvalidParameterRange));
}

#[test]
fn not_a_number_is_out_of_range() {
    assert_eq!(kind_at("NaN", "0"), Some(ErrorKind::InvalidParameterRange));
    assert_eq!(kind_at("0", "inf"), Some(ErrorKind::InvalidParameterRange));
    assert_eq!(kind_at("1000000000000000000000", "0"), Some(ErrorKind::InvalidParameterRange));
}

#[test]
fn integer_coordinates_are_checked_and_written() {
    let q = vec![
        qual("latitude", "=", QualValue::Int(-90)),
        qual("longitude", "=", QualValue::Int(181)),
    ];
    assert_eq!(extract_and_validate_location(&q).unwrap_err().kind, ErrorKind::InvalidParameterRange);
    let q = vec![
        qual("latitude", "=", QualValue::Int(-45)),
        qual("longitude", "=", QualValue::Int(7)),
    ];
    let (lat, lon) = extract_and_validate_location(&q).unwrap();
    assert_eq!(lat, "-45");
    assert_eq!(lon, "7");
}

#[test]
fn only_the_first_equality_predicate_counts() {
    let q = vec![
        qual("units", ">", QualValue::Text("imperial".to_string())),
        qual("units", "=", QualValue::Text("standard".to_string())),
        qual("units", "=", QualValue::Text("imperial".to_string())),
    ];
    assert_eq!(extract_qual_string(&q, "units"), Some("standard".to_string()));
    let q = vec![
        qual("latitude", "=", QualValue::Text("north".to_string())),
        qual("latitude", "=", QualValue::Float("1".to_string())),
    ];
    assert_eq!(extract_qual_numeric(&q, "latitude"), None);
}

#[test]
fn units_and_language_default() {
    let p = extract_params(&at("52.52", "13.405"), EndpointType::CurrentWeather).unwrap();
    assert_eq!(p.units, "metric");
    assert_eq!(p.lang, "en");
    assert_eq!(p.dt, None);
    assert_eq!(p.date, None);
}

#[test]
fn historical_weather_needs_an_observation_time() {
    let err = extract_params(&at("52.52", "13.405"), EndpointType::HistoricalWeather).unwrap_err();
    assert_eq!(err.kind, ErrorKind::MissingRequiredParameter);
    let mut q = at("52.52", "13.405");
    q.push(qual("observation_time", "=", QualValue::Timestamp(1_704_067_200_123_456)));
    let p = extract_params(&q, EndpointType::HistoricalWeather).unwrap();
    assert_eq!(p.dt, Some(1_704_067_200));
}

#[test]
fn daily_summary_needs_a_date_and_reads_the_offset() {
    let err = extract_params(&at("52.52", "13.405"), EndpointType::DailySummary).unwrap_err();
    assert_eq!(err.kind, ErrorKind::MissingRequiredParameter);
    let mut q = at("52.52", "13.405");
    q.push(qual("summary_date", "=", QualValue::Text("2024-01-15".to_string())));
    q.push(qual("timezone_offset", "=", QualValue::Text("+0100".to_string())));
    q.push(qual("overview_date", "=", QualValue::Text("2024-02-01".to_string())));
    let p = extract_params(&q, EndpointType::DailySummary).unwrap();
    assert_eq!(p.date, Some("2024-01-15".to_string()));
    assert_eq!(p.timezone_offset, Some("+0100".to_string()));
}

#[test]
fn seconds_round_toward_zero() {
    assert_eq!(micros_to_seconds(1_999_999), 1);
    assert_eq!(micros_to_seconds(-1_999_999), -1);
    assert_eq!(micros_to_seconds(i64::MIN), -9_223_372_036_854);
}

#[test]
fn integers_are_written_in_decimal() {
    assert_eq!(int_to_text(0), "0");
    assert_eq!(int_to_text(1_700_000_000), "1700000000");
    assert_eq!(int_to_text(-123), "-123");
    assert_eq!(int_to_text(i64::MIN), "-9223372036854775808");
}

#[test]
fn decimal_bound_reads_fractions() {
    assert!(decimal_within_bound("-0", 90));
    assert!(decimal_within_bound("89.999", 90));
    assert!(!decimal_within_bound("90.5", 90));
    assert!(!decimal_within_bound("1.", 90));
    assert!(!decimal_within_bound(".5", 90));
    assert!(!decimal_within_bound("", 90));
}

fn config() -> ApiConfig {
    ApiConfig { base_url: "https://api.openweathermap.org/data/3.0".to_string(), api_key: "KEY".to_string() }
}

#[test]
fn onecall_request_url() {
    let p = extract_params(&at("52.52", "13.405"), EndpointType::HourlyForecast).unwrap();
    let req = create_request(&config(), EndpointType::HourlyForecast, &p).unwrap();
    assert_eq!(
        req.url,
        "https://api.openweathermap.org/data/3.0/onecall?lat=52.52&lon=13.405&appid=KEY&units=metric&lang=en"
    );
    assert_eq!(req.headers, default_headers());
    assert_eq!(req.headers[1], ("accept".to_string(), "application/json".to_string()));
}

#[test]
fn historical_request_url() {
    let mut q = at("52.52", "13.405");
    q.push(qual("observation_time", "=", QualValue::Timestamp(1_704_067_200_000_000)));
    q.push(qual("lang", "=", QualValue::Text("de".to_string())));
    let p = extract_params(&q, EndpointType::HistoricalWeather).unwrap();
    let req = create_request(&config(), EndpointType::HistoricalWeather, &p).unwrap();
    assert_eq!(
        req.url,
        "https://api.openweathermap.org/data/3.0/onecall/timemachine?lat=52.52&lon=13.405&dt=1704067200&appid=KEY&units=metric&lang=de"
    );
}

#[test]
fn summary_and_overview_request_urls() {
    let mut q = at("52.52", "13.405");
    q.push(qual("summary_date", "=", QualValue::Text("2024-01-15".to_string())));
    q.push(qual("timezone_offset", "=", QualValue::Text("+0100".to_string())));
    let p = extract_params(&q, EndpointType::DailySummary).unwrap();
    let req = create_request(&config(), EndpointType::DailySummary, &p).unwrap();
    assert_eq!(
        req.url,
        "https://api.openweathermap.org/data/3.0/onecall/day_summary?lat=52.52&lon=13.405&date=2024-01-15&appid=KEY&units=metric&lang=en&tz=+0100"
    );
    let mut q = at("52.52", "13.405");
    q.push(qual("overview_date", "=", QualValue::Text("2024-01-16".to_string())));
    let p = extract_params(&q, EndpointType::WeatherOverview).unwrap();
    let req = create_request(&config(), EndpointType::WeatherOverview, &p).unwrap();
    assert_eq!(
        req.url,
        "https://api.openweathermap.org/data/3.0/onecall/overview?lat=52.52&lon=13.405&appid=KEY&units=metric&lang=en&date=2024-01-16"
    );
}

#[test]
fn request_without_its_required_parameter_is_refused() {
    let p = extract_params(&at("1", "2"), EndpointType::CurrentWeather).unwrap();
    let err = create_request(&config(), EndpointType::HistoricalWeather, &p).unwrap_err();
    assert_eq!(err.kind, ErrorKind::MissingRequiredParameter);
}
