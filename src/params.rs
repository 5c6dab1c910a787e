//! Query parameters: reading them out of the equality predicates of a scan and checking them.

use vstd::prelude::*;
use crate::endpoint::EndpointType;
use crate::error::{ErrorKind, FdwError};
use crate::json::{same_text, text_or};
use crate::decode::view_opt;
use crate::text::{decimal_within, decimal_within_bound, int_text, int_to_text};

verus! {

/// The value that a predicate compares a column with.
#[derive(Debug)]
pub enum QualValue {
    /// A floating value, as its decimal text.
    Float(String),
    Int(i64),
    Text(String),
    /// A timestamp, in microseconds since the Unix epoch.
    Timestamp(i64),
    /// A value of any other type.
    Other,
}

/// A predicate of the query: `field operator value`.
#[derive(Debug)]
pub struct Qual {
    pub field: String,
    pub operator: String,
    pub value: QualValue,
}

/// The parameters of one scan.
#[derive(Debug)]
pub struct QueryParameters {
    /// The latitude, as decimal text.
    pub latitude: String,
    /// The longitude, as decimal text.
    pub longitude: String,
    pub units: String,
    pub lang: String,
    /// The observation time in epoch seconds (historical weather).
    pub dt: Option<i64>,
    /// The requested date, `YYYY-MM-DD` (daily summary, weather overview).
    pub date: Option<String>,
    /// The time zone offset, `+HHMM` or `-HHMM` (daily summary).
    pub timezone_offset: Option<String>,
}

/// The first equality predicate on `field` among `q`, looking from position `i` on.
pub open spec fn first_eq_from(q: Seq<Qual>, field: Seq<char>, i: int) -> Option<Qual>
    decreases q.len() - i,
{
    if i < 0 || i >= q.len() {
        None
    } else if q[i].field@ == field && q[i].operator@ == "="@ {
        Some(q[i])
    } else {
        first_eq_from(q, field, i + 1)
    }
}

/// The first equality predicate on `field`; later ones are not read.
pub open spec fn first_eq(q: Seq<Qual>, field: Seq<char>) -> Option<Qual> {
    first_eq_from(q, field, 0)
}

/// The number that the first equality predicate on `field` gives, as decimal
/// text; `None` where there is none or it compares with no number.
pub open spec fn numeric_qual(q: Seq<Qual>, field: Seq<char>) -> Option<Seq<char>> {
    match first_eq(q, field) {
        Some(p) => match p.value {
            QualValue::Float(t) => Some(t@),
            QualValue::Int(n) => Some(int_text(n as int)),
            _ => None,
        },
        None => None,
    }
}

/// Whether the number of the first equality predicate on `field` lies within `[-bound, bound]`.
pub open spec fn numeric_within(q: Seq<Qual>, field: Seq<char>, bound: nat) -> bool {
    match first_eq(q, field) {
        Some(p) => match p.value {
            QualValue::Float(t) => decimal_within(t@, bound),
            QualValue::Int(n) => -bound <= n <= bound,
            _ => false,
        },
        None => false,
    }
}

/// The string that the first equality predicate on `field` gives.
pub open spec fn text_qual(q: Seq<Qual>, field: Seq<char>) -> Option<Seq<char>> {
    match first_eq(q, field) {
        Some(p) => match p.value {
            QualValue::Text(t) => Some(t@),
            _ => None,
        },
        None => None,
    }
}

/// The timestamp that the first equality predicate on `field` gives, in microseconds.
pub open spec fn timestamp_qual(q: Seq<Qual>, field: Seq<char>) -> Option<i64> {
    match first_eq(q, field) {
        Some(p) => match p.value {
            QualValue::Timestamp(t) => Some(t),
            _ => None,
        },
        None => None,
    }
}

/// Microseconds as whole seconds, rounded toward zero.
pub open spec fn seconds_of(us: i64) -> i64 {
    if us >= 0 {
        (us / 1_000_000) as i64
    } else {
        (-((-us) / 1_000_000)) as i64
    }
}

/// The error, if any, that extracting the parameters of a scan of `e` ends in.
/// The location comes first: a missing coordinate, then one out of range;
/// then the parameter that the endpoint requires.
pub open spec fn extraction_error(q: Seq<Qual>, e: EndpointType) -> Option<ErrorKind> {
    if numeric_qual(q, "latitude"@) is None || numeric_qual(q, "longitude"@) is None {
        Some(ErrorKind::MissingRequiredParameter)
    } else if !numeric_within(q, "latitude"@, 90) || !numeric_within(q, "longitude"@, 180) {
        Some(ErrorKind::InvalidParameterRange)
    } else if e == EndpointType::HistoricalWeather && timestamp_qual(q, "observation_time"@) is None {
        Some(ErrorKind::MissingRequiredParameter)
    } else if e == EndpointType::DailySummary && text_qual(q, "summary_date"@) is None {
        Some(ErrorKind::MissingRequiredParameter)
    } else {
        None
    }
}

/// Whether `p` holds the parameters that the predicates give for a scan of `e`:
/// units and language default to `metric` and `en`; the extras are read for
/// their endpoint only.
pub open spec fn params_of(q: Seq<Qual>, e: EndpointType, p: QueryParameters) -> bool {
    &&& numeric_qual(q, "latitude"@) == Some(p.latitude@)
    &&& numeric_qual(q, "longitude"@) == Some(p.longitude@)
    &&& p.units@ == text_or(text_qual(q, "units"@), "metric"@)
    &&& p.lang@ == text_or(text_qual(q, "lang"@), "en"@)
    &&& p.dt == (if e == EndpointType::HistoricalWeather {
        Some(seconds_of(timestamp_qual(q, "observation_time"@)->Some_0))
    } else {
        None
    })
    &&& view_opt(p.date) == (if e == EndpointType::DailySummary {
        text_qual(q, "summary_date"@)
    } else if e == EndpointType::WeatherOverview {
        text_qual(q, "overview_date"@)
    } else {
        None
    })
    &&& view_opt(p.timezone_offset) == (if e == EndpointType::DailySummary {
        text_qual(q, "timezone_offset"@)
    } else {
        None
    })
}

/// The first equality predicate on `field`.
fn find_eq<'a>(quals: &'a Vec<Qual>, field: &str) -> (r: Option<&'a Qual>)
    ensures
        match r {
            Some(p) => first_eq(quals@, field@) == Some(*p),
            None => first_eq(quals@, field@) is None,
        },
{
    let mut i: usize = 0;
    while i < quals.len()
        invariant
            i <= quals@.len(),
            first_eq(quals@, field@) == first_eq_from(quals@, field@, i as int),
        decreases quals@.len() - i,
    {
        if same_text(&quals[i].field, field) && same_text(&quals[i].operator, "=") {
            return Some(&quals[i]);
        }
        i = i + 1;
    }
    None
}

/// The number of the first equality predicate on `field`, as decimal text.
pub fn extract_qual_numeric(quals: &Vec<Qual>, field: &str) -> (r: Option<String>)
    ensures
        view_opt(r) == numeric_qual(quals@, field@),
{
    match find_eq(quals, field) {
        Some(p) => match &p.value {
            QualValue::Float(t) => Some(t.clone()),
            QualValue::Int(n) => Some(int_to_text(*n)),
            _ => None,
        },
        None => None,
    }
}

/// Whether the number of the first equality predicate on `field` lies within `[-bound, bound]`.
fn qual_within(quals: &Vec<Qual>, field: &str, bound: u64) -> (r: bool)
    requires
        bound <= 1000,
    ensures
        r == numeric_within(quals@, field@, bound as nat),
{
    match find_eq(quals, field) {
        Some(p) => match &p.value {
            QualValue::Float(t) => decimal_within_bound(t.as_str(), bound),
            QualValue::Int(n) => -(bound as i64) <= *n && *n <= bound as i64,
            _ => false,
        },
        None => false,
    }
}

/// The string of the first equality predicate on `field`.
pub fn extract_qual_string(quals: &Vec<Qual>, field: &str) -> (r: Option<String>)
    ensures
        view_opt(r) == text_qual(quals@, field@),
{
    match find_eq(quals, field) {
        Some(p) => match &p.value {
            QualValue::Text(t) => Some(t.clone()),
            _ => None,
        },
        None => None,
    }
}

/// The timestamp of the first equality predicate on `field`, in microseconds.
pub fn extract_qual_timestamptz(quals: &Vec<Qual>, field: &str) -> (r: Option<i64>)
    ensures
        r == timestamp_qual(quals@, field@),
{
    match find_eq(quals, field) {
        Some(p) => match &p.value {
            QualValue::Timestamp(t) => Some(*t),
            _ => None,
        },
        None => None,
    }
}

/// Microseconds as whole seconds, rounded toward zero.
pub fn micros_to_seconds(us: i64) -> (r: i64)
    ensures
        r == seconds_of(us),
{
    if us >= 0 {
        us / 1_000_000
    } else {
        let m: i128 = -(us as i128);
        -((m / 1_000_000) as i64)
    }
}

/// The latitude and longitude of the query, as decimal text. Both are
/// required, and must lie within ±90 and ±180 inclusive.
pub fn extract_and_validate_location(quals: &Vec<Qual>) -> (r: Result<(String, String), FdwError>)
    ensures
        r is Ok <==> {
            &&& numeric_qual(quals@, "latitude"@) is Some
            &&& numeric_qual(quals@, "longitude"@) is Some
            &&& numeric_within(quals@, "latitude"@, 90)
            &&& numeric_within(quals@, "longitude"@, 180)
        },
        r matches Ok((lat, lon)) ==> numeric_qual(quals@, "latitude"@) == Some(lat@)
            && numeric_qual(quals@, "longitude"@) == Some(lon@),
        r matches Err(e) ==> e.kind == (if numeric_qual(quals@, "latitude"@) is None
            || numeric_qual(quals@, "longitude"@) is None {
            ErrorKind::MissingRequiredParameter
        } else {
            ErrorKind::InvalidParameterRange
        }),
{
    let latitude = match extract_qual_numeric(quals, "latitude") {
        Some(v) => v,
        None => return Err(FdwError::new(
            ErrorKind::MissingRequiredParameter,
            "WHERE clause must include 'latitude' between -90 and 90. Example: WHERE latitude = 52.52 AND longitude = 13.405",
        )),
    };
    let longitude = match extract_qual_numeric(quals, "longitude") {
        Some(v) => v,
        None => return Err(FdwError::new(
            ErrorKind::MissingRequiredParameter,
            "WHERE clause must include 'longitude' between -180 and 180. Example: WHERE latitude = 52.52 AND longitude = 13.405",
        )),
    };
    if !qual_within(quals, "latitude", 90) {
        return Err(FdwError::new(
            ErrorKind::InvalidParameterRange,
            "latitude must be between -90 and 90. Example: WHERE latitude = 52.52",
        ));
    }
    if !qual_within(quals, "longitude", 180) {
        return Err(FdwError::new(
            ErrorKind::InvalidParameterRange,
            "longitude must be between -180 and 180. Example: WHERE longitude = 13.405",
        ));
    }
    Ok((latitude, longitude))
}

/// The parameters of a scan of `e`, read from its predicates.
pub fn extract_params(quals: &Vec<Qual>, e: EndpointType) -> (r: Result<QueryParameters, FdwError>)
    ensures
        match r {
            Ok(p) => extraction_error(quals@, e) is None && params_of(quals@, e, p),
            Err(err) => extraction_error(quals@, e) == Some(err.kind),
        },
{
    let (latitude, longitude) = match extract_and_validate_location(quals) {
        Ok(loc) => loc,
        Err(err) => return Err(err),
    };
    let units = match extract_qual_string(quals, "units") {
        Some(u) => u,
        None => "metric".to_owned(),
    };
    let lang = match extract_qual_string(quals, "lang") {
        Some(l) => l,
        None => "en".to_owned(),
    };
    let mut dt: Option<i64> = None;
    let mut date: Option<String> = None;
    let mut timezone_offset: Option<String> = None;
    match e {
        EndpointType::HistoricalWeather => {
            match extract_qual_timestamptz(quals, "observation_time") {
                Some(ts) => {
                    dt = Some(micros_to_seconds(ts));
                },
                None => return Err(FdwError::new(
                    ErrorKind::MissingRequiredParameter,
                    "WHERE clause must include 'observation_time' for historical_weather. Example: WHERE latitude = 52.52 AND longitude = 13.405 AND observation_time = '2024-01-01 00:00:00+00'",
                )),
            }
        },
        EndpointType::DailySummary => {
            match extract_qual_string(quals, "summary_date") {
                Some(d) => {
                    date = Some(d);
                },
                None => return Err(FdwError::new(
                    ErrorKind::MissingRequiredParameter,
                    "WHERE clause must include 'summary_date' (YYYY-MM-DD format) for daily_summary. Example: WHERE latitude = 52.52 AND longitude = 13.405 AND summary_date = '2024-01-15'",
                )),
            }
            timezone_offset = extract_qual_string(quals, "timezone_offset");
        },
        EndpointType::WeatherOverview => {
            date = extract_qual_string(quals, "overview_date");
        },
        _ => {},
    }
    Ok(QueryParameters { latitude, longitude, units, lang, dt, date, timezone_offset })
}

/// A scan whose predicates lack an equality on `latitude` or on `longitude`
/// is refused as missing a parameter, whatever its endpoint, before any
/// request is built.
pub proof fn lemma_missing_location_refused(q: Seq<Qual>, e: EndpointType)
    requires
        first_eq(q, "latitude"@) is None || first_eq(q, "longitude"@) is None,
    ensures
        extraction_error(q, e) == Some(ErrorKind::MissingRequiredParameter),
{
}

} // verus!
