//! The outbound request of a scan.

use vstd::prelude::*;
use vstd::string::StringExecFns;
use crate::endpoint::EndpointType;
use crate::error::{ErrorKind, FdwError};
use crate::params::QueryParameters;
use crate::text::{int_text, int_to_text};

verus! {

/// Where requests go and how they are signed.
#[derive(Debug)]
pub struct ApiConfig {
    pub base_url: String,
    pub api_key: String,
}

/// A `GET` request: its URL and its headers.
#[derive(Debug)]
pub struct Request {
    pub url: String,
    pub headers: Vec<(String, String)>,
}

/// The query of a request: location, then the endpoint's own parameters,
/// then key, units and language, as each endpoint expects them.
pub open spec fn query_of(e: EndpointType, p: QueryParameters, key: Seq<char>) -> Seq<char> {
    let loc = "?lat="@ + p.latitude@ + "&lon="@ + p.longitude@;
    let common = "&appid="@ + key + "&units="@ + p.units@ + "&lang="@ + p.lang@;
    match e {
        EndpointType::HistoricalWeather => loc + "&dt="@ + int_text(p.dt->Some_0 as int) + common,
        EndpointType::DailySummary => loc + "&date="@ + p.date->Some_0@ + common + match p.timezone_offset {
            Some(tz) => "&tz="@ + tz@,
            None => Seq::empty(),
        },
        EndpointType::WeatherOverview => loc + common + match p.date {
            Some(d) => "&date="@ + d@,
            None => Seq::empty(),
        },
        _ => loc + common,
    }
}

/// Whether `p` holds every parameter that a request for `e` needs.
pub open spec fn request_ready(e: EndpointType, p: QueryParameters) -> bool {
    &&& (e == EndpointType::HistoricalWeather ==> p.dt is Some)
    &&& (e == EndpointType::DailySummary ==> p.date is Some)
}

/// The request for a scan of `e` with parameters `p`: a `GET` of the
/// endpoint's path under the base URL, with the fixed headers.
pub fn create_request(config: &ApiConfig, e: EndpointType, p: &QueryParameters) -> (r: Result<Request, FdwError>)
    ensures
        r is Ok <==> request_ready(e, *p),
        r matches Ok(req) ==> req.url@ == config.base_url@ + e.spec_api_path() + query_of(e, *p, config.api_key@),
        r matches Err(err) ==> err.kind == ErrorKind::MissingRequiredParameter,
{
    let mut url = config.base_url.clone();
    url.append(e.api_path());
    url.append("?lat=");
    url.append(p.latitude.as_str());
    url.append("&lon=");
    url.append(p.longitude.as_str());
    match e {
        EndpointType::HistoricalWeather => match p.dt {
            Some(dt) => {
                url.append("&dt=");
                url.append(int_to_text(dt).as_str());
            },
            None => return Err(FdwError::new(
                ErrorKind::MissingRequiredParameter,
                "observation_time parameter required for historical_weather. Example: WHERE latitude = 52.52 AND longitude = 13.405 AND observation_time = '2024-01-01 00:00:00+00'",
            )),
        },
        EndpointType::DailySummary => match &p.date {
            Some(d) => {
                url.append("&date=");
                url.append(d.as_str());
            },
            None => return Err(FdwError::new(
                ErrorKind::MissingRequiredParameter,
                "summary_date parameter required for daily_summary (YYYY-MM-DD format). Example: WHERE latitude = 52.52 AND longitude = 13.405 AND summary_date = '2024-01-15'",
            )),
        },
        _ => {},
    }
    url.append("&appid=");
    url.append(config.api_key.as_str());
    url.append("&units=");
    url.append(p.units.as_str());
    url.append("&lang=");
    url.append(p.lang.as_str());
    match e {
        EndpointType::DailySummary => match &p.timezone_offset {
            Some(tz) => {
                url.append("&tz=");
                url.append(tz.as_str());
            },
            None => {},
        },
        EndpointType::WeatherOverview => match &p.date {
            Some(d) => {
                url.append("&date=");
                url.append(d.as_str());
            },
            None => {},
        },
        _ => {},
    }
    assert(url@ =~= config.base_url@ + e.spec_api_path() + query_of(e, *p, config.api_key@));
    Ok(Request { url, headers: default_headers() })
}

/// The headers of every request: a user agent, and JSON as the accepted type.
pub fn default_headers() -> (r: Vec<(String, String)>)
    ensures
        r@.len() == 2,
        r@[0].0@ == "user-agent"@,
        r@[0].1@ == "Supabase Wrappers OpenWeather FDW"@,
        r@[1].0@ == "accept"@,
        r@[1].1@ == "application/json"@,
{
    let mut h: Vec<(String, String)> = Vec::new();
    h.push(("user-agent".to_owned(), "Supabase Wrappers OpenWeather FDW".to_owned()));
    h.push(("accept".to_owned(), "application/json".to_owned()));
    h
}

} // verus!
