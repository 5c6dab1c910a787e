//! The eight tables and the API endpoints that serve them.

use vstd::prelude::*;
use crate::error::{ErrorKind, FdwError, error_with};
use crate::json::same_text;

verus! {

/// One of the tables that a scan can read.
#[derive(Debug, Clone, Copy, PartialEq, Eq, Structural)]
pub enum EndpointType {
    CurrentWeather,
    MinutelyForecast,
    HourlyForecast,
    DailyForecast,
    WeatherAlerts,
    HistoricalWeather,
    DailySummary,
    WeatherOverview,
}

/// The endpoint that a table name selects, if any.
pub open spec fn table_endpoint(name: Seq<char>) -> Option<EndpointType> {
    if name == "current_weather"@ {
        Some(EndpointType::CurrentWeather)
    } else if name == "minutely_forecast"@ {
        Some(EndpointType::MinutelyForecast)
    } else if name == "hourly_forecast"@ {
        Some(EndpointType::HourlyForecast)
    } else if name == "daily_forecast"@ {
        Some(EndpointType::DailyForecast)
    } else if name == "weather_alerts"@ {
        Some(EndpointType::WeatherAlerts)
    } else if name == "historical_weather"@ {
        Some(EndpointType::HistoricalWeather)
    } else if name == "daily_summary"@ {
        Some(EndpointType::DailySummary)
    } else if name == "weather_overview"@ {
        Some(EndpointType::WeatherOverview)
    } else {
        None
    }
}

impl EndpointType {
    /// The table name that selects this endpoint.
    pub open spec fn table_name(self) -> Seq<char> {
        match self {
            EndpointType::CurrentWeather => "current_weather"@,
            EndpointType::MinutelyForecast => "minutely_forecast"@,
            EndpointType::HourlyForecast => "hourly_forecast"@,
            EndpointType::DailyForecast => "daily_forecast"@,
            EndpointType::WeatherAlerts => "weather_alerts"@,
            EndpointType::HistoricalWeather => "historical_weather"@,
            EndpointType::DailySummary => "daily_summary"@,
            EndpointType::WeatherOverview => "weather_overview"@,
        }
    }

    /// The API path that serves this endpoint.
    pub open spec fn spec_api_path(self) -> Seq<char> {
        match self {
            EndpointType::HistoricalWeather => "/onecall/timemachine"@,
            EndpointType::DailySummary => "/onecall/day_summary"@,
            EndpointType::WeatherOverview => "/onecall/overview"@,
            _ => "/onecall"@,
        }
    }

    /// Whether the endpoint reads a section of the shared `/onecall` response.
    pub open spec fn spec_calls_onecall(self) -> bool {
        match self {
            EndpointType::CurrentWeather
            | EndpointType::MinutelyForecast
            | EndpointType::HourlyForecast
            | EndpointType::DailyForecast
            | EndpointType::WeatherAlerts => true,
            _ => false,
        }
    }

    /// Resolves a table name; any name but the eight known ones is refused.
    pub fn from_object_name(name: &str) -> (r: Result<EndpointType, FdwError>)
        ensures
            match r {
                Ok(e) => table_endpoint(name@) == Some(e),
                Err(_) => table_endpoint(name@) is None,
            },
            match r {
                Ok(e) => e.table_name() == name@,
                Err(err) => err.kind == ErrorKind::UnsupportedEndpoint
                    && forall|e: EndpointType| #[trigger] e.table_name() != name@,
            },
    {
        if same_text(&name.to_owned(), "current_weather") {
            Ok(EndpointType::CurrentWeather)
        } else if same_text(&name.to_owned(), "minutely_forecast") {
            Ok(EndpointType::MinutelyForecast)
        } else if same_text(&name.to_owned(), "hourly_forecast") {
            Ok(EndpointType::HourlyForecast)
        } else if same_text(&name.to_owned(), "daily_forecast") {
            Ok(EndpointType::DailyForecast)
        } else if same_text(&name.to_owned(), "weather_alerts") {
            Ok(EndpointType::WeatherAlerts)
        } else if same_text(&name.to_owned(), "historical_weather") {
            Ok(EndpointType::HistoricalWeather)
        } else if same_text(&name.to_owned(), "daily_summary") {
            Ok(EndpointType::DailySummary)
        } else if same_text(&name.to_owned(), "weather_overview") {
            Ok(EndpointType::WeatherOverview)
        } else {
            Err(error_with(
                ErrorKind::UnsupportedEndpoint,
                "unsupported endpoint object '",
                name,
                "'. Supported: current_weather, minutely_forecast, hourly_forecast, daily_forecast, weather_alerts, historical_weather, daily_summary, weather_overview",
            ))
        }
    }

    /// The API path that serves this endpoint.
    pub fn api_path(&self) -> (r: &'static str)
        ensures
            r@ == self.spec_api_path(),
    {
        match self {
            EndpointType::HistoricalWeather => "/onecall/timemachine",
            EndpointType::DailySummary => "/onecall/day_summary",
            EndpointType::WeatherOverview => "/onecall/overview",
            _ => "/onecall",
        }
    }

    /// Whether the endpoint reads a section of the shared `/onecall` response.
    pub fn calls_onecall(&self) -> (r: bool)
        ensures
            r == self.spec_calls_onecall(),
    {
        match self {
            EndpointType::CurrentWeather
            | EndpointType::MinutelyForecast
            | EndpointType::HourlyForecast
            | EndpointType::DailyForecast
            | EndpointType::WeatherAlerts => true,
            _ => false,
        }
    }
}

} // verus!
