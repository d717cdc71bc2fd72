//! The unit model and the values shared by every provider.
//!
//! Degrees and temperatures are never computed with here. Each is carried as
//! a [`numeral::Numeral`], the text that the number is printed as, so what a
//! provider sent is what a caller gets.

use vstd::prelude::*;

pub mod escape;
pub mod geocoder;
pub mod numeral;
pub mod open_weather_map;

use crate::api::escape::{form_encoded_text, is_plain_char, lemma_plain_text_stays};
use crate::api::numeral::Numeral;

verus! {

/// The unit system a caller asks for.
#[derive(Debug, Copy, Clone, PartialEq, Eq, Structural)]
pub enum TemperatureUnit {
    Kelvin,
    Celsius,
    Fahrenheit,
}

impl TemperatureUnit {
    /// The token that selects this unit system in a request.
    pub open spec fn token(self) -> Seq<char> {
        match self {
            TemperatureUnit::Kelvin => "standard"@,
            TemperatureUnit::Celsius => "metric"@,
            TemperatureUnit::Fahrenheit => "imperial"@,
        }
    }

    /// The token as a string slice.
    pub fn as_str(&self) -> (token: &'static str)
        ensures
            token@ == self.token(),
    {
        match self {
            TemperatureUnit::Kelvin => "standard",
            TemperatureUnit::Celsius => "metric",
            TemperatureUnit::Fahrenheit => "imperial",
        }
    }

    /// The token as an owned string.
    pub fn to_string(&self) -> (token: String)
        ensures
            token@ == self.token(),
    {
        String::from_str(self.as_str())
    }
}

/// Every unit has one of the three tokens `standard`, `metric` and `imperial`,
/// and no two units share a token.
pub proof fn lemma_unit_tokens(a: TemperatureUnit, b: TemperatureUnit)
    ensures
        a.token() == "standard"@ || a.token() == "metric"@ || a.token() == "imperial"@,
        a.token() == "standard"@ <==> a == TemperatureUnit::Kelvin,
        a.token() == "metric"@ <==> a == TemperatureUnit::Celsius,
        a.token() == "imperial"@ <==> a == TemperatureUnit::Fahrenheit,
        a.token() == b.token() <==> a == b,
{
    reveal_strlit("standard");
    reveal_strlit("metric");
    reveal_strlit("imperial");
    assert("standard"@[0] != "imperial"@[0]);
}

/// A query string shows a unit's token as it is.
pub proof fn lemma_token_is_written_as_is(unit: TemperatureUnit)
    ensures
        form_encoded_text(unit.token()) == unit.token(),
{
    reveal_strlit("standard");
    reveal_strlit("metric");
    reveal_strlit("imperial");
    let token = unit.token();
    assert forall|i: int| 0 <= i < token.len() implies is_plain_char(#[trigger] token[i]) by {}
    lemma_plain_text_stays(token);
}

/// Why a request brought no usable answer.
#[derive(Debug, Copy, Clone, PartialEq, Eq, Structural)]
pub enum TransportError {
    /// The provider could not be reached.
    Connection,
    /// No answer came in time.
    Timeout,
    /// The provider answered with a status other than success.
    Status(u16),
    /// The body was not the JSON that the provider documents.
    Decode,
}

impl TransportError {
    /// The kind of a failure with the given signs. A timeout counts before a
    /// status, a status before a body that could not be decoded, and a
    /// failure with none of these signs is one of the connection.
    pub open spec fn kind(timed_out: bool, status: Option<u16>, undecodable: bool) -> TransportError {
        if timed_out {
            TransportError::Timeout
        } else if let Some(code) = status {
            TransportError::Status(code)
        } else if undecodable {
            TransportError::Decode
        } else {
            TransportError::Connection
        }
    }

    /// Tells the kind of a failure from its signs: whether the request timed
    /// out, the status of the answer if the failure lies in it, and whether
    /// the body could not be decoded.
    pub fn classify(timed_out: bool, status: Option<u16>, undecodable: bool) -> (failure: Self)
        ensures
            failure == Self::kind(timed_out, status, undecodable),
    {
        if timed_out {
            TransportError::Timeout
        } else if let Some(code) = status {
            TransportError::Status(code)
        } else if undecodable {
            TransportError::Decode
        } else {
            TransportError::Connection
        }
    }
}

/// A point on Earth's surface, in degrees.
#[derive(Debug, Clone, PartialEq, Eq)]
pub struct Coordinate {
    pub lat: Numeral,
    pub lon: Numeral,
}

/// What a [`Coordinate`] holds.
pub struct CoordinateView {
    pub lat: Seq<char>,
    pub lon: Seq<char>,
}

impl View for Coordinate {
    type V = CoordinateView;

    open spec fn view(&self) -> CoordinateView {
        CoordinateView { lat: self.lat@, lon: self.lon@ }
    }
}

/// Current conditions, the same whichever provider they came from.
#[derive(Debug, Clone, PartialEq, Eq)]
pub struct WeatherData {
    /// The unit system the temperatures are in.
    pub units: TemperatureUnit,
    pub temp: Numeral,
    pub feels_like: Numeral,
    /// Atmospheric pressure, hPa.
    pub pressure: i32,
    /// Relative humidity, %.
    pub humidity: i32,
}

/// What a [`WeatherData`] holds.
pub struct WeatherDataView {
    pub units: TemperatureUnit,
    pub temp: Seq<char>,
    pub feels_like: Seq<char>,
    pub pressure: int,
    pub humidity: int,
}

impl View for WeatherData {
    type V = WeatherDataView;

    open spec fn view(&self) -> WeatherDataView {
        WeatherDataView {
            units: self.units,
            temp: self.temp@,
            feels_like: self.feels_like@,
            pressure: self.pressure as int,
            humidity: self.humidity as int,
        }
    }
}

/// A provider of current weather.
///
/// One exchange serves one call: the provider names the single URL to fetch,
/// and reads what came back. `fetched` is the decoded answer, or the reason
/// there is none.
pub trait WeatherSource {
    /// What the provider's answer decodes to.
    type Response;

    /// The URL that asks for the weather at a coordinate.
    spec fn request_text(&self, coordinate: CoordinateView, units: TemperatureUnit) -> Seq<char>;

    /// The conditions that an answer reports, taken to be in `units`.
    spec fn conditions(response: Self::Response, units: TemperatureUnit) -> WeatherDataView;

    /// The URL to fetch for the weather at `coordinate` in `units`.
    fn weather_url(&self, coordinate: &Coordinate, units: TemperatureUnit) -> (url: String)
        ensures
            url@ == self.request_text(coordinate@, units),
    ;

    /// The conditions in the answer to a request that asked for `units`. A
    /// failed exchange is handed on as it is.
    fn get_weather_data(
        &self,
        units: TemperatureUnit,
        fetched: Result<Self::Response, TransportError>,
    ) -> (outcome: Result<WeatherData, TransportError>)
        ensures
            match fetched {
                Ok(response) => outcome matches Ok(data) && data@ == Self::conditions(
                    response,
                    units,
                ),
                Err(e) => outcome == Err::<WeatherData, TransportError>(e),
            },
            outcome matches Ok(data) ==> data.units == units,
    ;
}

} // verus!
