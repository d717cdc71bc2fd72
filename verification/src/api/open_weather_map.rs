//! Current weather by OpenWeatherMap.

use std::collections::BTreeMap;
use vstd::prelude::*;
use crate::api::escape::{form_encoded_text, param_text, query_text};
use crate::api::numeral::{is_numeral, lemma_numeral_is_written_as_is, Numeral};
use crate::api::{
    lemma_token_is_written_as_is, Coordinate, CoordinateView, TemperatureUnit, TransportError,
    WeatherData, WeatherDataView, WeatherSource,
};

verus! {

pub const OPEN_WEATHER_MAP_ENDPOINT: &'static str = "https://api.openweathermap.org/data/2.5/weather";

pub struct OpenWeatherMapSource {
    api_key: String,
}

impl OpenWeatherMapSource {
    /// The credential sent with every request.
    pub closed spec fn key(&self) -> Seq<char> {
        self.api_key@
    }

    pub fn new(api_key: &str) -> (source: Self)
        ensures
            source.key() == api_key@,
    {
        Self { api_key: String::from_str(api_key) }
    }
}

/// A request to the OpenWeatherMap API.
#[derive(Debug, Clone, PartialEq, Eq)]
pub struct OpenWeatherMapRequest {
    /// Latitude of the location.
    pub lat: Numeral,
    /// Longitude of the location.
    pub lon: Numeral,
    /// Your unique API key.
    pub appid: String,
    /// Response format. Possible values are xml and html.
    /// JSON is used by default if this parameter is not set.
    pub mode: Option<String>,
    /// Units of measurement. Possible values are standard, metric, and imperial.
    /// Standard units are used by default if this parameter is not set.
    pub units: Option<String>,
    /// Language for the output.
    pub lang: Option<String>,
}

/// What an [`OpenWeatherMapRequest`] holds.
pub struct OpenWeatherMapRequestView {
    pub lat: Seq<char>,
    pub lon: Seq<char>,
    pub appid: Seq<char>,
    pub mode: Option<Seq<char>>,
    pub units: Option<Seq<char>>,
    pub lang: Option<Seq<char>>,
}

/// The text of an optional value.
pub open spec fn text_of(value: Option<String>) -> Option<Seq<char>> {
    match value {
        Some(text) => Some(text@),
        None => None,
    }
}

/// The parameter that an optional value contributes: none while it is unset.
pub open spec fn optional_param(key: Seq<char>, value: Option<Seq<char>>) -> Seq<(Seq<char>, Seq<char>)> {
    match value {
        Some(text) => seq![(key, text)],
        None => Seq::empty(),
    }
}

impl OpenWeatherMapRequestView {
    /// The query parameters, in the order they are written.
    pub open spec fn params(self) -> Seq<(Seq<char>, Seq<char>)> {
        seq![("lat"@, self.lat), ("lon"@, self.lon), ("appid"@, self.appid)]
            + optional_param("mode"@, self.mode)
            + optional_param("units"@, self.units)
            + optional_param("lang"@, self.lang)
    }
}

impl View for OpenWeatherMapRequest {
    type V = OpenWeatherMapRequestView;

    open spec fn view(&self) -> OpenWeatherMapRequestView {
        OpenWeatherMapRequestView {
            lat: self.lat@,
            lon: self.lon@,
            appid: self.appid@,
            mode: text_of(self.mode),
            units: text_of(self.units),
            lang: text_of(self.lang),
        }
    }
}

/// The texts of a list of key and value pairs.
pub open spec fn pair_texts(pairs: Seq<(String, String)>) -> Seq<(Seq<char>, Seq<char>)> {
    pairs.map_values(|pair: (String, String)| (pair.0@, pair.1@))
}

/// Writes `pairs` as a query string with `serde_url_params::to_string`. Each
/// pair is handed over as a map of one entry, for which the serializer writes
/// the key as it is, `=`, and the value form-encoded, with `&` before every
/// parameter but the first. It writes to memory, and what it writes is UTF-8,
/// so it does not fail.
#[verifier::external_body]
fn url_params(pairs: &Vec<(String, String)>) -> (text: String)
    ensures
        text@ == query_text(pair_texts(pairs@)),
{
    let entries: Vec<BTreeMap<&str, &str>> = pairs
        .iter()
        .map(|pair| BTreeMap::from([(pair.0.as_str(), pair.1.as_str())]))
        .collect();
    serde_url_params::to_string(&entries).unwrap_or_default()
}

/// Appends the parameter of an optional value, if it is set.
fn push_optional(pairs: &mut Vec<(String, String)>, key: &str, value: &Option<String>)
    ensures
        pair_texts(final(pairs)@) == pair_texts(old(pairs)@) + optional_param(key@, text_of(*value)),
{
    match value {
        Some(text) => {
            pairs.push((String::from_str(key), text.clone()));
            assert(pair_texts(pairs@) =~= pair_texts(old(pairs)@) + seq![(key@, text@)]);
        },
        None => {
            assert(pair_texts(pairs@) =~= pair_texts(old(pairs)@) + Seq::empty());
        },
    }
}

impl OpenWeatherMapRequest {
    /// Constructs a new `OpenWeatherMapRequest`.
    pub fn new(lat: Numeral, lon: Numeral, appid: String) -> (request: Self)
        ensures
            request@ == (OpenWeatherMapRequestView {
                lat: lat@,
                lon: lon@,
                appid: appid@,
                mode: None,
                units: None,
                lang: None,
            }),
    {
        OpenWeatherMapRequest { lat, lon, appid, mode: None, units: None, lang: None }
    }

    /// Sets the response format.
    pub fn mode(self, mode: String) -> (request: Self)
        ensures
            request@ == (OpenWeatherMapRequestView { mode: Some(mode@), ..self@ }),
    {
        OpenWeatherMapRequest { mode: Some(mode), ..self }
    }

    /// Sets the units of measurement.
    pub fn units(self, units: TemperatureUnit) -> (request: Self)
        ensures
            request@ == (OpenWeatherMapRequestView { units: Some(units.token()), ..self@ }),
    {
        OpenWeatherMapRequest { units: Some(units.to_string()), ..self }
    }

    /// Sets the output language.
    pub fn lang(self, lang: String) -> (request: Self)
        ensures
            request@ == (OpenWeatherMapRequestView { lang: Some(lang@), ..self@ }),
    {
        OpenWeatherMapRequest { lang: Some(lang), ..self }
    }

    /// The query parameters of this request: `lat`, `lon` and `appid`, then
    /// `mode`, `units` and `lang` as far as they are set.
    pub fn query_pairs(&self) -> (pairs: Vec<(String, String)>)
        ensures
            pair_texts(pairs@) == self@.params(),
    {
        let mut pairs: Vec<(String, String)> = Vec::new();
        pairs.push((String::from_str("lat"), String::from_str(self.lat.as_str())));
        pairs.push((String::from_str("lon"), String::from_str(self.lon.as_str())));
        pairs.push((String::from_str("appid"), self.appid.clone()));
        assert(pair_texts(pairs@) =~= seq![
            ("lat"@, self.lat@),
            ("lon"@, self.lon@),
            ("appid"@, self.appid@),
        ]);
        push_optional(&mut pairs, "mode", &self.mode);
        push_optional(&mut pairs, "units", &self.units);
        push_optional(&mut pairs, "lang", &self.lang);
        pairs
    }

    /// This request as a query string.
    pub fn to_query(&self) -> (query: String)
        ensures
            query@ == query_text(self@.params()),
    {
        let pairs = self.query_pairs();
        url_params(&pairs)
    }
}

impl WeatherSource for OpenWeatherMapSource {
    type Response = OpenWeatherMapResponse;

    open spec fn request_text(&self, coordinate: CoordinateView, units: TemperatureUnit) -> Seq<
        char,
    > {
        OPEN_WEATHER_MAP_ENDPOINT@ + "?"@ + query_text(
            seq![
                ("lat"@, coordinate.lat),
                ("lon"@, coordinate.lon),
                ("appid"@, self.key()),
                ("units"@, units.token()),
            ],
        )
    }

    open spec fn conditions(response: OpenWeatherMapResponse, units: TemperatureUnit) -> WeatherDataView {
        WeatherDataView {
            units,
            temp: response.main.temp@,
            feels_like: response.main.feels_like@,
            pressure: response.main.pressure as int,
            humidity: response.main.humidity as int,
        }
    }

    fn weather_url(&self, coordinate: &Coordinate, units: TemperatureUnit) -> (url: String) {
        let request = OpenWeatherMapRequest::new(
            coordinate.lat.clone(),
            coordinate.lon.clone(),
            self.api_key.clone(),
        ).units(units);
        assert(request@.params() =~= seq![
            ("lat"@, coordinate.lat@),
            ("lon"@, coordinate.lon@),
            ("appid"@, self.key()),
            ("units"@, units.token()),
        ]);
        let mut url = String::from_str(OPEN_WEATHER_MAP_ENDPOINT);
        url.append("?");
        url.append(request.to_query().as_str());
        url
    }

    fn get_weather_data(
        &self,
        units: TemperatureUnit,
        fetched: Result<OpenWeatherMapResponse, TransportError>,
    ) -> (outcome: Result<WeatherData, TransportError>) {
        match fetched {
            Ok(response) => Ok(
                WeatherData {
                    units,
                    temp: response.main.temp,
                    feels_like: response.main.feels_like,
                    pressure: response.main.pressure,
                    humidity: response.main.humidity,
                },
            ),
            Err(e) => Err(e),
        }
    }
}

/// Appending one parameter to the text before it: `label` is the separator,
/// the key and `=` in one piece.
proof fn lemma_append_param(
    head: Seq<char>,
    separator: Seq<char>,
    pair: (Seq<char>, Seq<char>),
    label: Seq<char>,
)
    requires
        label == separator + pair.0 + seq!['='],
    ensures
        head + separator + param_text(pair) == head + label + form_encoded_text(pair.1),
{
    assert(head + separator + param_text(pair) =~= head + label + form_encoded_text(pair.1));
}

/// The URL that asks for current weather, written out: the degrees and the
/// unit's token stand in it as they are, and the key form-encoded.
pub proof fn lemma_weather_url_text(
    source: OpenWeatherMapSource,
    coordinate: CoordinateView,
    units: TemperatureUnit,
)
    requires
        is_numeral(coordinate.lat),
        is_numeral(coordinate.lon),
    ensures
        source.request_text(coordinate, units) == OPEN_WEATHER_MAP_ENDPOINT@ + "?lat="@
            + coordinate.lat + "&lon="@ + coordinate.lon + "&appid="@ + form_encoded_text(
            source.key(),
        ) + "&units="@ + units.token(),
{
    let amp = seq!['&'];
    let lat = ("lat"@, coordinate.lat);
    let lon = ("lon"@, coordinate.lon);
    let appid = ("appid"@, source.key());
    let unit = ("units"@, units.token());
    let head = OPEN_WEATHER_MAP_ENDPOINT@;
    lemma_numeral_is_written_as_is(coordinate.lat);
    lemma_numeral_is_written_as_is(coordinate.lon);
    lemma_token_is_written_as_is(units);
    assert(query_text(seq![lat, lon, appid, unit]) == param_text(lat) + amp + param_text(lon) + amp
        + param_text(appid) + amp + param_text(unit)) by {
        reveal_with_fuel(query_text, 4);
        assert(seq![lat, lon, appid, unit].drop_last() =~= seq![lat, lon, appid]);
        assert(seq![lat, lon, appid].drop_last() =~= seq![lat, lon]);
        assert(seq![lat, lon].drop_last() =~= seq![lat]);
    }
    assert("?lat="@ == "?"@ + "lat"@ + seq!['=']) by {
        reveal_strlit("?");
        reveal_strlit("lat");
        reveal_strlit("?lat=");
        assert("?lat="@ =~= "?"@ + "lat"@ + seq!['=']);
    }
    assert("&lon="@ == amp + "lon"@ + seq!['=']) by {
        reveal_strlit("lon");
        reveal_strlit("&lon=");
        assert("&lon="@ =~= amp + "lon"@ + seq!['=']);
    }
    assert("&appid="@ == amp + "appid"@ + seq!['=']) by {
        reveal_strlit("appid");
        reveal_strlit("&appid=");
        assert("&appid="@ =~= amp + "appid"@ + seq!['=']);
    }
    assert("&units="@ == amp + "units"@ + seq!['=']) by {
        reveal_strlit("units");
        reveal_strlit("&units=");
        assert("&units="@ =~= amp + "units"@ + seq!['=']);
    }
    let first = head + "?lat="@ + coordinate.lat;
    let second = first + "&lon="@ + coordinate.lon;
    let third = second + "&appid="@ + form_encoded_text(source.key());
    lemma_append_param(head, "?"@, lat, "?lat="@);
    lemma_append_param(first, amp, lon, "&lon="@);
    lemma_append_param(second, amp, appid, "&appid="@);
    lemma_append_param(third, amp, unit, "&units="@);
    assert(head + "?"@ + (param_text(lat) + amp + param_text(lon) + amp + param_text(appid) + amp
        + param_text(unit)) =~= head + "?"@ + param_text(lat) + amp + param_text(lon) + amp
        + param_text(appid) + amp + param_text(unit));
}

/// The entire response from the OpenWeatherMap API.
#[derive(Debug, Clone, PartialEq, Eq)]
pub struct OpenWeatherMapResponse {
    /// Geographic coordinates of the location.
    pub coord: Coord,
    /// Information about the current weather conditions.
    pub weather: Vec<Weather>,
    /// Internal parameter.
    pub base: String,
    /// Main weather parameters.
    pub main: Main,
    /// Visibility distance in meters. The maximum value is 10 km.
    pub visibility: i32,
    /// Wind information.
    pub wind: Wind,
    /// Cloudiness information.
    pub clouds: Clouds,
    /// Rain volume for the last 1 and 3 hours, if available.
    pub rain: Option<Rain>,
    /// Snow volume for the last 1 and 3 hours, if available.
    pub snow: Option<Snow>,
    /// Time of data calculation, unix, UTC.
    pub dt: u64,
    /// System parameters.
    pub sys: Sys,
    /// Shift in seconds from UTC.
    pub timezone: i32,
    /// City ID.
    pub id: i32,
    /// City name.
    pub name: String,
    /// Internal parameter.
    pub cod: i32,
}

/// Geographic coordinates.
#[derive(Debug, Clone, PartialEq, Eq)]
pub struct Coord {
    /// Longitude of the location.
    pub lon: Numeral,
    /// Latitude of the location.
    pub lat: Numeral,
}

/// Weather condition information.
#[derive(Debug, Clone, PartialEq, Eq)]
pub struct Weather {
    /// Weather condition ID.
    pub id: i32,
    /// Group of weather parameters (Rain, Snow, Clouds, etc.).
    pub main: String,
    /// Weather condition within the group.
    pub description: String,
    /// Weather icon ID.
    pub icon: String,
}

/// Main weather parameters.
#[derive(Debug, Clone, PartialEq, Eq)]
pub struct Main {
    /// Temperature. Unit Default: Kelvin, Metric: Celsius, Imperial: Fahrenheit.
    pub temp: Numeral,
    /// Temperature accounting for human perception of weather.
    pub feels_like: Numeral,
    /// Atmospheric pressure on the sea level, hPa.
    pub pressure: i32,
    /// Humidity, %.
    pub humidity: i32,
    /// Minimum temperature at the moment.
    pub temp_min: Numeral,
    /// Maximum temperature at the moment.
    pub temp_max: Numeral,
    /// Atmospheric pressure on the sea level, hPa (optional).
    pub sea_level: Option<i32>,
    /// Atmospheric pressure on the ground level, hPa (optional).
    pub grnd_level: Option<i32>,
}

/// Wind information.
#[derive(Debug, Clone, PartialEq, Eq)]
pub struct Wind {
    /// Wind speed. Unit Default: meter/sec.
    pub speed: Numeral,
    /// Wind direction, degrees (meteorological).
    pub deg: i32,
    /// Wind gust. Unit Default: meter/sec (optional).
    pub gust: Option<Numeral>,
}

/// Cloudiness information.
#[derive(Debug, Clone, PartialEq, Eq)]
pub struct Clouds {
    /// Cloudiness, %.
    pub all: i32,
}

/// Rain volume information.
#[derive(Debug, Clone, PartialEq, Eq)]
pub struct Rain {
    /// Rain volume for the last 1 hour, mm (optional).
    pub one_hour: Option<Numeral>,
    /// Rain volume for the last 3 hours, mm (optional).
    pub three_hours: Option<Numeral>,
}

/// Snow volume information.
#[derive(Debug, Clone, PartialEq, Eq)]
pub struct Snow {
    /// Snow volume for the last 1 hour, mm (optional).
    pub one_hour: Option<Numeral>,
    /// Snow volume for the last 3 hours, mm (optional).
    pub three_hours: Option<Numeral>,
}

/// System parameters.
#[derive(Debug, Clone, PartialEq, Eq)]
pub struct Sys {
    /// Internal parameter (optional).
    pub type_: Option<i32>,
    /// Internal parameter (optional).
    pub id: Option<i32>,
    /// Internal parameter (optional).
    pub message: Option<Numeral>,
    /// Country code (GB, JP, etc.).
    pub country: String,
    /// Sunrise time, unix, UTC.
    pub sunrise: u64,
    /// Sunset time, unix, UTC.
    pub sunset: u64,
}

} // verus!
