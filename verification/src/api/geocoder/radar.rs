//! Geocoding by Radar.

use vstd::prelude::*;
use crate::api::{Coordinate, CoordinateView, TransportError};
use crate::api::escape::percent_encoded_text;
use crate::api::numeral::Numeral;
use crate::api::geocoder::{first_candidate, is_outcome, GeocodeError, Geocoder};

verus! {

pub const RADAR_FORWARD_ENDPOINT: &'static str = "https://api.radar.io/v1/geocode/forward";

pub const RADAR_IP_ENDPOINT: &'static str = "https://api.radar.io/v1/geocode/ip";

/// One address candidate.
#[derive(Debug, Clone, PartialEq, Eq)]
pub struct RadarGeocodeAddress {
    pub latitude: Numeral,
    pub longitude: Numeral,
}

/// The decoded answer of either lookup.
#[derive(Debug, Clone, PartialEq, Eq)]
pub struct RadarGeocodeResponse {
    pub addresses: Vec<RadarGeocodeAddress>,
}

impl RadarGeocodeAddress {
    /// Where the candidate lies.
    pub open spec fn coordinate(self) -> CoordinateView {
        CoordinateView { lat: self.latitude@, lon: self.longitude@ }
    }
}

pub struct RadarGeocoder {
    api_key: String,
}

impl RadarGeocoder {
    /// The key this geocoder was made with.
    pub closed spec fn key(&self) -> Seq<char> {
        self.api_key@
    }

    pub fn new(api_key: &str) -> (geocoder: Self)
        ensures
            geocoder.key() == api_key@,
    {
        Self { api_key: String::from_str(api_key) }
    }
}

/// Percent-encodes `text` with `urlencoding::encode`: over the UTF-8 bytes of
/// `text`, letters, digits, `-`, `_`, `.` and `~` stay, and every other byte
/// becomes `%` and two upper-case hexadecimal digits.
#[verifier::external_body]
fn percent_encode(text: &str) -> (encoded: String)
    ensures
        encoded@ == percent_encoded_text(text@),
{
    urlencoding::encode(text).into_owned()
}

/// The first candidate of an answer.
fn first_address(fetched: Result<RadarGeocodeResponse, TransportError>) -> (found: Result<
    Coordinate,
    GeocodeError,
>)
    ensures
        is_outcome(
            found,
            first_candidate(
                match fetched {
                    Ok(response) => Ok(RadarGeocoder::candidates(response)),
                    Err(e) => Err(e),
                },
            ),
        ),
{
    match fetched {
        Err(e) => Err(GeocodeError::Transport(e)),
        Ok(response) => {
            let mut addresses = response.addresses;
            if addresses.len() == 0 {
                Err(GeocodeError::NoResults)
            } else {
                let first = addresses.swap_remove(0);
                Ok(Coordinate { lat: first.latitude, lon: first.longitude })
            }
        },
    }
}

impl Geocoder for RadarGeocoder {
    type Response = RadarGeocodeResponse;

    open spec fn candidates(response: RadarGeocodeResponse) -> Seq<CoordinateView> {
        response.addresses@.map_values(|a: RadarGeocodeAddress| a.coordinate())
    }

    open spec fn forward_url(query: Seq<char>) -> Seq<char> {
        RADAR_FORWARD_ENDPOINT@ + "?query="@ + percent_encoded_text(query)
    }

    open spec fn origin_url() -> Option<Seq<char>> {
        Some(RADAR_IP_ENDPOINT@)
    }

    fn geocode_url(query: &str) -> (url: String) {
        let mut url = String::from_str(RADAR_FORWARD_ENDPOINT);
        url.append("?query=");
        url.append(percent_encode(query).as_str());
        url
    }

    fn geocode(fetched: Result<RadarGeocodeResponse, TransportError>) -> (found: Result<
        Coordinate,
        GeocodeError,
    >) {
        first_address(fetched)
    }

    fn geocode_ip_url() -> (url: Option<String>) {
        Some(String::from_str(RADAR_IP_ENDPOINT))
    }

    fn geocode_ip(fetched: Result<RadarGeocodeResponse, TransportError>) -> (found: Option<
        Result<Coordinate, GeocodeError>,
    >) {
        Some(first_address(fetched))
    }
}

} // verus!
