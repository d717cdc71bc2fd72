use weather_client::api::geocoder::radar::{
    RadarGeocodeAddress, RadarGeocodeResponse, RadarGeocoder,
};
use weather_client::api::geocoder::{GeocodeError, Geocoder};
use weather_client::api::numeral::Numeral;
use weather_client::api::{Coordinate, TransportError};

fn degrees(value: f64) -> Numeral {
    Numeral::parse(&value.to_string()).unwrap()
}

fn address(latitude: f64, longitude: f64) -> RadarGeocodeAddress {
    RadarGeocodeAddress { latitude: degrees(latitude), longitude: degrees(longitude) }
}

fn coordinate(lat: f64, lon: f64) -> Coordinate {
    Coordinate { lat: degrees(lat), lon: degrees(lon) }
}

fn two_addresses() -> RadarGeocodeResponse {
    RadarGeocodeResponse { addresses: vec![address(51.5, -0.1), address(40.7, -74.0)] }
}

fn no_addresses() -> RadarGeocodeResponse {
    RadarGeocodeResponse { addresses: vec![] }
}

#[test]
fn geocode_url_of_a_plain_word() {
    assert_eq!(
        RadarGeocoder::geocode_url("London"),
        "https://api.radar.io/v1/geocode/forward?query=London"
    );
}

#[test]
fn geocode_url_escapes_spaces_and_punctuation() {
    assert_eq!(
        RadarGeocoder::geocode_url("New York, NY"),
        "https://api.radar.io/v1/geocode/forward?query=New%20York%2C%20NY"
    );
}

#[test]
fn geocode_url_keeps_unreserved_characters() {
    assert_eq!(
        RadarGeocoder::geocode_url("a-b_c.d~e*f"),
        "https://api.radar.io/v1/geocode/forward?query=a-b_c.d~e%2Af"
    );
}

#[test]
fn geocode_url_escapes_each_byte_of_a_character() {
    assert_eq!(
        RadarGeocoder::geocode_url("Zürich"),
        "https://api.radar.io/v1/geocode/forward?query=Z%C3%BCrich"
    );
}

#[test]
fn geocode_url_escapes_query_syntax() {
    assert_eq!(
        RadarGeocoder::geocode_url("a&b=c?d#e/f%"),
        "https://api.radar.io/v1/geocode/forward?query=a%26b%3Dc%3Fd%23e%2Ff%25"
    );
}

#[test]
fn geocode_url_of_an_empty_query() {
    assert_eq!(RadarGeocoder::geocode_url(""), "https://api.radar.io/v1/geocode/forward?query=");
}

#[test]
fn geocode_returns_the_first_address() {
    assert_eq!(RadarGeocoder::geocode(Ok(two_addresses())), Ok(coordinate(51.5, -0.1)));
}

#[test]
fn geocode_returns_the_only_address() {
    let response = RadarGeocodeResponse { addresses: vec![address(40.7, -74.0)] };
    assert_eq!(RadarGeocoder::geocode(Ok(response)), Ok(coordinate(40.7, -74.0)));
}

#[test]
fn geocode_keeps_the_degrees_as_written() {
    let found = RadarGeocoder::geocode(Ok(two_addresses())).unwrap();
    assert_eq!(found.lat.as_str(), "51.5");
    assert_eq!(found.lon.as_str(), "-0.1");
    assert_eq!(found.lat.as_str().parse::<f64>(), Ok(51.5));
    assert_eq!(found.lon.as_str().parse::<f64>(), Ok(-0.1));
}

#[test]
fn geocode_of_no_addresses_is_an_error() {
    assert_eq!(RadarGeocoder::geocode(Ok(no_addresses())), Err(GeocodeError::NoResults));
}

#[test]
fn geocode_hands_on_a_transport_failure() {
    for failure in [
        TransportError::Connection,
        TransportError::Timeout,
        TransportError::Status(404),
        TransportError::Decode,
    ] {
        assert_eq!(RadarGeocoder::geocode(Err(failure)), Err(GeocodeError::Transport(failure)));
    }
}

#[test]
fn radar_locates_the_origin() {
    assert_eq!(
        RadarGeocoder::geocode_ip_url(),
        Some("https://api.radar.io/v1/geocode/ip".to_string())
    );
}

#[test]
fn geocode_ip_returns_the_first_address() {
    assert_eq!(RadarGeocoder::geocode_ip(Ok(two_addresses())), Some(Ok(coordinate(51.5, -0.1))));
}

#[test]
fn geocode_ip_failure_is_not_unsupported() {
    let found = RadarGeocoder::geocode_ip(Err(TransportError::Connection));
    assert_ne!(found, None);
    assert_eq!(found, Some(Err(GeocodeError::Transport(TransportError::Connection))));
}

#[test]
fn geocode_ip_of_a_malformed_body_is_an_error() {
    assert_eq!(
        RadarGeocoder::geocode_ip(Err(TransportError::Decode)),
        Some(Err(GeocodeError::Transport(TransportError::Decode)))
    );
}

#[test]
fn geocode_ip_of_no_addresses_is_an_error() {
    assert_eq!(RadarGeocoder::geocode_ip(Ok(no_addresses())), Some(Err(GeocodeError::NoResults)));
}
