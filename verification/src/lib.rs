//! A weather-data client without the wire: it writes the request a provider
//! expects and reads the provider's decoded answer into a normalized result.
//! Sending the request and decoding the body are left to the caller.

pub mod api;
