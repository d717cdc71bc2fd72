//! Turning a place name, or the caller's network origin, into a coordinate.

use vstd::prelude::*;
use crate::api::{Coordinate, CoordinateView, TransportError};

pub mod radar;

verus! {

/// Why geocoding gave no coordinate.
#[derive(Debug, Copy, Clone, PartialEq, Eq, Structural)]
pub enum GeocodeError {
    /// The request failed, or its body could not be decoded.
    Transport(TransportError),
    /// The provider answered, with no address candidate.
    NoResults,
}

/// The coordinate that an exchange with a provider stands for: its first
/// candidate. A failed exchange and an empty list are each an error.
pub open spec fn first_candidate(
    fetched: Result<Seq<CoordinateView>, TransportError>,
) -> Result<CoordinateView, GeocodeError> {
    match fetched {
        Err(e) => Err(GeocodeError::Transport(e)),
        Ok(candidates) => if candidates.len() == 0 {
            Err(GeocodeError::NoResults)
        } else {
            Ok(candidates[0])
        },
    }
}

/// Whether `found` is the outcome `expected`, coordinate by view.
pub open spec fn is_outcome(
    found: Result<Coordinate, GeocodeError>,
    expected: Result<CoordinateView, GeocodeError>,
) -> bool {
    match found {
        Ok(coordinate) => expected == Ok::<CoordinateView, GeocodeError>(coordinate@),
        Err(e) => expected == Err::<CoordinateView, GeocodeError>(e),
    }
}

/// A geocoding provider.
///
/// The provider says where to ask and reads what came back; the caller
/// carries the request. `fetched` is the decoded answer, or the reason there
/// is none.
pub trait Geocoder {
    /// What the provider's answer decodes to.
    type Response;

    /// The candidates in an answer, in the provider's order.
    spec fn candidates(response: Self::Response) -> Seq<CoordinateView>;

    /// Where a place name is looked up.
    spec fn forward_url(query: Seq<char>) -> Seq<char>;

    /// Where the caller's network origin is looked up, if the provider can do that.
    spec fn origin_url() -> Option<Seq<char>>;

    /// The URL to fetch for a free-text query.
    fn geocode_url(query: &str) -> (url: String)
        ensures
            url@ == Self::forward_url(query@),
    ;

    /// The coordinate of the first candidate.
    fn geocode(fetched: Result<Self::Response, TransportError>) -> (found: Result<
        Coordinate,
        GeocodeError,
    >)
        ensures
            is_outcome(
                found,
                first_candidate(
                    match fetched {
                        Ok(response) => Ok(Self::candidates(response)),
                        Err(e) => Err(e),
                    },
                ),
            ),
    ;

    /// The URL to fetch to locate the caller's network origin; `None` where
    /// the provider has no such lookup.
    fn geocode_ip_url() -> (url: Option<String>)
        ensures
            match url {
                Some(u) => Self::origin_url() == Some(u@),
                None => Self::origin_url() is None,
            },
    ;

    /// The coordinate of the caller's network origin: `None` where the
    /// provider has no such lookup, else the first candidate or the error.
    fn geocode_ip(fetched: Result<Self::Response, TransportError>) -> (found: Option<
        Result<Coordinate, GeocodeError>,
    >)
        ensures
            Self::origin_url() is None ==> found is None,
            Self::origin_url() is Some ==> (found matches Some(outcome) && is_outcome(
                outcome,
                first_candidate(
                    match fetched {
                        Ok(response) => Ok(Self::candidates(response)),
                        Err(e) => Err(e),
                    },
                ),
            )),
    ;
}

} // verus!
