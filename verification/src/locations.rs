//! Locations: coordinates, the queries that describe them, and the resolved
//! places the geocoder hands back.
//!
//! A coordinate is held in micro-degrees (millionths of a degree) so that
//! parsing, printing and key construction are exact. Field order is latitude
//! first, longitude second, everywhere in this crate; the textual forms
//! (queries in, cache keys out) follow the same order.

use vstd::prelude::*;
use vstd::string::StringExecFns;

use crate::cache::CacheValue;
use crate::decimal::decimal_micro;
use crate::decimal::micro_string;
use crate::decimal::micro_to_string;
use crate::decimal::parse_micro;

verus! {

/// A geographic position in micro-degrees: latitude first, longitude second.
#[derive(Clone, Copy, PartialEq, Eq, Structural, Debug)]
pub struct Coordinates {
    /// Latitude in millionths of a degree.
    pub lat: i64,
    /// Longitude in millionths of a degree.
    pub lon: i64,
}

/// The error returned when a textual location cannot be converted.
#[derive(Debug)]
pub struct LocationError {
    pub message: String,
}

impl LocationError {
    pub fn new(message: String) -> (r: Self)
        ensures
            r.message == message,
    {
        LocationError { message }
    }
}

/// A coordinate pair as it arrives in a query, still unparsed.
#[derive(Debug)]
pub struct CoordinatesAsString {
    pub lat: String,
    pub lon: String,
}

/// A free-text place name as it arrives in a query.
#[derive(Debug)]
pub struct City {
    pub location: String,
}

/// What a request may say about where it wants data for: a place name to be
/// geocoded, or explicit coordinates to be parsed.
#[derive(Debug)]
pub enum LocationQuery {
    Location(City),
    Coordinates(CoordinatesAsString),
}

impl Coordinates {
    /// Both fields stay clear of the one magnitude that cannot be negated;
    /// every operation that prints a coordinate relies on this.
    pub open spec fn wf(&self) -> bool {
        self.lat != i64::MIN && self.lon != i64::MIN
    }

    /// The textual form used in cache keys: latitude, a comma, longitude.
    pub open spec fn key_string(&self) -> Seq<char> {
        micro_string(self.lat as int) + seq![','] + micro_string(self.lon as int)
    }

    pub fn new(lat: i64, lon: i64) -> (c: Self)
        ensures
            c.lat == lat,
            c.lon == lon,
    {
        Coordinates { lat, lon }
    }

    /// Prints the pair exactly as `key_string` describes.
    pub fn to_string(&self) -> (s: String)
        requires
            self.wf(),
        ensures
            s@ == self.key_string(),
    {
        let mut s = micro_to_string(self.lat);
        proof {
            reveal_strlit(",");
        }
        s.append(",");
        let lon_s = micro_to_string(self.lon);
        s.append(lon_s.as_str());
        proof {
            assert(s@ =~= self.key_string());
        }
        s
    }

    /// Converts a textual coordinate pair, latitude checked first. Succeeds
    /// exactly when both fields are decimal numbers as `decimal_micro`
    /// accepts them; a failure names the offending field and its text.
    pub fn try_from_strings(value: &CoordinatesAsString) -> (r: Result<Coordinates, LocationError>)
        ensures
            r is Ok <==> decimal_micro(value.lat@) is Some && decimal_micro(value.lon@) is Some,
            r matches Ok(c) ==> {
                &&& decimal_micro(value.lat@) == Some(c.lat as int)
                &&& decimal_micro(value.lon@) == Some(c.lon as int)
                &&& c.wf()
            },
            r matches Err(e) ==> e.message@ == if decimal_micro(value.lat@) is None {
                "Could not parse latitude: "@ + value.lat@
            } else {
                "Could not parse longitude: "@ + value.lon@
            },
    {
        let lat = match parse_micro(value.lat.as_str()) {
            Some(v) => v,
            None => {
                let msg = String::from_str("Could not parse latitude: ").concat(
                    value.lat.as_str(),
                );
                return Err(LocationError::new(msg));
            },
        };
        let lon = match parse_micro(value.lon.as_str()) {
            Some(v) => v,
            None => {
                let msg = String::from_str("Could not parse longitude: ").concat(
                    value.lon.as_str(),
                );
                return Err(LocationError::new(msg));
            },
        };
        Ok(Coordinates { lat, lon })
    }
}

/// Mathematical image of a resolved place.
pub ghost struct ResolvedLocationView {
    pub name: Seq<char>,
    pub location: Coordinates,
    pub country: Seq<char>,
    pub state: Option<Seq<char>>,
}

/// A place as the geocoding provider resolves it: its name, its position,
/// and where it lies.
#[derive(Debug)]
pub struct OpenWeatherMapLocation {
    pub name: String,
    pub location: Coordinates,
    pub country: String,
    pub state: Option<String>,
}

impl View for OpenWeatherMapLocation {
    type V = ResolvedLocationView;

    open spec fn view(&self) -> ResolvedLocationView {
        ResolvedLocationView {
            name: self.name@,
            location: self.location,
            country: self.country@,
            state: match self.state {
                Some(s) => Some(s@),
                None => None,
            },
        }
    }
}

impl DeepView for OpenWeatherMapLocation {
    type V = ResolvedLocationView;

    open spec fn deep_view(&self) -> ResolvedLocationView {
        self.view()
    }
}

impl OpenWeatherMapLocation {
    pub fn new(name: String, location: Coordinates, country: String, state: Option<String>) -> (r:
        Self)
        ensures
            r@ == (ResolvedLocationView {
                name: name@,
                location,
                country: country@,
                state: match state {
                    Some(s) => Some(s@),
                    None => None,
                },
            }),
    {
        OpenWeatherMapLocation { name, location, country, state }
    }
}

impl CacheValue for OpenWeatherMapLocation {
    fn dup(&self) -> (r: Self)
        ensures
            r.deep_view() == self.deep_view(),
    {
        OpenWeatherMapLocation {
            name: self.name.clone(),
            location: self.location,
            country: self.country.clone(),
            state: match &self.state {
                Some(s) => Some(s.clone()),
                None => None,
            },
        }
    }
}

} // verus!
