//! Cache-aside resolution of a location query to a place or a coordinate
//! pair.
//!
//! A place name is looked up in the location cache first; a hit answers the
//! request outright, a cached absence answers it with "not found", and only
//! a miss asks the geocoder. The geocoder's answer — its first candidate, or
//! nothing — is written back under the name with the shared TTL, absences
//! included, so that a name known to resolve to nothing is not asked about
//! again until the entry expires. Explicit coordinates never touch the cache:
//! they are parsed, and a malformed pair fails the request.
//!
//! The geocoder itself is a collaborator outside this crate: [`lookup_location`]
//! says when it must be consulted, and [`finish_lookup_location`] folds
//! whatever it returned back into the cache. Two callers that miss on the
//! same name concurrently will each consult the geocoder and each write the
//! cache, last write winning; nothing deduplicates in-flight lookups.

use vstd::prelude::*;

use crate::CACHE_TTL_SECONDS;
use crate::cache::Cache;
use crate::cache::CacheValue;
use crate::cache::TimedCache;
use crate::cache::EntryModel;
use crate::cache::evict;
use crate::cache::lookup;
use crate::cache::store;
use crate::locations::Coordinates;
use crate::locations::LocationError;
use crate::locations::LocationQuery;
use crate::locations::OpenWeatherMapLocation;
use crate::locations::ResolvedLocationView;

verus! {

/// A request-fatal error, carrying the status the response layer should use.
#[derive(Debug)]
pub struct ApplicationError {
    pub message: String,
    pub status_code: u16,
}

impl ApplicationError {
    pub fn new(message: &str, status_code: u16) -> (r: Self)
        ensures
            r.message@ == message@,
            r.status_code == status_code,
    {
        ApplicationError { message: message.to_owned(), status_code }
    }
}

/// The error shape of the coarser handlers, always reported as an internal
/// fault.
#[derive(Debug)]
pub struct InternalApplicationError {
    message: String,
}

impl InternalApplicationError {
    /// The text this error carries.
    pub closed spec fn spec_message(&self) -> Seq<char> {
        self.message@
    }

    pub fn new(message: &str) -> (r: Self)
        ensures
            r.spec_message() == message@,
    {
        InternalApplicationError { message: message.to_owned() }
    }

    /// The text this error carries.
    pub fn message(&self) -> (r: &str)
        ensures
            r@ == self.spec_message(),
    {
        self.message.as_str()
    }
}

/// What consulting the location cache for a name can yield.
pub enum LocationLookup {
    /// The name is cached with a place: answer with it, no upstream call.
    Found(OpenWeatherMapLocation),
    /// The name is cached as resolving to nothing: fail now, no upstream
    /// call.
    NotFound(ApplicationError),
    /// The cache knows nothing about the name: the geocoder must be asked.
    Unknown,
}

/// The map of the location cache.
pub type LocationCacheModel = Map<Seq<char>, EntryModel<Option<ResolvedLocationView>>>;

/// Consults the location cache for `location` at instant `now`: a fresh
/// positive entry yields the place, a fresh negative entry yields a
/// not-found error, and anything else defers to the geocoder. An expired
/// entry is removed on the way.
pub fn lookup_location(
    location: &String,
    loc_cache: &mut Cache<Option<OpenWeatherMapLocation>>,
    now: u64,
) -> (r: LocationLookup)
    requires
        old(loc_cache).wf(),
    ensures
        final(loc_cache).wf(),
        final(loc_cache).contents() == evict(old(loc_cache).contents(), location@, now),
        match r {
            LocationLookup::Found(loc) => lookup(old(loc_cache).contents(), location@, now)
                == Some(Some(loc.deep_view())),
            LocationLookup::NotFound(e) => lookup(old(loc_cache).contents(), location@, now)
                == Some(None::<ResolvedLocationView>) && e.message@ == "Not found in cache"@
                && e.status_code == 404,
            LocationLookup::Unknown => lookup(old(loc_cache).contents(), location@, now) == None::<
                Option<ResolvedLocationView>,
            >,
        },
{
    match loc_cache.get(location, now) {
        Some(Some(loc)) => LocationLookup::Found(loc),
        Some(None) => LocationLookup::NotFound(ApplicationError::new("Not found in cache", 404)),
        None => LocationLookup::Unknown,
    }
}

/// The candidate a geocoder answer settles on: its first entry, or nothing
/// when the answer is absent or empty.
pub open spec fn chosen_location(fetched: Option<Seq<ResolvedLocationView>>) -> Option<
    ResolvedLocationView,
> {
    match fetched {
        Some(candidates) => if candidates.len() > 0 {
            Some(candidates[0])
        } else {
            None
        },
        None => None,
    }
}

/// Writes a geocoder answer for `location` into the cache with the shared
/// TTL — the first candidate when there is one, the negative marker when the
/// answer was empty or the call failed — and hands back what was stored.
pub fn populate_location_cache(
    location: &String,
    locations: Option<Vec<OpenWeatherMapLocation>>,
    loc_cache: &mut Cache<Option<OpenWeatherMapLocation>>,
    now: u64,
) -> (r: Option<OpenWeatherMapLocation>)
    requires
        old(loc_cache).wf(),
        now + CACHE_TTL_SECONDS <= u64::MAX,
    ensures
        final(loc_cache).wf(),
        r.deep_view() == chosen_location(locations.deep_view()),
        final(loc_cache).contents() == store(
            old(loc_cache).contents(),
            location@,
            chosen_location(locations.deep_view()),
            (now + CACHE_TTL_SECONDS) as u64,
        ),
{
    let expires_at = now + CACHE_TTL_SECONDS;
    match locations {
        Some(locs) => {
            if locs.len() > 0 {
                let loc = locs[0].dup();
                loc_cache.set(location, Some(loc.dup()), expires_at);
                Some(loc)
            } else {
                loc_cache.set(location, None, expires_at);
                None
            }
        },
        None => {
            loc_cache.set(location, None, expires_at);
            None
        },
    }
}

/// Folds the geocoder's answer into the cache and finishes the lookup: the
/// first candidate succeeds, anything else is a not-found failure. Either
/// way the answer is cached, absences included.
pub fn finish_lookup_location(
    location: &String,
    locations: Option<Vec<OpenWeatherMapLocation>>,
    loc_cache: &mut Cache<Option<OpenWeatherMapLocation>>,
    now: u64,
) -> (r: Result<OpenWeatherMapLocation, ApplicationError>)
    requires
        old(loc_cache).wf(),
        now + CACHE_TTL_SECONDS <= u64::MAX,
    ensures
        final(loc_cache).wf(),
        final(loc_cache).contents() == store(
            old(loc_cache).contents(),
            location@,
            chosen_location(locations.deep_view()),
            (now + CACHE_TTL_SECONDS) as u64,
        ),
        match r {
            Ok(loc) => chosen_location(locations.deep_view()) == Some(loc.deep_view()),
            Err(e) => chosen_location(locations.deep_view()) is None && e.message@
                == "Location not found"@ && e.status_code == 404,
        },
{
    match populate_location_cache(location, locations, loc_cache, now) {
        Some(loc) => Ok(loc),
        None => Err(ApplicationError::new("Location not found", 404)),
    }
}

/// What one step of resolving a location query yields.
pub enum FindLocationStep {
    /// The query named coordinates, or a cached place: here they are.
    Resolved(Coordinates),
    /// The query named a place that is cached as resolving to nothing.
    NotFound(ApplicationError),
    /// The query's coordinate text does not parse; request-fatal, never
    /// cached.
    Invalid(LocationError),
    /// The named place must be geocoded; feed the answer to
    /// [`finish_lookup_location`].
    NeedGeocode(String),
}

/// Resolves a location query as far as the cache allows: explicit
/// coordinates are parsed (latitude first), place names are answered from
/// the cache or handed back for geocoding.
pub fn find_location(
    query: &LocationQuery,
    loc_cache: &mut Cache<Option<OpenWeatherMapLocation>>,
    now: u64,
) -> (r: FindLocationStep)
    requires
        old(loc_cache).wf(),
    ensures
        final(loc_cache).wf(),
        match query {
            LocationQuery::Coordinates(cs) => {
                &&& final(loc_cache).contents() == old(loc_cache).contents()
                &&& match r {
                    FindLocationStep::Resolved(c) => crate::decimal::decimal_micro(cs.lat@)
                        == Some(c.lat as int) && crate::decimal::decimal_micro(cs.lon@) == Some(
                        c.lon as int,
                    ),
                    FindLocationStep::Invalid(_) => crate::decimal::decimal_micro(cs.lat@) is None
                        || crate::decimal::decimal_micro(cs.lon@) is None,
                    _ => false,
                }
            },
            LocationQuery::Location(city) => {
                &&& final(loc_cache).contents() == evict(
                    old(loc_cache).contents(),
                    city.location@,
                    now,
                )
                &&& match r {
                    FindLocationStep::Resolved(c) => match lookup(
                        old(loc_cache).contents(),
                        city.location@,
                        now,
                    ) {
                        Some(Some(loc)) => loc.location == c,
                        _ => false,
                    },
                    FindLocationStep::NotFound(e) => lookup(
                        old(loc_cache).contents(),
                        city.location@,
                        now,
                    ) == Some(None::<ResolvedLocationView>) && e.status_code == 404,
                    FindLocationStep::NeedGeocode(name) => name@ == city.location@ && lookup(
                        old(loc_cache).contents(),
                        city.location@,
                        now,
                    ) == None::<Option<ResolvedLocationView>>,
                    FindLocationStep::Invalid(_) => false,
                }
            },
        },
{
    match query {
        LocationQuery::Location(city) => match lookup_location(&city.location, loc_cache, now) {
            LocationLookup::Found(loc) => FindLocationStep::Resolved(loc.location),
            LocationLookup::NotFound(e) => FindLocationStep::NotFound(e),
            LocationLookup::Unknown => FindLocationStep::NeedGeocode(city.location.clone()),
        },
        LocationQuery::Coordinates(cs) => match Coordinates::try_from_strings(cs) {
            Ok(c) => FindLocationStep::Resolved(c),
            Err(e) => FindLocationStep::Invalid(e),
        },
    }
}

/// Negative caching suppresses the re-query: once a failed resolution for a
/// name is stored at `now`, any lookup of that name before the entry's
/// expiry finds the cached absence — the case [`lookup_location`] answers
/// with a not-found error and no geocoder call.
pub proof fn lemma_negative_caching(
    m: LocationCacheModel,
    name: Seq<char>,
    now: u64,
    later: u64,
)
    requires
        now + CACHE_TTL_SECONDS <= u64::MAX,
        later <= now + CACHE_TTL_SECONDS,
    ensures
        lookup(
            store(m, name, None::<ResolvedLocationView>, (now + CACHE_TTL_SECONDS) as u64),
            name,
            later,
        ) == Some(None::<ResolvedLocationView>),
{
}

} // verus!
