//! The cache-aside location resolver, with the geocoder simulated by hand.

use nowcache::Cache;
use nowcache::Coordinates;
use nowcache::CoordinatesAsString;
use nowcache::City;
use nowcache::FindLocationStep;
use nowcache::LocationLookup;
use nowcache::LocationQuery;
use nowcache::OpenWeatherMapLocation;
use nowcache::find_location;
use nowcache::finish_lookup_location;
use nowcache::lookup_location;
use nowcache::populate_location_cache;

fn oslo() -> OpenWeatherMapLocation {
    OpenWeatherMapLocation::new(
        "Oslo".to_string(),
        Coordinates::new(59_912_730, 10_746_090),
        "NO".to_string(),
        None,
    )
}

#[test]
fn negative_caching_suppresses_requery() {
    let mut cache: Cache<Option<OpenWeatherMapLocation>> = Cache::new();
    let name = "Atlantis".to_string();
    let now: u64 = 1_000;
    let mut geocoder_calls: u32 = 0;

    // First resolution: the cache knows nothing, so the geocoder is asked —
    // and answers with nothing.
    match lookup_location(&name, &mut cache, now) {
        LocationLookup::Unknown => {
            geocoder_calls += 1;
            let r = populate_location_cache(&name, None, &mut cache, now);
            assert!(r.is_none());
        }
        _ => panic!("an unknown name must go to the geocoder"),
    }

    // Second resolution, within the TTL: answered from the cached absence,
    // with no further geocoder call.
    match lookup_location(&name, &mut cache, now + 100) {
        LocationLookup::NotFound(e) => {
            assert_eq!(e.message, "Not found in cache");
            assert_eq!(e.status_code, 404);
        }
        _ => panic!("the cached absence must answer the lookup"),
    }
    assert_eq!(geocoder_calls, 1);
}

#[test]
fn positive_resolution_is_cached() {
    let mut cache: Cache<Option<OpenWeatherMapLocation>> = Cache::new();
    let name = "Oslo".to_string();
    let now: u64 = 50;

    let stored = populate_location_cache(&name, Some(vec![oslo()]), &mut cache, now).unwrap();
    assert_eq!(stored.name, "Oslo");

    match lookup_location(&name, &mut cache, now + 299) {
        LocationLookup::Found(loc) => {
            assert_eq!(loc.name, "Oslo");
            assert_eq!(loc.location, Coordinates::new(59_912_730, 10_746_090));
            assert_eq!(loc.country, "NO");
        }
        _ => panic!("the cached place must answer the lookup"),
    }

    // Past the TTL the entry expires and the geocoder is needed again.
    match lookup_location(&name, &mut cache, now + 301) {
        LocationLookup::Unknown => {}
        _ => panic!("an expired entry must not answer the lookup"),
    }
}

#[test]
fn empty_candidate_list_counts_as_not_found() {
    let mut cache: Cache<Option<OpenWeatherMapLocation>> = Cache::new();
    let name = "Nowhere".to_string();
    let err = finish_lookup_location(&name, Some(vec![]), &mut cache, 0).unwrap_err();
    assert_eq!(err.message, "Location not found");
    assert_eq!(err.status_code, 404);
}

#[test]
fn first_candidate_wins() {
    let mut cache: Cache<Option<OpenWeatherMapLocation>> = Cache::new();
    let name = "Oslo".to_string();
    let second = OpenWeatherMapLocation::new(
        "Oslo Township".to_string(),
        Coordinates::new(44_000_000, -93_000_000),
        "US".to_string(),
        Some("Minnesota".to_string()),
    );
    let got = finish_lookup_location(&name, Some(vec![oslo(), second]), &mut cache, 0).unwrap();
    assert_eq!(got.name, "Oslo");
}

#[test]
fn find_location_parses_explicit_coordinates() {
    let mut cache: Cache<Option<OpenWeatherMapLocation>> = Cache::new();
    let query = LocationQuery::Coordinates(CoordinatesAsString {
        lat: "59.91273".to_string(),
        lon: "10.74609".to_string(),
    });
    match find_location(&query, &mut cache, 0) {
        FindLocationStep::Resolved(c) => {
            assert_eq!(c, Coordinates::new(59_912_730, 10_746_090))
        }
        _ => panic!("explicit coordinates must resolve directly"),
    }
}

#[test]
fn find_location_rejects_malformed_coordinates() {
    let mut cache: Cache<Option<OpenWeatherMapLocation>> = Cache::new();
    let query = LocationQuery::Coordinates(CoordinatesAsString {
        lat: "abc".to_string(),
        lon: "10.7".to_string(),
    });
    match find_location(&query, &mut cache, 0) {
        FindLocationStep::Invalid(e) => {
            assert_eq!(e.message, "Could not parse latitude: abc")
        }
        _ => panic!("malformed coordinates must fail the request"),
    }
}

#[test]
fn find_location_uses_cached_place() {
    let mut cache: Cache<Option<OpenWeatherMapLocation>> = Cache::new();
    let name = "Oslo".to_string();
    populate_location_cache(&name, Some(vec![oslo()]), &mut cache, 0).unwrap();
    let query = LocationQuery::Location(City { location: name });
    match find_location(&query, &mut cache, 100) {
        FindLocationStep::Resolved(c) => {
            assert_eq!(c, Coordinates::new(59_912_730, 10_746_090))
        }
        _ => panic!("a cached place must resolve without the geocoder"),
    }
}

#[test]
fn find_location_defers_unknown_place() {
    let mut cache: Cache<Option<OpenWeatherMapLocation>> = Cache::new();
    let query = LocationQuery::Location(City {
        location: "Bergen".to_string(),
    });
    match find_location(&query, &mut cache, 0) {
        FindLocationStep::NeedGeocode(name) => assert_eq!(name, "Bergen"),
        _ => panic!("an unknown place must be handed to the geocoder"),
    }
}

#[test]
fn test_lookup_location_not_found() {
    let mut loc_cache: Cache<Option<OpenWeatherMapLocation>> = Cache::new();
    let name = "Åkreham".to_string();
    let now: u64 = 0;

    // The geocoder knows no such place; the absence is cached.
    match lookup_location(&name, &mut loc_cache, now) {
        LocationLookup::Unknown => {
            assert!(populate_location_cache(&name, Some(vec![]), &mut loc_cache, now).is_none());
        }
        _ => panic!("an unknown name must go to the geocoder"),
    }

    // The cache now holds the negative marker for the name, and a repeated
    // lookup fails without consulting the geocoder again.
    match lookup_location(&name, &mut loc_cache, now + 1) {
        LocationLookup::NotFound(_) => {}
        _ => panic!("the cached absence must answer the lookup"),
    }
}
