//! Coordinates: construction, parsing and the key-string form.

use nowcache::City;
use nowcache::Coordinates;
use nowcache::CoordinatesAsString;

#[test]
fn test_location() {
    let location = Coordinates::new(1_000_000, 2_000_000);
    assert_eq!(location.lat, 1_000_000);
    assert_eq!(location.lon, 2_000_000);
}

#[test]
fn test_location_city() {
    let location_query = City {
        location: "Oslo".to_string(),
    };
    assert_eq!(location_query.location, "Oslo".to_string());
}

#[test]
fn parse_coordinates_oslo() {
    let cs = CoordinatesAsString {
        lat: "59.91273".to_string(),
        lon: "10.74609".to_string(),
    };
    let c = Coordinates::try_from_strings(&cs).unwrap();
    assert_eq!(c, Coordinates::new(59_912_730, 10_746_090));
}

#[test]
fn parse_coordinates_signs_and_shapes() {
    let ok = |lat: &str, lon: &str| {
        Coordinates::try_from_strings(&CoordinatesAsString {
            lat: lat.to_string(),
            lon: lon.to_string(),
        })
        .unwrap()
    };
    assert_eq!(ok("-0.5", "+2", ), Coordinates::new(-500_000, 2_000_000));
    assert_eq!(ok("7.", ".25"), Coordinates::new(7_000_000, 250_000));
    assert_eq!(ok("0", "180"), Coordinates::new(0, 180_000_000));
    // A seventh fractional digit carries no weight.
    assert_eq!(ok("1.2345678", "0"), Coordinates::new(1_234_567, 0));
}

#[test]
fn parse_coordinates_latitude_failure() {
    let cs = CoordinatesAsString {
        lat: "abc".to_string(),
        lon: "10.7".to_string(),
    };
    let err = Coordinates::try_from_strings(&cs).unwrap_err();
    assert_eq!(err.message, "Could not parse latitude: abc");
}

#[test]
fn parse_coordinates_longitude_failure() {
    let cs = CoordinatesAsString {
        lat: "10.7".to_string(),
        lon: "1.2.3".to_string(),
    };
    let err = Coordinates::try_from_strings(&cs).unwrap_err();
    assert_eq!(err.message, "Could not parse longitude: 1.2.3");
}

#[test]
fn parse_coordinates_rejects_empty_and_bare_signs() {
    for bad in ["", "-", "+", ".", "-."] {
        let cs = CoordinatesAsString {
            lat: bad.to_string(),
            lon: "1".to_string(),
        };
        assert!(Coordinates::try_from_strings(&cs).is_err());
    }
}

#[test]
fn coordinate_key_string() {
    let c = Coordinates::new(59_912_730, 10_746_090);
    assert_eq!(c.to_string(), "59.912730,10.746090");
    let d = Coordinates::new(-500_000, 2_000_000);
    assert_eq!(d.to_string(), "-0.500000,2.000000");
}

#[test]
fn u64_to_string_prints_decimal() {
    assert_eq!(nowcache::u64_to_string(0), "0");
    assert_eq!(nowcache::u64_to_string(10_746_090), "10746090");
}
