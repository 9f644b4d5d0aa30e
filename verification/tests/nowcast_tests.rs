//! Nowcast facts: construction from extracted fields and the normalized
//! projection.

use nowcache::Coordinates;
use nowcache::MetNowcast;
use nowcache::MetNowcastFields;
use nowcache::Nowcast;
use nowcache::OpenWeatherNowcast;
use nowcache::SimpleNowcast;

fn trondheim_met_nowcast() -> MetNowcast {
    MetNowcast::from_fields(
        Some(Coordinates::new(63_430_800, 10_403_400)),
        Some("2023-08-14T18:16:07Z".to_string()),
        Some("cloudy".to_string()),
        MetNowcastFields {
            air_temperature: Some(17_700),
            relative_humidity: Some(80_500),
            precipitation_amount: Some(0),
            wind_speed: Some(2_700),
            wind_speed_gust: Some(6_100),
            wind_from_direction: Some(294_400),
        },
    )
    .unwrap()
}

fn trondheim_owm_nowcast() -> OpenWeatherNowcast {
    OpenWeatherNowcast {
        dt: 1692185222,
        name: "Trondheim".to_string(),
        country: "NO".to_string(),
        lon: 10_395_100,
        lat: 63_430_500,
        main: "Clouds".to_string(),
        desc: "overcast clouds".to_string(),
        clouds: 99,
        wind_speed: 890,
        wind_deg: 270,
        visibility: 10000,
        temp: 15_210,
        feels_like: 15_190,
        humidity: 92,
        pressure: 1014,
    }
}

#[test]
fn met_from_fields_values() {
    let met = trondheim_met_nowcast();
    assert_eq!(met.location.lat, 63_430_800);
    assert_eq!(met.location.lon, 10_403_400);
    // 2023-08-14T18:16:07Z as an epoch second.
    assert_eq!(met.time, 1692036967);
    assert_eq!(met.description, "cloudy");
    assert_eq!(met.air_temperature, 17_700);
    assert_eq!(met.relative_humidity, 80_500);
    assert_eq!(met.precipitation_rate, 0);
    assert_eq!(met.precipitation_amount, 0);
    assert_eq!(met.wind_speed, 2_700);
    assert_eq!(met.wind_speed_gust, 6_100);
    assert_eq!(met.wind_from_direction, 294_400);
}

fn zero_met_fields() -> MetNowcastFields {
    MetNowcastFields {
        air_temperature: Some(0),
        relative_humidity: Some(0),
        precipitation_amount: Some(0),
        wind_speed: Some(0),
        wind_speed_gust: Some(0),
        wind_from_direction: Some(0),
    }
}

#[test]
fn met_from_fields_rejects_bad_time() {
    let r = MetNowcast::from_fields(
        Some(Coordinates::new(0, 0)),
        Some("not a timestamp".to_string()),
        Some("cloudy".to_string()),
        zero_met_fields(),
    );
    assert_eq!(r.unwrap_err().message, "Failed to parse time");
}

#[test]
fn met_from_fields_rejects_missing_field() {
    let mut fields = zero_met_fields();
    fields.wind_speed_gust = None;
    let r = MetNowcast::from_fields(
        Some(Coordinates::new(0, 0)),
        Some("2023-08-14T18:16:07Z".to_string()),
        Some("cloudy".to_string()),
        fields,
    );
    assert_eq!(r.unwrap_err().message, "Could not find wind_speed_of_gust");

    let r = MetNowcast::from_fields(
        None,
        Some("2023-08-14T18:16:07Z".to_string()),
        Some("cloudy".to_string()),
        zero_met_fields(),
    );
    assert_eq!(r.unwrap_err().message, "Could not find location");
}

#[test]
fn owm_from_fields_reports_first_missing_field() {
    let fields = nowcache::OpenWeatherNowcastFields {
        dt: Some(1692185222),
        name: Some("Trondheim".to_string()),
        country: Some("NO".to_string()),
        lon: Some(10_395_100),
        lat: Some(63_430_500),
        main: Some("Clouds".to_string()),
        desc: None,
        clouds: None,
        wind_speed: Some(890),
        wind_deg: Some(270),
        visibility: Some(10000),
        temp: Some(15_210),
        feels_like: Some(15_190),
        humidity: Some(92),
        pressure: Some(1014),
    };
    let r = nowcache::OpenWeatherNowcast::from_fields(fields);
    assert_eq!(r.unwrap_err().message, "Could not find desc");
}

#[test]
fn simple_projection_from_met() {
    let simple = SimpleNowcast::from(trondheim_met_nowcast());
    assert_eq!(
        simple,
        SimpleNowcast {
            time: 1692036967,
            location: Coordinates::new(63_430_800, 10_403_400),
            temperature: 17_700,
            humidity: 80_500,
            wind_speed: 2_700,
            wind_dir: 294_400,
        }
    );
}

#[test]
fn simple_projection_from_openweathermap() {
    let simple = SimpleNowcast::from(trondheim_owm_nowcast());
    assert_eq!(
        simple,
        SimpleNowcast {
            time: 1692185222,
            location: Coordinates::new(63_430_500, 10_395_100),
            temperature: 15_210,
            // Whole percent and whole degrees scale to thousandths.
            humidity: 92_000,
            wind_speed: 890,
            wind_dir: 270_000,
        }
    );
}

#[test]
fn simplify_is_identity_on_simple() {
    let s = SimpleNowcast {
        time: 1,
        location: Coordinates::new(2, 3),
        temperature: 4,
        humidity: 5,
        wind_speed: 6,
        wind_dir: 7,
    };
    match Nowcast::Simple(s).simplify() {
        Nowcast::Simple(t) => assert_eq!(t, s),
        _ => panic!("simplify must yield the simple shape"),
    }
}

#[test]
fn simplify_projects_met() {
    match Nowcast::Met(trondheim_met_nowcast()).simplify() {
        Nowcast::Simple(t) => assert_eq!(t.temperature, 17_700),
        _ => panic!("simplify must yield the simple shape"),
    }
}
