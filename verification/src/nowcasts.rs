//! Current-conditions ("nowcast") facts, one shape per provider, plus the
//! simplified projection every shape can be reduced to.
//!
//! Fractional quantities (temperatures, wind speeds, humidity and the like)
//! are carried in thousandths of their unit; instants are epoch seconds;
//! positions are micro-degree [`Coordinates`]. The upstream payloads arrive
//! as JSON outside this crate; what reaches these types is already plain
//! values, and every rule about them — construction, projection, equality of
//! views — is stated and checked here.

use vstd::prelude::*;

use crate::cache::CacheValue;
use crate::locations::Coordinates;
use crate::time::parse_rfc3339_seconds;
use crate::time::rfc3339_seconds;

verus! {

/// The error a nowcast provider's data can produce.
#[derive(Debug)]
pub struct NowcastError {
    pub message: String,
}

impl NowcastError {
    pub fn new(message: &str) -> (r: Self)
        ensures
            r.message@ == message@,
    {
        NowcastError { message: message.to_owned() }
    }
}

/// Mathematical image of a Met.no nowcast.
pub ghost struct MetNowcastView {
    pub location: Coordinates,
    pub time: i64,
    pub description: Seq<char>,
    pub air_temperature: i64,
    pub relative_humidity: i64,
    pub precipitation_rate: i64,
    pub precipitation_amount: i64,
    pub wind_speed: i64,
    pub wind_speed_gust: i64,
    pub wind_from_direction: i64,
}

/// A nowcast as Met.no reports it: the radar-derived conditions for the
/// coming hour at a position. Quantities are in thousandths; `time` is the
/// epoch second the data set was updated.
#[derive(Debug)]
pub struct MetNowcast {
    pub location: Coordinates,
    pub time: i64,
    pub description: String,
    pub air_temperature: i64,
    pub relative_humidity: i64,
    pub precipitation_rate: i64,
    pub precipitation_amount: i64,
    pub wind_speed: i64,
    pub wind_speed_gust: i64,
    pub wind_from_direction: i64,
}

impl View for MetNowcast {
    type V = MetNowcastView;

    open spec fn view(&self) -> MetNowcastView {
        MetNowcastView {
            location: self.location,
            time: self.time,
            description: self.description@,
            air_temperature: self.air_temperature,
            relative_humidity: self.relative_humidity,
            precipitation_rate: self.precipitation_rate,
            precipitation_amount: self.precipitation_amount,
            wind_speed: self.wind_speed,
            wind_speed_gust: self.wind_speed_gust,
            wind_from_direction: self.wind_from_direction,
        }
    }
}

impl DeepView for MetNowcast {
    type V = MetNowcastView;

    open spec fn deep_view(&self) -> MetNowcastView {
        self.view()
    }
}

impl CacheValue for MetNowcast {
    fn dup(&self) -> (r: Self)
        ensures
            r.deep_view() == self.deep_view(),
    {
        MetNowcast {
            location: self.location,
            time: self.time,
            description: self.description.clone(),
            air_temperature: self.air_temperature,
            relative_humidity: self.relative_humidity,
            precipitation_rate: self.precipitation_rate,
            precipitation_amount: self.precipitation_amount,
            wind_speed: self.wind_speed,
            wind_speed_gust: self.wind_speed_gust,
            wind_from_direction: self.wind_from_direction,
        }
    }
}

/// The numeric fields of a Met.no nowcast, each as the payload delivered it
/// (or absent), in thousandths of its unit. The precipitation rate repeats
/// the hourly amount, as the upstream data does.
#[derive(Debug)]
pub struct MetNowcastFields {
    pub air_temperature: Option<i64>,
    pub relative_humidity: Option<i64>,
    pub precipitation_amount: Option<i64>,
    pub wind_speed: Option<i64>,
    pub wind_speed_gust: Option<i64>,
    pub wind_from_direction: Option<i64>,
}

/// The message for the first rule a Met.no payload's raw fields break,
/// checked in payload order — each field must be present, and the update
/// instant must parse — or nothing when every rule holds.
pub open spec fn met_field_failure(
    location: Option<Coordinates>,
    time: Option<Seq<char>>,
    description: Option<Seq<char>>,
    fields: MetNowcastFields,
) -> Option<Seq<char>> {
    if location is None {
        Some("Could not find location"@)
    } else if time is None {
        Some("Could not find time"@)
    } else if description is None {
        Some("Could not find description"@)
    } else if fields.air_temperature is None {
        Some("Could not find air_temperature"@)
    } else if fields.relative_humidity is None {
        Some("Could not find relative_humidity"@)
    } else if fields.precipitation_amount is None {
        Some("Could not find precipitation_amount"@)
    } else if fields.wind_speed is None {
        Some("Could not find wind_speed"@)
    } else if fields.wind_speed_gust is None {
        Some("Could not find wind_speed_of_gust"@)
    } else if fields.wind_from_direction is None {
        Some("Could not find wind_from_direction"@)
    } else if rfc3339_seconds(time.unwrap()) is None {
        Some("Failed to parse time"@)
    } else {
        None
    }
}

impl MetNowcast {
    /// Builds the fact from the payload's raw fields. The fields are checked
    /// in payload order and the first broken rule decides the error, as
    /// `met_field_failure` states; the update instant is parsed last.
    pub fn from_fields(
        location: Option<Coordinates>,
        time: Option<String>,
        description: Option<String>,
        fields: MetNowcastFields,
    ) -> (r: Result<MetNowcast, NowcastError>)
        ensures
            r is Ok <==> met_field_failure(
                location,
                time.deep_view(),
                description.deep_view(),
                fields,
            ) is None,
            r matches Err(e) ==> Some(e.message@) == met_field_failure(
                location,
                time.deep_view(),
                description.deep_view(),
                fields,
            ),
            r matches Ok(m) ==> {
                &&& time matches Some(t) && Some(m@.time) == rfc3339_seconds(t@)
                &&& description matches Some(d) && m@ == (MetNowcastView {
                    location: location.unwrap(),
                    time: m@.time,
                    description: d@,
                    air_temperature: fields.air_temperature.unwrap(),
                    relative_humidity: fields.relative_humidity.unwrap(),
                    precipitation_rate: fields.precipitation_amount.unwrap(),
                    precipitation_amount: fields.precipitation_amount.unwrap(),
                    wind_speed: fields.wind_speed.unwrap(),
                    wind_speed_gust: fields.wind_speed_gust.unwrap(),
                    wind_from_direction: fields.wind_from_direction.unwrap(),
                })
            },
    {
        let location = match location {
            Some(l) => l,
            None => {
                return Err(NowcastError::new("Could not find location"));
            },
        };
        let time = match time {
            Some(t) => t,
            None => {
                return Err(NowcastError::new("Could not find time"));
            },
        };
        let description = match description {
            Some(d) => d,
            None => {
                return Err(NowcastError::new("Could not find description"));
            },
        };
        let air_temperature = match fields.air_temperature {
            Some(v) => v,
            None => {
                return Err(NowcastError::new("Could not find air_temperature"));
            },
        };
        let relative_humidity = match fields.relative_humidity {
            Some(v) => v,
            None => {
                return Err(NowcastError::new("Could not find relative_humidity"));
            },
        };
        let precipitation_amount = match fields.precipitation_amount {
            Some(v) => v,
            None => {
                return Err(NowcastError::new("Could not find precipitation_amount"));
            },
        };
        let wind_speed = match fields.wind_speed {
            Some(v) => v,
            None => {
                return Err(NowcastError::new("Could not find wind_speed"));
            },
        };
        let wind_speed_gust = match fields.wind_speed_gust {
            Some(v) => v,
            None => {
                return Err(NowcastError::new("Could not find wind_speed_of_gust"));
            },
        };
        let wind_from_direction = match fields.wind_from_direction {
            Some(v) => v,
            None => {
                return Err(NowcastError::new("Could not find wind_from_direction"));
            },
        };
        let t = match parse_rfc3339_seconds(time.as_str()) {
            Some(t) => t,
            None => {
                return Err(NowcastError::new("Failed to parse time"));
            },
        };
        Ok(
            MetNowcast {
                location,
                time: t,
                description,
                air_temperature,
                relative_humidity,
                precipitation_rate: precipitation_amount,
                precipitation_amount,
                wind_speed,
                wind_speed_gust,
                wind_from_direction,
            },
        )
    }
}

/// Mathematical image of an OpenWeatherMap nowcast.
pub ghost struct OpenWeatherNowcastView {
    pub dt: i64,
    pub name: Seq<char>,
    pub country: Seq<char>,
    pub lon: i64,
    pub lat: i64,
    pub main: Seq<char>,
    pub desc: Seq<char>,
    pub clouds: u32,
    pub wind_speed: i64,
    pub wind_deg: i32,
    pub visibility: i32,
    pub temp: i64,
    pub feels_like: i64,
    pub humidity: u32,
    pub pressure: u32,
}

/// A nowcast as OpenWeatherMap reports it: station-derived conditions for a
/// named place. `dt` is the epoch second of the observation; `lat`/`lon` are
/// micro-degrees; fractional quantities are in thousandths.
#[derive(Debug)]
pub struct OpenWeatherNowcast {
    pub dt: i64,
    pub name: String,
    pub country: String,
    pub lon: i64,
    pub lat: i64,
    pub main: String,
    pub desc: String,
    pub clouds: u32,
    pub wind_speed: i64,
    pub wind_deg: i32,
    pub visibility: i32,
    pub temp: i64,
    pub feels_like: i64,
    pub humidity: u32,
    pub pressure: u32,
}

impl View for OpenWeatherNowcast {
    type V = OpenWeatherNowcastView;

    open spec fn view(&self) -> OpenWeatherNowcastView {
        OpenWeatherNowcastView {
            dt: self.dt,
            name: self.name@,
            country: self.country@,
            lon: self.lon,
            lat: self.lat,
            main: self.main@,
            desc: self.desc@,
            clouds: self.clouds,
            wind_speed: self.wind_speed,
            wind_deg: self.wind_deg,
            visibility: self.visibility,
            temp: self.temp,
            feels_like: self.feels_like,
            humidity: self.humidity,
            pressure: self.pressure,
        }
    }
}

impl DeepView for OpenWeatherNowcast {
    type V = OpenWeatherNowcastView;

    open spec fn deep_view(&self) -> OpenWeatherNowcastView {
        self.view()
    }
}

impl CacheValue for OpenWeatherNowcast {
    fn dup(&self) -> (r: Self)
        ensures
            r.deep_view() == self.deep_view(),
    {
        OpenWeatherNowcast {
            dt: self.dt,
            name: self.name.clone(),
            country: self.country.clone(),
            lon: self.lon,
            lat: self.lat,
            main: self.main.clone(),
            desc: self.desc.clone(),
            clouds: self.clouds,
            wind_speed: self.wind_speed,
            wind_deg: self.wind_deg,
            visibility: self.visibility,
            temp: self.temp,
            feels_like: self.feels_like,
            humidity: self.humidity,
            pressure: self.pressure,
        }
    }
}

/// The raw fields of an OpenWeatherMap observation, each as the payload
/// delivered it (or absent): positions in micro-degrees, fractional
/// quantities in thousandths, the instant an epoch second.
#[derive(Debug)]
pub struct OpenWeatherNowcastFields {
    pub dt: Option<i64>,
    pub name: Option<String>,
    pub country: Option<String>,
    pub lon: Option<i64>,
    pub lat: Option<i64>,
    pub main: Option<String>,
    pub desc: Option<String>,
    pub clouds: Option<u32>,
    pub wind_speed: Option<i64>,
    pub wind_deg: Option<i32>,
    pub visibility: Option<i32>,
    pub temp: Option<i64>,
    pub feels_like: Option<i64>,
    pub humidity: Option<u32>,
    pub pressure: Option<u32>,
}

/// The message for the first absent field of an OpenWeatherMap payload,
/// checked in payload order, or nothing when every field is present.
pub open spec fn owm_field_failure(fields: OpenWeatherNowcastFields) -> Option<Seq<char>> {
    if fields.dt is None {
        Some("Could not find dt"@)
    } else if fields.name is None {
        Some("Could not find name"@)
    } else if fields.country is None {
        Some("Could not find country"@)
    } else if fields.lon is None {
        Some("Could not find lon"@)
    } else if fields.lat is None {
        Some("Could not find lat"@)
    } else if fields.main is None {
        Some("Could not find main"@)
    } else if fields.desc is None {
        Some("Could not find desc"@)
    } else if fields.clouds is None {
        Some("Could not find clouds"@)
    } else if fields.wind_speed is None {
        Some("Could not find wind_speed"@)
    } else if fields.wind_deg is None {
        Some("Could not find wind_deg"@)
    } else if fields.visibility is None {
        Some("Could not find visibility"@)
    } else if fields.temp is None {
        Some("Could not find temp"@)
    } else if fields.feels_like is None {
        Some("Could not find feels_like"@)
    } else if fields.humidity is None {
        Some("Could not find humidity"@)
    } else if fields.pressure is None {
        Some("Could not find pressure"@)
    } else {
        None
    }
}

impl OpenWeatherNowcast {
    /// Builds the fact from the payload's raw fields. The fields are checked
    /// in payload order and the first absent one decides the error, as
    /// `owm_field_failure` states.
    pub fn from_fields(fields: OpenWeatherNowcastFields) -> (r: Result<
        OpenWeatherNowcast,
        NowcastError,
    >)
        ensures
            r is Ok <==> owm_field_failure(fields) is None,
            r matches Err(e) ==> Some(e.message@) == owm_field_failure(fields),
            r matches Ok(o) ==> {
                &&& fields.name matches Some(n) && o@.name == n@
                &&& fields.country matches Some(c) && o@.country == c@
                &&& fields.main matches Some(m) && o@.main == m@
                &&& fields.desc matches Some(d) && o@.desc == d@
                &&& o@.dt == fields.dt.unwrap()
                &&& o@.lon == fields.lon.unwrap()
                &&& o@.lat == fields.lat.unwrap()
                &&& o@.clouds == fields.clouds.unwrap()
                &&& o@.wind_speed == fields.wind_speed.unwrap()
                &&& o@.wind_deg == fields.wind_deg.unwrap()
                &&& o@.visibility == fields.visibility.unwrap()
                &&& o@.temp == fields.temp.unwrap()
                &&& o@.feels_like == fields.feels_like.unwrap()
                &&& o@.humidity == fields.humidity.unwrap()
                &&& o@.pressure == fields.pressure.unwrap()
            },
    {
        let dt = match fields.dt {
            Some(v) => v,
            None => {
                return Err(NowcastError::new("Could not find dt"));
            },
        };
        let name = match fields.name {
            Some(v) => v,
            None => {
                return Err(NowcastError::new("Could not find name"));
            },
        };
        let country = match fields.country {
            Some(v) => v,
            None => {
                return Err(NowcastError::new("Could not find country"));
            },
        };
        let lon = match fields.lon {
            Some(v) => v,
            None => {
                return Err(NowcastError::new("Could not find lon"));
            },
        };
        let lat = match fields.lat {
            Some(v) => v,
            None => {
                return Err(NowcastError::new("Could not find lat"));
            },
        };
        let main = match fields.main {
            Some(v) => v,
            None => {
                return Err(NowcastError::new("Could not find main"));
            },
        };
        let desc = match fields.desc {
            Some(v) => v,
            None => {
                return Err(NowcastError::new("Could not find desc"));
            },
        };
        let clouds = match fields.clouds {
            Some(v) => v,
            None => {
                return Err(NowcastError::new("Could not find clouds"));
            },
        };
        let wind_speed = match fields.wind_speed {
            Some(v) => v,
            None => {
                return Err(NowcastError::new("Could not find wind_speed"));
            },
        };
        let wind_deg = match fields.wind_deg {
            Some(v) => v,
            None => {
                return Err(NowcastError::new("Could not find wind_deg"));
            },
        };
        let visibility = match fields.visibility {
            Some(v) => v,
            None => {
                return Err(NowcastError::new("Could not find visibility"));
            },
        };
        let temp = match fields.temp {
            Some(v) => v,
            None => {
                return Err(NowcastError::new("Could not find temp"));
            },
        };
        let feels_like = match fields.feels_like {
            Some(v) => v,
            None => {
                return Err(NowcastError::new("Could not find feels_like"));
            },
        };
        let humidity = match fields.humidity {
            Some(v) => v,
            None => {
                return Err(NowcastError::new("Could not find humidity"));
            },
        };
        let pressure = match fields.pressure {
            Some(v) => v,
            None => {
                return Err(NowcastError::new("Could not find pressure"));
            },
        };
        Ok(
            OpenWeatherNowcast {
                dt,
                name,
                country,
                lon,
                lat,
                main,
                desc,
                clouds,
                wind_speed,
                wind_deg,
                visibility,
                temp,
                feels_like,
                humidity,
                pressure,
            },
        )
    }
}

/// The provider-independent projection of a nowcast: the shared normalized
/// fields every provider shape can supply. Quantities in thousandths;
/// `time` an epoch second.
#[derive(Clone, Copy, PartialEq, Eq, Structural, Debug)]
pub struct SimpleNowcast {
    pub time: i64,
    pub location: Coordinates,
    pub temperature: i64,
    pub humidity: i64,
    pub wind_speed: i64,
    pub wind_dir: i64,
}

impl View for SimpleNowcast {
    type V = SimpleNowcast;

    open spec fn view(&self) -> SimpleNowcast {
        *self
    }
}

impl DeepView for SimpleNowcast {
    type V = SimpleNowcast;

    open spec fn deep_view(&self) -> SimpleNowcast {
        *self
    }
}

impl CacheValue for SimpleNowcast {
    fn dup(&self) -> (r: Self)
        ensures
            r.deep_view() == self.deep_view(),
    {
        *self
    }
}

impl From<MetNowcast> for SimpleNowcast {
    /// The normalized projection of a Met.no nowcast.
    fn from(value: MetNowcast) -> (r: Self) {
        SimpleNowcast {
            time: value.time,
            location: value.location,
            temperature: value.air_temperature,
            humidity: value.relative_humidity,
            wind_speed: value.wind_speed,
            wind_dir: value.wind_from_direction,
        }
    }
}

impl vstd::std_specs::convert::FromSpecImpl<MetNowcast> for SimpleNowcast {
    open spec fn obeys_from_spec() -> bool {
        true
    }

    open spec fn from_spec(value: MetNowcast) -> Self {
        SimpleNowcast {
            time: value.time,
            location: value.location,
            temperature: value.air_temperature,
            humidity: value.relative_humidity,
            wind_speed: value.wind_speed,
            wind_dir: value.wind_from_direction,
        }
    }
}

impl From<OpenWeatherNowcast> for SimpleNowcast {
    /// The normalized projection of an OpenWeatherMap nowcast: integral
    /// percent humidity and whole wind degrees are scaled to thousandths.
    fn from(value: OpenWeatherNowcast) -> (r: Self) {
        SimpleNowcast {
            time: value.dt,
            location: Coordinates { lat: value.lat, lon: value.lon },
            temperature: value.temp,
            humidity: (value.humidity as i64) * 1000,
            wind_speed: value.wind_speed,
            wind_dir: (value.wind_deg as i64) * 1000,
        }
    }
}

impl vstd::std_specs::convert::FromSpecImpl<OpenWeatherNowcast> for SimpleNowcast {
    open spec fn obeys_from_spec() -> bool {
        true
    }

    open spec fn from_spec(value: OpenWeatherNowcast) -> Self {
        SimpleNowcast {
            time: value.dt,
            location: Coordinates { lat: value.lat, lon: value.lon },
            temperature: value.temp,
            humidity: ((value.humidity as int) * 1000) as i64,
            wind_speed: value.wind_speed,
            wind_dir: ((value.wind_deg as int) * 1000) as i64,
        }
    }
}

/// Mathematical image of a nowcast fact.
pub ghost enum NowcastView {
    Met(MetNowcastView),
    OpenWeather(OpenWeatherNowcastView),
    Simple(SimpleNowcast),
}

/// A nowcast fact: one of the provider-specific shapes, or the simplified
/// projection.
#[derive(Debug)]
pub enum Nowcast {
    Met(MetNowcast),
    OpenWeather(OpenWeatherNowcast),
    Simple(SimpleNowcast),
}

impl View for Nowcast {
    type V = NowcastView;

    open spec fn view(&self) -> NowcastView {
        match self {
            Nowcast::Met(m) => NowcastView::Met(m@),
            Nowcast::OpenWeather(o) => NowcastView::OpenWeather(o@),
            Nowcast::Simple(s) => NowcastView::Simple(*s),
        }
    }
}

impl DeepView for Nowcast {
    type V = NowcastView;

    open spec fn deep_view(&self) -> NowcastView {
        self.view()
    }
}

impl CacheValue for Nowcast {
    fn dup(&self) -> (r: Self)
        ensures
            r.deep_view() == self.deep_view(),
    {
        match self {
            Nowcast::Met(m) => Nowcast::Met(m.dup()),
            Nowcast::OpenWeather(o) => Nowcast::OpenWeather(o.dup()),
            Nowcast::Simple(s) => Nowcast::Simple(*s),
        }
    }
}

impl From<MetNowcast> for Nowcast {
    fn from(met: MetNowcast) -> (r: Self) {
        Nowcast::Met(met)
    }
}

impl vstd::std_specs::convert::FromSpecImpl<MetNowcast> for Nowcast {
    open spec fn obeys_from_spec() -> bool {
        true
    }

    open spec fn from_spec(met: MetNowcast) -> Self {
        Nowcast::Met(met)
    }
}

impl From<OpenWeatherNowcast> for Nowcast {
    fn from(open_weather: OpenWeatherNowcast) -> (r: Self) {
        Nowcast::OpenWeather(open_weather)
    }
}

impl vstd::std_specs::convert::FromSpecImpl<OpenWeatherNowcast> for Nowcast {
    open spec fn obeys_from_spec() -> bool {
        true
    }

    open spec fn from_spec(open_weather: OpenWeatherNowcast) -> Self {
        Nowcast::OpenWeather(open_weather)
    }
}

/// The simplified view of a fact's view, for stating what `simplify` does.
pub open spec fn spec_simplify(v: NowcastView) -> SimpleNowcast {
    match v {
        NowcastView::Met(m) => SimpleNowcast {
            time: m.time,
            location: m.location,
            temperature: m.air_temperature,
            humidity: m.relative_humidity,
            wind_speed: m.wind_speed,
            wind_dir: m.wind_from_direction,
        },
        NowcastView::OpenWeather(o) => SimpleNowcast {
            time: o.dt,
            location: Coordinates { lat: o.lat, lon: o.lon },
            temperature: o.temp,
            humidity: ((o.humidity as int) * 1000) as i64,
            wind_speed: o.wind_speed,
            wind_dir: ((o.wind_deg as int) * 1000) as i64,
        },
        NowcastView::Simple(s) => s,
    }
}

impl Nowcast {
    /// Reduces any fact to its normalized projection; an already simplified
    /// fact passes through unchanged.
    pub fn simplify(self) -> (r: Nowcast)
        ensures
            r@ == NowcastView::Simple(spec_simplify(self@)),
    {
        match self {
            Nowcast::Met(m) => Nowcast::Simple(SimpleNowcast::from(m)),
            Nowcast::OpenWeather(o) => Nowcast::Simple(SimpleNowcast::from(o)),
            Nowcast::Simple(s) => Nowcast::Simple(s),
        }
    }
}

} // verus!
