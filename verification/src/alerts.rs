//! Severe-weather alerts as the Met.no alert feed reports them.
//!
//! The feed is a JSON document whose `features` array holds one object per
//! alert. The rules of the decoding — which severity codes are admitted,
//! which fields must be present, in what order a malformed object is
//! rejected — are verified in [`MetAlert::from_fields`];
//! [`MetAlert::from_value`] reads the fields out of the JSON tree through
//! the declared serde_json accessors and applies them.

use vstd::prelude::*;

use crate::cache::CacheValue;
use crate::json::json_as_str;
use crate::json::json_get;
use crate::json::json_get_index;
use crate::time::parse_rfc3339_seconds;
use crate::time::rfc3339_seconds;

verus! {

/// The weight of an alert.
#[derive(Clone, Copy, PartialEq, Eq, Structural, Debug)]
pub enum Severity {
    /// The alert is for a moderate event.
    Yellow,
    /// The alert is for a severe event.
    Orange,
    /// The alert is for an extreme event.
    Red,
}

/// The error an alert payload can produce.
#[derive(Debug)]
pub struct AlertError {
    pub message: String,
}

impl AlertError {
    pub fn new(message: &str) -> (r: Self)
        ensures
            r.message@ == message@,
    {
        AlertError { message: message.to_owned() }
    }
}

/// The validity interval of an alert, in epoch seconds.
#[derive(Clone, Copy, PartialEq, Eq, Structural, Debug)]
pub struct TimeDuration {
    pub from: i64,
    pub until: i64,
}

/// Mathematical image of a Met.no alert.
pub ghost struct MetAlertView {
    pub title: Seq<char>,
    pub severity: Severity,
    pub description: Seq<char>,
    pub certainty: Seq<char>,
    pub event: Seq<char>,
    pub duration: TimeDuration,
}

/// One alert from the Met.no feed.
#[derive(Debug)]
pub struct MetAlert {
    pub title: String,
    pub severity: Severity,
    pub description: String,
    pub certainty: String,
    pub event: String,
    pub duration: TimeDuration,
}

impl View for MetAlert {
    type V = MetAlertView;

    open spec fn view(&self) -> MetAlertView {
        MetAlertView {
            title: self.title@,
            severity: self.severity,
            description: self.description@,
            certainty: self.certainty@,
            event: self.event@,
            duration: self.duration,
        }
    }
}

impl DeepView for MetAlert {
    type V = MetAlertView;

    open spec fn deep_view(&self) -> MetAlertView {
        self.view()
    }
}

impl CacheValue for MetAlert {
    fn dup(&self) -> (r: Self)
        ensures
            r.deep_view() == self.deep_view(),
    {
        MetAlert {
            title: self.title.clone(),
            severity: self.severity,
            description: self.description.clone(),
            certainty: self.certainty.clone(),
            event: self.event.clone(),
            duration: self.duration,
        }
    }
}

/// Mathematical image of an alert.
pub ghost enum AlertView {
    Met(MetAlertView),
    Nve,
}

/// An alert and its origin.
#[derive(Debug)]
pub enum Alert {
    /// The alert was issued by the National Weather Service.
    Met(MetAlert),
    /// The alert was issued by a local authority, typically a county.
    Nve,
}

/// The alert lists the cache holds and the handlers return.
pub type Alerts = Vec<Alert>;

impl View for Alert {
    type V = AlertView;

    open spec fn view(&self) -> AlertView {
        match self {
            Alert::Met(m) => AlertView::Met(m@),
            Alert::Nve => AlertView::Nve,
        }
    }
}

impl DeepView for Alert {
    type V = AlertView;

    open spec fn deep_view(&self) -> AlertView {
        self.view()
    }
}

impl CacheValue for Alert {
    fn dup(&self) -> (r: Self)
        ensures
            r.deep_view() == self.deep_view(),
    {
        match self {
            Alert::Met(m) => Alert::Met(m.dup()),
            Alert::Nve => Alert::Nve,
        }
    }
}

impl From<MetAlert> for Alert {
    fn from(met: MetAlert) -> (r: Self) {
        Alert::Met(met)
    }
}

impl vstd::std_specs::convert::FromSpecImpl<MetAlert> for Alert {
    open spec fn obeys_from_spec() -> bool {
        true
    }

    open spec fn from_spec(met: MetAlert) -> Self {
        Alert::Met(met)
    }
}

/// The severity a feed code denotes: exactly three codes are admitted.
pub open spec fn spec_severity(s: Seq<char>) -> Option<Severity> {
    if s == "Moderate"@ {
        Some(Severity::Yellow)
    } else if s == "Severe"@ {
        Some(Severity::Orange)
    } else if s == "Extreme"@ {
        Some(Severity::Red)
    } else {
        None
    }
}

/// The message for the first rule an alert's raw fields break, checked in
/// feed order, or nothing when every rule holds.
pub open spec fn alert_field_failure(
    severity: Option<Seq<char>>,
    title: Option<Seq<char>>,
    description: Option<Seq<char>>,
    certainty: Option<Seq<char>>,
    event: Option<Seq<char>>,
    from: Option<Seq<char>>,
    until: Option<Seq<char>>,
) -> Option<Seq<char>> {
    if match severity {
        Some(s) => spec_severity(s) is None,
        None => true,
    } {
        Some("invalid severity"@)
    } else if title is None {
        Some("Failed to parse title"@)
    } else if description is None {
        Some("Failed to parse description"@)
    } else if certainty is None {
        Some("Failed to parse certainty"@)
    } else if event is None {
        Some("Failed to parse event"@)
    } else if match from {
        Some(f) => rfc3339_seconds(f) is None,
        None => true,
    } {
        Some("Failed to parse from"@)
    } else if match until {
        Some(u) => rfc3339_seconds(u) is None,
        None => true,
    } {
        Some("Failed to parse until"@)
    } else {
        None
    }
}

fn str_eq_lit(a: &String, b: &str) -> (r: bool)
    ensures
        r == (a@ == b@),
{
    let bo = b.to_owned();
    a.eq(&bo)
}

fn parse_severity(s: &String) -> (r: Option<Severity>)
    ensures
        r == spec_severity(s@),
{
    if str_eq_lit(s, "Moderate") {
        Some(Severity::Yellow)
    } else if str_eq_lit(s, "Severe") {
        Some(Severity::Orange)
    } else if str_eq_lit(s, "Extreme") {
        Some(Severity::Red)
    } else {
        None
    }
}

impl MetAlert {
    /// Builds an alert from its raw fields, each as the feed delivered it
    /// (or absent). The fields are checked in feed order and the first
    /// broken rule decides the error, as `alert_field_failure` states.
    pub fn from_fields(
        severity: Option<String>,
        title: Option<String>,
        description: Option<String>,
        certainty: Option<String>,
        event: Option<String>,
        from: Option<String>,
        until: Option<String>,
    ) -> (r: Result<MetAlert, AlertError>)
        ensures
            r is Ok <==> alert_field_failure(
                severity.deep_view(),
                title.deep_view(),
                description.deep_view(),
                certainty.deep_view(),
                event.deep_view(),
                from.deep_view(),
                until.deep_view(),
            ) is None,
            r matches Err(e) ==> Some(e.message@) == alert_field_failure(
                severity.deep_view(),
                title.deep_view(),
                description.deep_view(),
                certainty.deep_view(),
                event.deep_view(),
                from.deep_view(),
                until.deep_view(),
            ),
            r matches Ok(a) ==> {
                &&& severity matches Some(s) && Some(a@.severity) == spec_severity(s@)
                &&& title matches Some(t) && a@.title == t@
                &&& description matches Some(d) && a@.description == d@
                &&& certainty matches Some(c) && a@.certainty == c@
                &&& event matches Some(ev) && a@.event == ev@
                &&& from matches Some(f) && Some(a@.duration.from) == rfc3339_seconds(f@)
                &&& until matches Some(u) && Some(a@.duration.until) == rfc3339_seconds(u@)
            },
    {
        let severity = match severity {
            Some(s) => match parse_severity(&s) {
                Some(sv) => sv,
                None => {
                    return Err(AlertError::new("invalid severity"));
                },
            },
            None => {
                return Err(AlertError::new("invalid severity"));
            },
        };
        let title = match title {
            Some(t) => t,
            None => {
                return Err(AlertError::new("Failed to parse title"));
            },
        };
        let description = match description {
            Some(d) => d,
            None => {
                return Err(AlertError::new("Failed to parse description"));
            },
        };
        let certainty = match certainty {
            Some(c) => c,
            None => {
                return Err(AlertError::new("Failed to parse certainty"));
            },
        };
        let event = match event {
            Some(ev) => ev,
            None => {
                return Err(AlertError::new("Failed to parse event"));
            },
        };
        let from = match from {
            Some(f) => match parse_rfc3339_seconds(f.as_str()) {
                Some(t) => t,
                None => {
                    return Err(AlertError::new("Failed to parse from"));
                },
            },
            None => {
                return Err(AlertError::new("Failed to parse from"));
            },
        };
        let until = match until {
            Some(u) => match parse_rfc3339_seconds(u.as_str()) {
                Some(t) => t,
                None => {
                    return Err(AlertError::new("Failed to parse until"));
                },
            },
            None => {
                return Err(AlertError::new("Failed to parse until"));
            },
        };
        Ok(
            MetAlert {
                severity,
                title,
                description,
                certainty,
                event,
                duration: TimeDuration { from, until },
            },
        )
    }

    /// Reads one alert object out of the JSON tree and applies
    /// [`MetAlert::from_fields`]; every guarantee about the outcome is
    /// stated there, over the values actually read.
    pub fn from_value(value: &serde_json::Value) -> (r: Result<MetAlert, AlertError>) {
        let severity = get_path2_str(value, "properties", "severity");
        let title = get_path2_str(value, "properties", "title");
        let description = get_path2_str(value, "properties", "description");
        let certainty = get_path2_str(value, "properties", "certainty");
        let event = get_path2_str(value, "properties", "event");
        let from = get_interval_str(value, 0);
        let until = get_interval_str(value, 1);
        MetAlert::from_fields(severity, title, description, certainty, event, from, until)
    }
}

/// The string under `value[k1][k2]`, if those members exist and hold text.
fn get_path2_str(value: &serde_json::Value, k1: &str, k2: &str) -> (r: Option<String>) {
    match json_get(value, k1) {
        Some(inner) => match json_get(inner, k2) {
            Some(field) => json_as_str(field),
            None => None,
        },
        None => None,
    }
}

/// The string under `value["when"]["interval"][i]`, if present.
fn get_interval_str(value: &serde_json::Value, i: usize) -> (r: Option<String>) {
    match json_get(value, "when") {
        Some(when) => match json_get(when, "interval") {
            Some(interval) => match json_get_index(interval, i) {
                Some(item) => json_as_str(item),
                None => None,
            },
            None => None,
        },
        None => None,
    }
}

/// Decodes every feature of the alert feed that forms a well-formed alert,
/// dropping the rest, in feed order.
pub fn alerts_from_features(features: &Vec<serde_json::Value>) -> (r: Vec<Alert>)
    ensures
        r@.len() <= features@.len(),
{
    let mut out: Vec<Alert> = Vec::new();
    let mut i: usize = 0;
    while i < features.len()
        invariant
            i <= features@.len(),
            out@.len() <= i,
        decreases features@.len() - i,
    {
        match MetAlert::from_value(&features[i]) {
            Ok(alert) => {
                out.push(Alert::from(alert));
            },
            Err(_) => {},
        }
        i += 1;
    }
    out
}

} // verus!
