//! Alert decoding: the field rules and the JSON path extraction.

use nowcache::Alert;
use nowcache::MetAlert;
use nowcache::Severity;
use nowcache::TimedCache;
use nowcache::alerts_from_features;

fn oslo_alert_json() -> &'static str {
    r#"{"geometry":{"coordinates":[[[15.4258,68.3229],[15.7923,68.2672],[14.5503,67.799],[13.9242,67.1765],[15.8189,67.0223],[16.0827,67.4949],[16.5759,67.5501],[16.7813,67.8797],[17.3572,68.0586],[17.9593,67.966],[18.0783,68.1858],[16.4639,68.4005],[16.8437,69.4366],[15.607,69.2479],[14.216,68.6853],[12.5634,67.8946],[12.9458,67.7361],[14.8027,68.2064],[15.4258,68.3229],[15.4258,68.3229],[15.4258,68.3229]]],"type":"Polygon"},"properties":{"area":"Lofoten, Vesterålen, og deler av Salten, Ofoten og Sør-Troms","awarenessResponse":"Følg med","awarenessSeriousness":"Utfordrende situasjon","awareness_level":"2; yellow; Moderate","awareness_type":"8; forest-fire","certainty":"Likely","consequences":"Vegetasjon kan lett antennes og store områder kan bli berørt. ","county":["18"],"description":"Update: Lokal skog- og lyngbrannfare inntil det kommer nedbør av betydning.","event":"forestFire","eventAwarenessName":"Skogbrannfare","geographicDomain":"land","id":"2.49.0.1.578.0.20230811073606.016","instruction":"Vær forsiktig med åpen ild. Følg lokale myndigheters instruksjoner. Behov for forebyggende tiltak og beredskap skal vurderes fortløpende av beredskapsaktører. ","resources":[{"description":"CAP file","mimeType":"application\/xml","uri":"https:\/\/api.met.no\/weatherapi\/metalerts\/1.1\/?cap=2.49.0.1.578.0.20230811073606.016"},{"description":"","mimeType":"image\/png","uri":"https:\/\/slaps.met.no\/cap-images\/abbba23b-e4df-44e9-896c-b9552e957166.png"}],"severity":"Moderate","title":"Skogbrannfare, gult nivå, Lofoten, Vesterålen, og deler av Salten, Ofoten og Sør-Troms, 2023-08-10T22:00:00+00:00, 2023-08-14T22:00:00+00:00","type":"Update"},"type":"Feature","when":{"interval":["2023-08-10T22:00:00+00:00","2023-08-14T22:00:00+00:00"]}}"#
}

#[test]
fn met_try_from_json() {
    let json_value: serde_json::Value = serde_json::from_str(oslo_alert_json()).unwrap();

    let alert = MetAlert::from_value(&json_value).unwrap();

    assert_eq!(alert.severity, Severity::Yellow);
    assert_eq!(
        alert.title,
        "Skogbrannfare, gult nivå, Lofoten, Vesterålen, og deler av Salten, Ofoten og Sør-Troms, 2023-08-10T22:00:00+00:00, 2023-08-14T22:00:00+00:00"
    );
    assert_eq!(
        alert.description,
        "Update: Lokal skog- og lyngbrannfare inntil det kommer nedbør av betydning."
    );
    assert_eq!(alert.certainty, "Likely");
    assert_eq!(alert.event, "forestFire");
    // 2023-08-10T22:00:00+00:00 and 2023-08-14T22:00:00+00:00 as epoch
    // seconds.
    assert_eq!(alert.duration.from, 1691704800);
    assert_eq!(alert.duration.until, 1692050400);
}

fn full_fields() -> (
    Option<String>,
    Option<String>,
    Option<String>,
    Option<String>,
    Option<String>,
    Option<String>,
    Option<String>,
) {
    (
        Some("Severe".to_string()),
        Some("title".to_string()),
        Some("description".to_string()),
        Some("Likely".to_string()),
        Some("flood".to_string()),
        Some("2023-08-10T22:00:00+00:00".to_string()),
        Some("2023-08-14T22:00:00+00:00".to_string()),
    )
}

#[test]
fn from_fields_severity_codes() {
    for (code, severity) in [
        ("Moderate", Severity::Yellow),
        ("Severe", Severity::Orange),
        ("Extreme", Severity::Red),
    ] {
        let (_, title, description, certainty, event, from, until) = full_fields();
        let alert = MetAlert::from_fields(
            Some(code.to_string()),
            title,
            description,
            certainty,
            event,
            from,
            until,
        )
        .unwrap();
        assert_eq!(alert.severity, severity);
    }
}

#[test]
fn from_fields_rejects_unknown_severity() {
    let (_, title, description, certainty, event, from, until) = full_fields();
    let err = MetAlert::from_fields(
        Some("Minor".to_string()),
        title,
        description,
        certainty,
        event,
        from,
        until,
    )
    .unwrap_err();
    assert_eq!(err.message, "invalid severity");
}

#[test]
fn from_fields_rejects_missing_title() {
    let (severity, _, description, certainty, event, from, until) = full_fields();
    let err = MetAlert::from_fields(severity, None, description, certainty, event, from, until)
        .unwrap_err();
    assert_eq!(err.message, "Failed to parse title");
}

#[test]
fn from_fields_rejects_bad_interval() {
    let (severity, title, description, certainty, event, _, until) = full_fields();
    let err = MetAlert::from_fields(
        severity,
        title,
        description,
        certainty,
        event,
        Some("yesterday".to_string()),
        until,
    )
    .unwrap_err();
    assert_eq!(err.message, "Failed to parse from");
}

#[test]
fn from_fields_rejects_bad_until() {
    let (severity, title, description, certainty, event, from, _) = full_fields();
    let err = MetAlert::from_fields(severity, title, description, certainty, event, from, None)
        .unwrap_err();
    assert_eq!(err.message, "Failed to parse until");
}

#[test]
fn alert_cache_round_trip() {
    let mut cache: nowcache::Cache<nowcache::Alerts> = nowcache::Cache::new();
    let name = "Oslo".to_string();
    nowcache::cache_alerts(&name, &vec![Alert::Nve], &mut cache, 100);
    let cached = cache.get(&name, 150).unwrap();
    assert_eq!(cached.len(), 1);
    assert!(matches!(cached[0], Alert::Nve));
    // Past the TTL the entry is gone.
    assert!(cache.get(&name, 401).is_none());
    assert_eq!(cache.len(), 0);
}

#[test]
fn features_decode_drops_malformed_entries() {
    let ok: serde_json::Value = serde_json::from_str(oslo_alert_json()).unwrap();
    let broken: serde_json::Value = serde_json::from_str(r#"{"properties":{}}"#).unwrap();
    let features = vec![broken, ok];
    let alerts = alerts_from_features(&features);
    assert_eq!(alerts.len(), 1);
    match &alerts[0] {
        Alert::Met(a) => assert_eq!(a.severity, Severity::Yellow),
        Alert::Nve => panic!("expected a Met alert"),
    }
}
