//! Provider aggregation: key isolation, partial failure, output order.

use nowcache::Cache;
use nowcache::TimedCache;
use nowcache::Coordinates;
use nowcache::Nowcast;
use nowcache::NowcastProvider;
use nowcache::ProviderCacheOutcome;
use nowcache::ProviderQuery;
use nowcache::SimpleNowcast;
use nowcache::check_provider_cache;
use nowcache::compose_nowcasts;
use nowcache::nowcast_cache_key;
use nowcache::provider_name;
use nowcache::providers_for;
use nowcache::record_provider_result;

fn spot() -> Coordinates {
    Coordinates::new(63_430_000, 10_400_000)
}

fn fact(mark: i64) -> Nowcast {
    Nowcast::Simple(SimpleNowcast {
        time: 1,
        location: spot(),
        temperature: mark,
        humidity: 0,
        wind_speed: 0,
        wind_dir: 0,
    })
}

fn mark_of(n: &Nowcast) -> i64 {
    match n {
        Nowcast::Simple(s) => s.temperature,
        _ => panic!("test facts are simple"),
    }
}

#[test]
fn provider_names_and_narrowing() {
    assert_eq!(provider_name(NowcastProvider::Met), "MET");
    assert_eq!(provider_name(NowcastProvider::OpenWeatherMap), "OWM");
    assert_eq!(
        providers_for(&ProviderQuery { provider: None }),
        vec![NowcastProvider::Met, NowcastProvider::OpenWeatherMap]
    );
    assert_eq!(
        providers_for(&ProviderQuery {
            provider: Some(NowcastProvider::OpenWeatherMap)
        }),
        vec![NowcastProvider::OpenWeatherMap]
    );
}

#[test]
fn provider_keys_are_distinct() {
    let k_met = nowcast_cache_key(&spot(), "MET");
    let k_owm = nowcast_cache_key(&spot(), "OWM");
    assert_eq!(k_met, "63.430000,10.400000-MET");
    assert_eq!(k_owm, "63.430000,10.400000-OWM");
    assert_ne!(k_met, k_owm);
}

#[test]
fn per_provider_entries_are_independent() {
    let mut cache: Cache<Option<Nowcast>> = Cache::new();
    let c = spot();

    // MET stored at t=0 (expires 300), OWM at t=100 (expires 400).
    record_provider_result(&c, "MET", Some(fact(1)), &mut cache, 0).unwrap();
    record_provider_result(&c, "OWM", Some(fact(2)), &mut cache, 100).unwrap();
    assert_eq!(cache.len(), 2);

    // At t=350 the MET entry has expired and is evicted; the OWM entry is
    // untouched by that.
    match check_provider_cache(&c, "MET", &mut cache, 350) {
        ProviderCacheOutcome::Miss => {}
        _ => panic!("the expired entry must miss"),
    }
    assert_eq!(cache.len(), 1);
    match check_provider_cache(&c, "OWM", &mut cache, 350) {
        ProviderCacheOutcome::Hit(n) => assert_eq!(mark_of(&n), 2),
        _ => panic!("the other provider's entry must survive"),
    }
}

#[test]
fn provider_failure_is_negative_cached() {
    let mut cache: Cache<Option<Nowcast>> = Cache::new();
    let c = spot();

    let err = record_provider_result(&c, "MET", None, &mut cache, 0).unwrap_err();
    assert_eq!(err.message, "Failed to get nowcast");
    assert_eq!(err.status_code, 500);

    match check_provider_cache(&c, "MET", &mut cache, 100) {
        ProviderCacheOutcome::CachedFailure(e) => {
            assert_eq!(e.message, "{} Not in cache");
            assert_eq!(e.status_code, 404);
        }
        _ => panic!("the recorded failure must answer from the cache"),
    }
}

#[test]
fn partial_failure_does_not_fail_aggregate() {
    let mut cache: Cache<Option<Nowcast>> = Cache::new();
    let c = spot();
    let providers = providers_for(&ProviderQuery { provider: None });

    // Fan-out: the first provider always fails, the second always succeeds.
    let mut outcomes: Vec<Option<Nowcast>> = Vec::new();
    for p in &providers {
        let fetched = match p {
            NowcastProvider::Met => None,
            NowcastProvider::OpenWeatherMap => Some(fact(7)),
        };
        let r = record_provider_result(&c, provider_name(*p), fetched, &mut cache, 0);
        outcomes.push(r.ok());
    }

    let facts = compose_nowcasts(&outcomes, false);
    assert_eq!(facts.len(), 1);
    assert_eq!(mark_of(&facts[0]), 7);
}

#[test]
fn output_order_follows_provider_order() {
    // However the upstream calls complete, the outcomes are composed in
    // provider order: fill the slots in reverse completion order.
    let mut outcomes: Vec<Option<Nowcast>> = vec![None, None];
    outcomes[1] = Some(fact(2));
    outcomes[0] = Some(fact(1));
    let facts = compose_nowcasts(&outcomes, false);
    assert_eq!(facts.len(), 2);
    assert_eq!(mark_of(&facts[0]), 1);
    assert_eq!(mark_of(&facts[1]), 2);
}

#[test]
fn all_failures_compose_to_an_empty_list() {
    let outcomes: Vec<Option<Nowcast>> = vec![None, None];
    assert_eq!(compose_nowcasts(&outcomes, false).len(), 0);
}

#[test]
fn compose_can_simplify() {
    let met = Nowcast::Met(
        nowcache::MetNowcast::from_fields(
            Some(spot()),
            Some("2023-08-14T18:16:07Z".to_string()),
            Some("cloudy".to_string()),
            nowcache::MetNowcastFields {
                air_temperature: Some(17_700),
                relative_humidity: Some(80_500),
                precipitation_amount: Some(0),
                wind_speed: Some(2_700),
                wind_speed_gust: Some(6_100),
                wind_from_direction: Some(294_400),
            },
        )
        .unwrap(),
    );
    let outcomes = vec![Some(met)];
    let facts = compose_nowcasts(&outcomes, true);
    assert_eq!(facts.len(), 1);
    assert_eq!(mark_of(&facts[0]), 17_700);
}
