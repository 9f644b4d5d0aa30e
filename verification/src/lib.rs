//! A time-expiring cache combined with a cache-aside resolution pipeline for
//! weather data: a geocoder resolves place names to coordinates, and a set of
//! independent nowcast/alert providers is queried per location, each behind
//! its own cache key, with partial failures dropped from the merged result.
//!
//! The library holds the data model and every decision rule: cache expiry,
//! negative caching, per-provider key construction, and the deterministic
//! composition of provider outcomes. Network transport, JSON shaping per
//! endpoint and process bootstrap live outside, in thin unverified glue that
//! feeds plain values into these functions.

use vstd::prelude::*;

mod aggregator;
mod alerts;
mod cache;
mod decimal;
mod json;
mod locations;
mod nowcasts;
mod resolver;
mod time;

pub use aggregator::{
    NowcastProvider, ProviderCacheOutcome, ProviderQuery, cache_alerts, check_provider_cache,
    compose_nowcasts, count_successes, lemma_deterministic_order, lemma_partial_failure,
    lemma_provider_key_isolation, nowcast_cache_key, nowcast_key, providers_for,
    provider_name, record_provider_result, spec_compose, spec_provider_name,
};
pub use alerts::{
    Alert, AlertError, AlertView, Alerts, MetAlert, MetAlertView, Severity, TimeDuration,
    alert_field_failure, alerts_from_features, spec_severity,
};
pub use cache::{
    Cache, CacheEntry, CacheValue, EntryModel, TimedCache, evict, lemma_key_independence,
    lemma_store_then_lookup, lookup, store,
};
pub use decimal::{decimal_micro, micro_string, parse_micro, u64_to_string};
pub use locations::{
    City, Coordinates, CoordinatesAsString, LocationError, LocationQuery, OpenWeatherMapLocation,
    ResolvedLocationView,
};
pub use nowcasts::{
    MetNowcast, MetNowcastFields, MetNowcastView, Nowcast, NowcastError, NowcastView,
    OpenWeatherNowcast, OpenWeatherNowcastFields, OpenWeatherNowcastView, SimpleNowcast,
    met_field_failure, owm_field_failure, spec_simplify,
};
pub use resolver::{
    ApplicationError, FindLocationStep, InternalApplicationError, LocationCacheModel,
    LocationLookup, chosen_location, find_location, finish_lookup_location,
    lemma_negative_caching, lookup_location, populate_location_cache,
};
pub use time::rfc3339_seconds;

verus! {

/// Time-to-live applied to every cache entry, positive or negative, in seconds.
pub const CACHE_TTL_SECONDS: u64 = 300;

} // verus!
