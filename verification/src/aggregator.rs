//! Per-provider caching and the composition of provider outcomes.
//!
//! Every nowcast provider is an independent failure domain: it has its own
//! cache key — the coordinates and the provider's name, so two providers
//! asked about the same spot never collide — and its failure is recorded,
//! cached as an absence, and dropped from the merged result rather than
//! propagated. The merged result is composed in configured provider order,
//! whatever order the upstream calls completed in.
//!
//! The upstream fetches themselves happen outside this crate:
//! [`check_provider_cache`] says which providers must be fetched, and
//! [`record_provider_result`] folds each outcome back into the cache.

use vstd::prelude::*;
use vstd::string::StringExecFns;

use crate::CACHE_TTL_SECONDS;
use crate::cache::Cache;
use crate::cache::CacheValue;
use crate::cache::TimedCache;
use crate::cache::evict;
use crate::cache::lookup;
use crate::cache::store;
use crate::locations::Coordinates;
use crate::nowcasts::Nowcast;
use crate::nowcasts::NowcastView;
use crate::nowcasts::spec_simplify;
use crate::resolver::ApplicationError;

verus! {

/// The nowcast providers this service knows.
#[derive(Clone, Copy, PartialEq, Eq, Structural, Debug)]
pub enum NowcastProvider {
    Met,
    OpenWeatherMap,
}

/// What a request may say about which provider to consult.
pub struct ProviderQuery {
    pub provider: Option<NowcastProvider>,
}

/// The short name a provider contributes to its cache keys.
pub open spec fn spec_provider_name(p: NowcastProvider) -> Seq<char> {
    match p {
        NowcastProvider::Met => "MET"@,
        NowcastProvider::OpenWeatherMap => "OWM"@,
    }
}

/// The short name a provider contributes to its cache keys.
pub fn provider_name(p: NowcastProvider) -> (r: &'static str)
    ensures
        r@ == spec_provider_name(p),
{
    match p {
        NowcastProvider::Met => "MET",
        NowcastProvider::OpenWeatherMap => "OWM",
    }
}

/// The providers a query asks for: the one it names, or every provider in
/// declaration order.
pub fn providers_for(query: &ProviderQuery) -> (r: Vec<NowcastProvider>)
    ensures
        match query.provider {
            Some(p) => r@ == seq![p],
            None => r@ == seq![NowcastProvider::Met, NowcastProvider::OpenWeatherMap],
        },
{
    let mut r: Vec<NowcastProvider> = Vec::new();
    match query.provider {
        Some(p) => {
            r.push(p);
            proof {
                assert(r@ =~= seq![p]);
            }
        },
        None => {
            r.push(NowcastProvider::Met);
            r.push(NowcastProvider::OpenWeatherMap);
            proof {
                assert(r@ =~= seq![NowcastProvider::Met, NowcastProvider::OpenWeatherMap]);
            }
        },
    }
    r
}

/// The cache key scoping a nowcast to a position and a provider.
pub open spec fn nowcast_key(location: Coordinates, provider: Seq<char>) -> Seq<char> {
    location.key_string() + seq!['-'] + provider
}

/// Builds the key exactly as `nowcast_key` describes.
pub fn nowcast_cache_key(location: &Coordinates, provider: &str) -> (s: String)
    requires
        location.wf(),
    ensures
        s@ == nowcast_key(*location, provider@),
{
    let mut s = location.to_string();
    proof {
        reveal_strlit("-");
    }
    s.append("-");
    s.append(provider);
    proof {
        assert(s@ =~= nowcast_key(*location, provider@));
    }
    s
}

/// Per-provider key isolation: for one position, two differently named
/// providers get two different cache keys, so neither's entry can shadow or
/// evict the other's.
pub proof fn lemma_provider_key_isolation(location: Coordinates, p1: Seq<char>, p2: Seq<char>)
    requires
        p1 != p2,
    ensures
        nowcast_key(location, p1) != nowcast_key(location, p2),
{
    let prefix = location.key_string() + seq!['-'];
    let k1 = nowcast_key(location, p1);
    let k2 = nowcast_key(location, p2);
    assert(k1 =~= prefix + p1);
    assert(k2 =~= prefix + p2);
    if k1 == k2 {
        assert(p1.len() == p2.len());
        assert forall|i: int| 0 <= i < p1.len() implies p1[i] == p2[i] by {
            assert(k1[prefix.len() + i] == k2[prefix.len() + i]);
        }
        assert(p1 =~= p2);
    }
}

/// What consulting the nowcast cache for one provider can yield.
pub enum ProviderCacheOutcome {
    /// A fresh fact: use it, no upstream call.
    Hit(Nowcast),
    /// A fresh failure marker: this provider is skipped, no upstream call.
    CachedFailure(ApplicationError),
    /// Nothing cached: the provider must be fetched.
    Miss,
}

/// Consults the nowcast cache for one provider at one position. A fresh
/// positive entry yields the fact; a fresh negative entry yields the
/// provider's cached failure; anything else calls for a fetch. An expired
/// entry is removed on the way.
pub fn check_provider_cache(
    location: &Coordinates,
    provider: &str,
    nowcast_cache: &mut Cache<Option<Nowcast>>,
    now: u64,
) -> (r: ProviderCacheOutcome)
    requires
        old(nowcast_cache).wf(),
        location.wf(),
    ensures
        final(nowcast_cache).wf(),
        final(nowcast_cache).contents() == evict(
            old(nowcast_cache).contents(),
            nowcast_key(*location, provider@),
            now,
        ),
        match r {
            ProviderCacheOutcome::Hit(n) => lookup(
                old(nowcast_cache).contents(),
                nowcast_key(*location, provider@),
                now,
            ) == Some(Some(n.deep_view())),
            ProviderCacheOutcome::CachedFailure(e) => lookup(
                old(nowcast_cache).contents(),
                nowcast_key(*location, provider@),
                now,
            ) == Some(None::<NowcastView>) && e.message@ == "{} Not in cache"@ && e.status_code
                == 404,
            ProviderCacheOutcome::Miss => lookup(
                old(nowcast_cache).contents(),
                nowcast_key(*location, provider@),
                now,
            ) == None::<Option<NowcastView>>,
        },
{
    let key = nowcast_cache_key(location, provider);
    match nowcast_cache.get(&key, now) {
        Some(Some(n)) => ProviderCacheOutcome::Hit(n),
        Some(None) => ProviderCacheOutcome::CachedFailure(
            ApplicationError::new("{} Not in cache", 404),
        ),
        None => ProviderCacheOutcome::Miss,
    }
}

/// Folds one provider's fetch outcome into the cache with the shared TTL —
/// the fact on success, the failure marker otherwise — and hands the
/// outcome back: the fact, or the provider's failure.
pub fn record_provider_result(
    location: &Coordinates,
    provider: &str,
    fetched: Option<Nowcast>,
    nowcast_cache: &mut Cache<Option<Nowcast>>,
    now: u64,
) -> (r: Result<Nowcast, ApplicationError>)
    requires
        old(nowcast_cache).wf(),
        location.wf(),
        now + CACHE_TTL_SECONDS <= u64::MAX,
    ensures
        final(nowcast_cache).wf(),
        final(nowcast_cache).contents() == store(
            old(nowcast_cache).contents(),
            nowcast_key(*location, provider@),
            fetched.deep_view(),
            (now + CACHE_TTL_SECONDS) as u64,
        ),
        match r {
            Ok(n) => fetched.deep_view() == Some(n.deep_view()),
            Err(e) => fetched is None && e.message@ == "Failed to get nowcast"@ && e.status_code
                == 500,
        },
{
    let key = nowcast_cache_key(location, provider);
    let expires_at = now + CACHE_TTL_SECONDS;
    match fetched {
        Some(n) => {
            let out = n.dup();
            nowcast_cache.set(&key, Some(n), expires_at);
            Ok(out)
        },
        None => {
            nowcast_cache.set(&key, None, expires_at);
            Err(ApplicationError::new("Failed to get nowcast", 500))
        },
    }
}

/// The merged aggregate of per-provider outcomes, in the order given: each
/// success contributes its fact (simplified when asked), each failure
/// contributes nothing.
pub open spec fn spec_compose(outcomes: Seq<Option<NowcastView>>, simplify: bool) -> Seq<
    NowcastView,
>
    decreases outcomes.len(),
{
    if outcomes.len() == 0 {
        Seq::empty()
    } else {
        let rest = spec_compose(outcomes.drop_last(), simplify);
        match outcomes.last() {
            Some(v) => rest.push(
                if simplify {
                    NowcastView::Simple(spec_simplify(v))
                } else {
                    v
                },
            ),
            None => rest,
        }
    }
}

/// Composes the aggregate result from per-provider outcomes, ordered as the
/// providers were declared, never as the upstream calls completed: exactly
/// the successes survive, each at its provider's position, simplified when
/// `simplify` is set. A failure never fails the aggregate; if every
/// provider failed the result is simply empty.
pub fn compose_nowcasts(outcomes: &Vec<Option<Nowcast>>, simplify: bool) -> (r: Vec<Nowcast>)
    ensures
        r.deep_view() == spec_compose(outcomes.deep_view(), simplify),
{
    let mut r: Vec<Nowcast> = Vec::new();
    let mut i: usize = 0;
    while i < outcomes.len()
        invariant
            i <= outcomes@.len(),
            r.deep_view() =~= spec_compose(outcomes.deep_view().take(i as int), simplify),
        decreases outcomes@.len() - i,
    {
        match &outcomes[i] {
            Some(n) => {
                let fact = if simplify {
                    n.dup().simplify()
                } else {
                    n.dup()
                };
                r.push(fact);
            },
            None => {},
        }
        i += 1;
        proof {
            let pre = outcomes.deep_view().take(i - 1);
            let cur = outcomes.deep_view().take(i as int);
            assert(cur.drop_last() =~= pre);
            assert(cur.last() == outcomes.deep_view()[i - 1]);
            assert(r.deep_view() =~= spec_compose(cur, simplify));
        }
    }
    proof {
        assert(outcomes.deep_view().take(outcomes@.len() as int) =~= outcomes.deep_view());
        assert(r.deep_view() =~= spec_compose(outcomes.deep_view(), simplify));
    }
    r
}

/// The number of successes among the outcomes.
pub open spec fn count_successes(outcomes: Seq<Option<NowcastView>>) -> nat
    decreases outcomes.len(),
{
    if outcomes.len() == 0 {
        0
    } else {
        count_successes(outcomes.drop_last()) + if outcomes.last() is Some {
            1nat
        } else {
            0nat
        }
    }
}

/// Partial failure does not fail the aggregate: however many providers
/// failed, composition yields exactly one fact per success — an aggregate of
/// all failures is an empty list, never an error.
pub proof fn lemma_partial_failure(outcomes: Seq<Option<NowcastView>>, simplify: bool)
    ensures
        spec_compose(outcomes, simplify).len() == count_successes(outcomes),
    decreases outcomes.len(),
{
    if outcomes.len() > 0 {
        lemma_partial_failure(outcomes.drop_last(), simplify);
    }
}

/// Deterministic output order: with both of two providers succeeding, the
/// aggregate is their two facts in declaration order — the completion order
/// of the upstream calls does not enter into the composition at all.
pub proof fn lemma_deterministic_order(a: NowcastView, b: NowcastView)
    ensures
        spec_compose(seq![Some(a), Some(b)], false) == seq![a, b],
{
    let s = seq![Some(a), Some(b)];
    reveal_with_fuel(spec_compose, 3);
    assert(s.drop_last() =~= seq![Some(a)]);
    assert(seq![Some(a)].drop_last() =~= Seq::<Option<NowcastView>>::empty());
    assert(spec_compose(seq![Some(a)], false) =~= seq![a]);
    assert(spec_compose(s, false) =~= seq![a, b]);
}

/// Writes a fresh alert list for a place into the alert cache with the
/// shared TTL.
pub fn cache_alerts(
    name: &String,
    alerts: &crate::alerts::Alerts,
    alert_cache: &mut Cache<crate::alerts::Alerts>,
    now: u64,
)
    requires
        old(alert_cache).wf(),
        now + CACHE_TTL_SECONDS <= u64::MAX,
    ensures
        final(alert_cache).wf(),
        final(alert_cache).contents() == store(
            old(alert_cache).contents(),
            name@,
            alerts.deep_view(),
            (now + CACHE_TTL_SECONDS) as u64,
        ),
{
    alert_cache.set(name, alerts.dup(), now + CACHE_TTL_SECONDS);
}

} // verus!
