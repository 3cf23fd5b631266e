use vstd::prelude::*;

use crate::coordinate::Coordinate;
use crate::store::{contains_city, coordinate_of, MemoryStore};

verus! {

/// Why a resolution failed, for callers that want to tell an unknown
/// city from a broken upstream or a broken store.
#[derive(Clone, Copy, Debug, PartialEq, Eq, Structural)]
pub enum ResolveError {
    /// The provider answered, but with no candidate for this name.
    NotFound,
    /// The provider call itself failed or timed out.
    ProviderUnavailable,
    /// The store lookup failed, so the cache cannot be consulted; the
    /// resolver fails closed rather than bypassing the cache.
    StoreUnavailable,
}

/// What the geocoding provider answered for one lookup: the provider's
/// ranked candidate list, possibly empty.
#[derive(Clone, Debug)]
pub struct GeoResponse {
    pub results: Vec<Coordinate>,
}

/// The candidate a provider response settles on: the first,
/// provider-ranked result, taken as-is; an empty response is a valid
/// answer meaning the name has no match.
pub open spec fn selected_candidate(results: Seq<Coordinate>) -> Result<Coordinate, ResolveError> {
    if results.len() == 0 {
        Err(ResolveError::NotFound)
    } else {
        Ok(results[0])
    }
}

impl GeoResponse {
    /// Deterministic candidate selection from a provider response.
    pub fn first_candidate(&self) -> (r: Result<Coordinate, ResolveError>)
        ensures
            r == selected_candidate(self.results@),
    {
        if self.results.len() == 0 {
            Err(ResolveError::NotFound)
        } else {
            Ok(self.results[0])
        }
    }
}

/// One answer from the outside world to a resolution in progress: the
/// store lookup's result, the provider's result, or the insert's result.
#[derive(Clone, Debug)]
pub enum Event {
    /// The store lookup found a cached coordinate.
    StoreHit(Coordinate),
    /// The store lookup answered and the city has no record.
    StoreMiss,
    /// The store lookup itself failed.
    StoreFailed,
    /// The provider answered with its candidate list.
    ProviderResults(Vec<Coordinate>),
    /// The provider call failed or timed out.
    ProviderFailed,
    /// The cache insert succeeded.
    InsertOk,
    /// The cache insert failed; the resolution already holds a valid
    /// coordinate, so this is non-fatal.
    InsertFailed,
}

/// Where a resolution stands. Each non-final state names the one
/// blocking operation whose outcome it awaits; `Done` carries the
/// caller-visible result.
#[derive(Debug)]
pub enum ResolveState {
    /// Awaiting the store lookup for the requested city.
    QueryingStore,
    /// The store missed; awaiting the provider's candidate list.
    QueryingProvider,
    /// A candidate is in hand; awaiting the cache insert for it.
    Inserting(Coordinate),
    /// The resolution is over with this result.
    Done(Result<Coordinate, ResolveError>),
}

/// The transition relation of a resolution, as a function: what the
/// machine's next state is when `event` arrives in `state`. An event
/// that does not answer the pending operation changes nothing.
pub open spec fn step_spec(state: ResolveState, event: Event) -> ResolveState {
    match (state, event) {
        (ResolveState::QueryingStore, Event::StoreHit(c)) => ResolveState::Done(Ok(c)),
        (ResolveState::QueryingStore, Event::StoreMiss) => ResolveState::QueryingProvider,
        (ResolveState::QueryingStore, Event::StoreFailed) => ResolveState::Done(
            Err(ResolveError::StoreUnavailable),
        ),
        (ResolveState::QueryingProvider, Event::ProviderResults(cs)) => {
            match selected_candidate(cs@) {
                Ok(c) => ResolveState::Inserting(c),
                Err(e) => ResolveState::Done(Err(e)),
            }
        },
        (ResolveState::QueryingProvider, Event::ProviderFailed) => ResolveState::Done(
            Err(ResolveError::ProviderUnavailable),
        ),
        (ResolveState::Inserting(c), Event::InsertOk) => ResolveState::Done(Ok(c)),
        (ResolveState::Inserting(c), Event::InsertFailed) => ResolveState::Done(Ok(c)),
        (s, _) => s,
    }
}

/// One step of the resolution state machine.
pub fn resolve_step(state: ResolveState, event: Event) -> (next: ResolveState)
    ensures
        next == step_spec(state, event),
{
    match (state, event) {
        (ResolveState::QueryingStore, Event::StoreHit(c)) => ResolveState::Done(Ok(c)),
        (ResolveState::QueryingStore, Event::StoreMiss) => ResolveState::QueryingProvider,
        (ResolveState::QueryingStore, Event::StoreFailed) => ResolveState::Done(
            Err(ResolveError::StoreUnavailable),
        ),
        (ResolveState::QueryingProvider, Event::ProviderResults(cs)) => {
            if cs.len() == 0 {
                ResolveState::Done(Err(ResolveError::NotFound))
            } else {
                ResolveState::Inserting(cs[0])
            }
        },
        (ResolveState::QueryingProvider, Event::ProviderFailed) => ResolveState::Done(
            Err(ResolveError::ProviderUnavailable),
        ),
        (ResolveState::Inserting(c), Event::InsertOk) => ResolveState::Done(Ok(c)),
        (ResolveState::Inserting(c), Event::InsertFailed) => ResolveState::Done(Ok(c)),
        (s, _) => s,
    }
}

/// The state a resolution reaches from `state` after the events of
/// `events` arrive in order.
pub open spec fn run_steps(state: ResolveState, events: Seq<Event>) -> ResolveState
    decreases events.len(),
{
    if events.len() == 0 {
        state
    } else {
        run_steps(step_spec(state, events[0]), events.skip(1))
    }
}

/// How many times such a run consults the provider: the number of
/// positions along the run (its start included) at which the machine
/// awaits the provider.
pub open spec fn provider_consultations(state: ResolveState, events: Seq<Event>) -> nat
    decreases events.len(),
{
    let here: nat = if state is QueryingProvider {
        1
    } else {
        0
    };
    if events.len() == 0 {
        here
    } else {
        here + provider_consultations(step_spec(state, events[0]), events.skip(1))
    }
}

/// A finished resolution stays finished: no later event changes the
/// result, and a finished resolution never consults the provider.
pub proof fn lemma_done_is_absorbing(
    outcome: Result<Coordinate, ResolveError>,
    events: Seq<Event>,
)
    ensures
        run_steps(ResolveState::Done(outcome), events) == ResolveState::Done(outcome),
        provider_consultations(ResolveState::Done(outcome), events) == 0,
    decreases events.len(),
{
    if events.len() > 0 {
        lemma_done_is_absorbing(outcome, events.skip(1));
    }
}

/// Cache-hit purity: a resolution whose store lookup finds a cached
/// coordinate finishes with exactly that coordinate and consults the
/// provider zero times, whatever events follow. Every repeated request
/// for a cached city starts a fresh run at the store query, so each such
/// request enjoys the same guarantee.
pub proof fn lemma_cache_hit_purity(c: Coordinate, events: Seq<Event>)
    requires
        events.len() >= 1,
        events[0] == Event::StoreHit(c),
    ensures
        run_steps(ResolveState::QueryingStore, events) == ResolveState::Done(
            Ok::<Coordinate, ResolveError>(c),
        ),
        provider_consultations(ResolveState::QueryingStore, events) == 0,
{
    lemma_done_is_absorbing(Ok(c), events.skip(1));
}

/// Write-failure resilience: on a miss, once the provider has returned
/// at least one candidate, the resolution succeeds with the first
/// candidate whether the cache insert succeeds or fails.
pub proof fn lemma_write_failure_resilience(candidates: Vec<Coordinate>, insert_event: Event)
    requires
        candidates@.len() > 0,
        insert_event is InsertOk || insert_event is InsertFailed,
    ensures
        run_steps(
            ResolveState::QueryingStore,
            seq![Event::StoreMiss, Event::ProviderResults(candidates), insert_event],
        ) == ResolveState::Done(Ok::<Coordinate, ResolveError>(candidates@[0])),
{
    let c0 = candidates@[0];
    let events = seq![Event::StoreMiss, Event::ProviderResults(candidates), insert_event];
    let tail1 = seq![Event::ProviderResults(candidates), insert_event];
    let tail2 = seq![insert_event];
    assert(events[0] == Event::StoreMiss);
    assert(events.skip(1) =~= tail1);
    assert(tail1[0] == Event::ProviderResults(candidates));
    assert(tail1.skip(1) =~= tail2);
    assert(tail2[0] == insert_event);
    assert(tail2.skip(1) =~= Seq::<Event>::empty());
    assert(step_spec(ResolveState::QueryingStore, events[0]) == ResolveState::QueryingProvider);
    assert(step_spec(ResolveState::QueryingProvider, tail1[0]) == ResolveState::Inserting(c0));
    if insert_event is InsertOk {
        assert(insert_event == Event::InsertOk);
        assert(step_spec(ResolveState::Inserting(c0), insert_event) == ResolveState::Done(
            Ok::<Coordinate, ResolveError>(c0),
        ));
    } else {
        assert(insert_event == Event::InsertFailed);
        assert(step_spec(ResolveState::Inserting(c0), insert_event) == ResolveState::Done(
            Ok::<Coordinate, ResolveError>(c0),
        ));
    }
    lemma_done_is_absorbing(Ok(c0), tail2.skip(1));
    assert(run_steps(ResolveState::Inserting(c0), tail2) == ResolveState::Done(
        Ok::<Coordinate, ResolveError>(c0),
    ));
    assert(run_steps(ResolveState::QueryingProvider, tail1) == run_steps(
        ResolveState::Inserting(c0),
        tail2,
    ));
    assert(run_steps(ResolveState::QueryingStore, events) == run_steps(
        ResolveState::QueryingProvider,
        tail1,
    ));
}

/// A failed insert never poisons a city: a request that misses, gets a
/// candidate, and fails its insert still resolves to that candidate,
/// having consulted the provider exactly once. The failed insert leaves
/// the store without a record for the city, and every request starts
/// afresh at the store query, so each later request for the same city
/// repeats this same successful run.
pub proof fn lemma_no_poisoning(candidates: Vec<Coordinate>)
    requires
        candidates@.len() > 0,
    ensures
        run_steps(
            ResolveState::QueryingStore,
            seq![Event::StoreMiss, Event::ProviderResults(candidates), Event::InsertFailed],
        ) == ResolveState::Done(Ok::<Coordinate, ResolveError>(candidates@[0])),
        provider_consultations(
            ResolveState::QueryingStore,
            seq![Event::StoreMiss, Event::ProviderResults(candidates), Event::InsertFailed],
        ) == 1,
{
    lemma_write_failure_resilience(candidates, Event::InsertFailed);
    let c0 = candidates@[0];
    let events = seq![Event::StoreMiss, Event::ProviderResults(candidates), Event::InsertFailed];
    let tail1 = seq![Event::ProviderResults(candidates), Event::InsertFailed];
    let tail2 = seq![Event::InsertFailed];
    assert(events[0] == Event::StoreMiss);
    assert(events.skip(1) =~= tail1);
    assert(tail1[0] == Event::ProviderResults(candidates));
    assert(tail1.skip(1) =~= tail2);
    assert(tail2[0] == Event::InsertFailed);
    assert(tail2.skip(1) =~= Seq::<Event>::empty());
    assert(step_spec(ResolveState::Inserting(c0), Event::InsertFailed) == ResolveState::Done(
        Ok::<Coordinate, ResolveError>(c0),
    ));
    assert(provider_consultations(
        ResolveState::Done(Ok::<Coordinate, ResolveError>(c0)),
        Seq::<Event>::empty(),
    ) == 0);
    assert(provider_consultations(ResolveState::Inserting(c0), tail2) == 0);
    assert(provider_consultations(ResolveState::QueryingProvider, tail1) == 1);
    assert(provider_consultations(ResolveState::QueryingStore, events) == 1);
}

/// The check-then-act race, as designed: a resolution that has observed
/// a store miss and received a candidate list proceeds to attempt an
/// insert, having consulted the provider once. Two concurrent
/// resolutions of the same unseen city each run exactly this prefix
/// independently — nothing in the machine serializes them — so both
/// consult the provider and both go on to attempt an insert.
pub proof fn lemma_concurrent_misses_both_insert(candidates: Vec<Coordinate>)
    requires
        candidates@.len() > 0,
    ensures
        run_steps(
            ResolveState::QueryingStore,
            seq![Event::StoreMiss, Event::ProviderResults(candidates)],
        ) == ResolveState::Inserting(candidates@[0]),
        provider_consultations(
            ResolveState::QueryingStore,
            seq![Event::StoreMiss, Event::ProviderResults(candidates)],
        ) == 1,
{
    let c0 = candidates@[0];
    let events = seq![Event::StoreMiss, Event::ProviderResults(candidates)];
    let tail1 = seq![Event::ProviderResults(candidates)];
    assert(events[0] == Event::StoreMiss);
    assert(events.skip(1) =~= tail1);
    assert(tail1[0] == Event::ProviderResults(candidates));
    assert(tail1.skip(1) =~= Seq::<Event>::empty());
    assert(step_spec(ResolveState::QueryingProvider, tail1[0]) == ResolveState::Inserting(c0));
    assert(run_steps(ResolveState::Inserting(c0), Seq::<Event>::empty()) == ResolveState::Inserting(
        c0,
    ));
    assert(run_steps(ResolveState::QueryingProvider, tail1) == ResolveState::Inserting(c0));
    assert(run_steps(ResolveState::QueryingStore, events) == run_steps(
        ResolveState::QueryingProvider,
        tail1,
    ));
    assert(provider_consultations(ResolveState::Inserting(c0), Seq::<Event>::empty()) == 0);
    assert(provider_consultations(ResolveState::QueryingProvider, tail1) == 1);
    assert(provider_consultations(ResolveState::QueryingStore, events) == 1);
}

/// What the provider did for one resolution, as its driver saw it:
/// either it answered (possibly with no candidates), or the call failed.
#[derive(Clone, Debug)]
pub enum ProviderOutcome {
    /// The provider answered with this response.
    Results(GeoResponse),
    /// The provider call failed or timed out.
    Unavailable,
}

/// One finished resolution: the caller-visible result, and whether the
/// provider was consulted along the way.
#[derive(Debug)]
pub struct Resolution {
    pub outcome: Result<Coordinate, ResolveError>,
    pub provider_consulted: bool,
}

/// The cache-aside resolution, run to completion against the in-memory
/// store, with the provider's answer supplied by the caller: look the
/// city up, return the cached coordinate on a hit without touching the
/// provider; on a miss take the provider's first candidate, insert it,
/// and return it — or fail with `NotFound` on an empty answer and
/// `ProviderUnavailable` on a failed call, writing nothing in either
/// case.
pub fn resolve(store: &mut MemoryStore, city: &str, provider: ProviderOutcome) -> (r: Resolution)
    requires
        old(store).wf(),
    ensures
        final(store).wf(),
        contains_city(old(store)@, city@) ==> r.outcome == Ok::<Coordinate, ResolveError>(
            coordinate_of(old(store)@, city@),
        ) && !r.provider_consulted && final(store)@ == old(store)@,
        !contains_city(old(store)@, city@) ==> r.provider_consulted,
        !contains_city(old(store)@, city@) && provider is Unavailable ==> r.outcome == Err::<
            Coordinate,
            ResolveError,
        >(ResolveError::ProviderUnavailable) && final(store)@ == old(store)@,
        provider matches ProviderOutcome::Results(g) ==> ({
            &&& !contains_city(old(store)@, city@) && g.results@.len() == 0 ==> r.outcome == Err::<
                Coordinate,
                ResolveError,
            >(ResolveError::NotFound) && final(store)@ == old(store)@
            &&& !contains_city(old(store)@, city@) && g.results@.len() > 0 ==> r.outcome == Ok::<
                Coordinate,
                ResolveError,
            >(g.results@[0]) && final(store)@ =~= old(store)@.push((city@, g.results@[0]))
        }),
{
    let lookup_event = match store.get(city) {
        Some(c) => Event::StoreHit(c),
        None => Event::StoreMiss,
    };
    match resolve_step(ResolveState::QueryingStore, lookup_event) {
        ResolveState::Done(outcome) => Resolution { outcome, provider_consulted: false },
        after_lookup => {
            let provider_event = match provider {
                ProviderOutcome::Unavailable => Event::ProviderFailed,
                ProviderOutcome::Results(geo) => Event::ProviderResults(geo.results),
            };
            match resolve_step(after_lookup, provider_event) {
                ResolveState::Done(outcome) => Resolution { outcome, provider_consulted: true },
                ResolveState::Inserting(c) => {
                    let insert_event = match store.put(city, c) {
                        Ok(()) => Event::InsertOk,
                        Err(_) => Event::InsertFailed,
                    };
                    match resolve_step(ResolveState::Inserting(c), insert_event) {
                        ResolveState::Done(outcome) => Resolution {
                            outcome,
                            provider_consulted: true,
                        },
                        _ => vstd::pervasive::unreached(),
                    }
                },
                _ => vstd::pervasive::unreached(),
            }
        },
    }
}

} // verus!
