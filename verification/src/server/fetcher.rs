//! The dispatcher: it turns wake-ups of the event queue into broadcasts.

use crate::caches::{Handler, RegistrationError};
use crate::public::event_queue::{lemma_push_all, Event, EventQ, EventQView};
use crate::public::ServiceType;
use crate::server::converter::spec_convert_for;
use crate::server::fanout::{Broadcast, FanoutChannels};
use crate::server::server::{GrpcDataCache, GrpcDataView, Server};
use vstd::prelude::*;

verus! {

/// The read handles of the registered sources, at most one per tag.
#[derive(Debug)]
pub struct CacheHandlers {
    inner: [Option<Handler>; ServiceType::LEN],
}

impl View for CacheHandlers {
    type V = Map<ServiceType, Option<Handler>>;

    closed spec fn view(&self) -> Map<ServiceType, Option<Handler>> {
        Map::new(|s: ServiceType| true, |s: ServiceType| self.inner@[s.spec_index()])
    }
}

impl CacheHandlers {
    /// The registry without any source.
    pub open spec fn spec_new() -> Map<ServiceType, Option<Handler>> {
        Map::new(|s: ServiceType| true, |s: ServiceType| None::<Handler>)
    }

    /// The registry after registering `entries` one after the other, up to
    /// the first whose tag is taken, and that collision if there is one.
    pub open spec fn spec_add_all(
        registry: Map<ServiceType, Option<Handler>>,
        entries: Seq<(ServiceType, Handler)>,
    ) -> (Map<ServiceType, Option<Handler>>, Option<RegistrationError>)
        decreases entries.len(),
    {
        if entries.len() == 0 {
            (registry, None)
        } else if registry[entries[0].0] is Some {
            (registry, Some(RegistrationError::Collision(entries[0].0)))
        } else {
            Self::spec_add_all(registry.insert(entries[0].0, Some(entries[0].1)), entries.skip(1))
        }
    }

    pub fn new() -> (handlers: Self)
        ensures
            handlers@ == Self::spec_new(),
    {
        let handlers = CacheHandlers { inner: [None, None] };
        assert(handlers@ =~= Self::spec_new());
        handlers
    }

    /// Registers `handler` under `service_type`. A tag holds one source: a
    /// second registration under it is refused and changes nothing.
    pub fn add_cache(&mut self, service_type: ServiceType, handler: Handler) -> (added: Result<(), RegistrationError>)
        ensures
            old(self)@[service_type] is Some ==> added == Err::<(), RegistrationError>(
                RegistrationError::Collision(service_type),
            ) && final(self)@ == old(self)@,
            old(self)@[service_type] is None ==> added is Ok && final(self)@ == old(self)@.insert(
                service_type,
                Some(handler),
            ),
    {
        let idx = service_type.index();
        if self.inner[idx].is_some() {
            return Err(RegistrationError::Collision(service_type));
        }
        self.inner[idx] = Some(handler);
        assert(self@ =~= old(self)@.insert(service_type, Some(handler))) by {
            assert forall|s: ServiceType| #[trigger] self@[s] == old(self)@.insert(service_type, Some(handler))[s] by {
                if s != service_type {
                    assert(s.spec_index() != service_type.spec_index());
                }
            }
        }
        Ok(())
    }

    /// The handle registered under `service_type`, if there is one.
    pub fn get(&self, service_type: ServiceType) -> (handler: Option<&Handler>)
        ensures
            self@[service_type] matches Some(h) ==> handler == Some(&h),
            self@[service_type] is None ==> handler is None,
    {
        self.inner[service_type.index()].as_ref()
    }

    /// The slot of `service_type`, for the producer of that source to
    /// change the state that its handle reads.
    pub fn handler_mut(&mut self, service_type: ServiceType) -> (slot: &mut Option<Handler>)
        ensures
            *slot == old(self)@[service_type],
            final(self)@ == old(self)@.insert(service_type, *final(slot)),
    {
        let idx = service_type.index();
        proof {
            assert forall|value: Option<Handler>|
                (Map::new(|s: ServiceType| true, |s: ServiceType| self.inner@.update(idx as int, value)[s.spec_index()]))
                    =~= #[trigger] self@.insert(service_type, value) by {
                assert forall|s: ServiceType| s != service_type implies s.spec_index() != service_type.spec_index() by {}
            }
        }
        &mut self.inner[idx]
    }
}

/// The payload that an event of `service_type` is dispatched with, given the
/// registered handles: the converted snapshot of the source, or `None`
/// where no source is registered under the tag or its snapshot has no wire
/// representation.
pub open spec fn spec_payload_for(handlers: Map<ServiceType, Option<Handler>>, service_type: ServiceType) -> Option<
    GrpcDataView,
> {
    match handlers[service_type] {
        Some(handler) => spec_convert_for(service_type, handler.snapshot()),
        None => None,
    }
}

/// The tags of `events`, in order.
pub open spec fn spec_tags(events: Seq<Event>) -> Seq<ServiceType> {
    events.map_values(|e: Event| e.service_type)
}

/// The tags of the events that are broadcast, in the order of the events.
pub open spec fn spec_dispatched(handlers: Map<ServiceType, Option<Handler>>, events: Seq<Event>) -> Seq<ServiceType> {
    spec_tags(events).filter(|s: ServiceType| spec_payload_for(handlers, s) is Some)
}

/// The test for the tag `service_type`.
pub open spec fn spec_is_tag(service_type: ServiceType) -> spec_fn(ServiceType) -> bool {
    |s: ServiceType| s == service_type
}

/// How often `service_type` occurs in `tags`.
pub open spec fn spec_count(tags: Seq<ServiceType>, service_type: ServiceType) -> nat {
    tags.filter(spec_is_tag(service_type)).len()
}

/// The latest-value cache after `events` were dispatched: a source that was
/// broadcast holds its current payload, every other entry is as before.
pub open spec fn spec_cache_after(
    handlers: Map<ServiceType, Option<Handler>>,
    cache: Map<ServiceType, GrpcDataView>,
    events: Seq<Event>,
) -> Map<ServiceType, GrpcDataView> {
    Map::new(
        |s: ServiceType| true,
        |s: ServiceType|
            if spec_dispatched(handlers, events).contains(s) {
                spec_payload_for(handlers, s).unwrap()
            } else {
                cache[s]
            },
    )
}

/// `sent` records the dispatch of `events`: one record for every event that
/// is broadcast, in the order of the events, each with the payload of its
/// source and with what the channel answered.
pub open spec fn spec_records(
    handlers: Map<ServiceType, Option<Handler>>,
    events: Seq<Event>,
    sent: Seq<Broadcast>,
) -> bool {
    &&& sent.map_values(|b: Broadcast| b@.service_type) == spec_dispatched(handlers, events)
    &&& forall|i: int|
        0 <= i < sent.len() ==> {
            &&& (#[trigger] sent[i])@.receivers != Some(0usize)
            &&& spec_payload_for(handlers, sent[i]@.service_type) == Some(sent[i]@.payload)
        }
}

/// Where the dispatcher stands.
#[derive(Clone, Copy, Debug, PartialEq, Eq, Structural)]
pub enum FetcherState {
    /// Waiting for the queue's signal or for shutdown.
    Idle,
    /// Woken by the queue; the events are drained next.
    Draining,
    /// Stopped by shutdown; it never runs again.
    Terminated,
}

/// What wakes the dispatcher.
#[derive(Clone, Copy, Debug, PartialEq, Eq, Structural)]
pub enum FetcherWake {
    /// The queue's signal was up and has been consumed.
    Notified,
    /// The dispatcher is scheduled to drain the queue.
    Drain,
    /// The shutdown signal is up.
    Shutdown,
}

impl FetcherState {
    /// The state that `wake` leads to. A wake that the state does not wait
    /// for is ignored.
    pub open spec fn step(self, wake: FetcherWake) -> FetcherState {
        match (self, wake) {
            (FetcherState::Terminated, _) => FetcherState::Terminated,
            (_, FetcherWake::Shutdown) => FetcherState::Terminated,
            (FetcherState::Idle, FetcherWake::Notified) => FetcherState::Draining,
            (FetcherState::Idle, FetcherWake::Drain) => FetcherState::Idle,
            (FetcherState::Draining, FetcherWake::Drain) => FetcherState::Idle,
            (FetcherState::Draining, FetcherWake::Notified) => FetcherState::Draining,
        }
    }

    /// Whether `wake` makes the dispatcher drain the queue.
    pub open spec fn drains(self, wake: FetcherWake) -> bool {
        self == FetcherState::Draining && wake == FetcherWake::Drain
    }
}

/// The dispatcher.
#[derive(Debug)]
pub struct Fetcher {
    pub caches_handlers: CacheHandlers,
    pub state: FetcherState,
}

/// A read-only view of the dispatcher's registry.
#[derive(Debug)]
pub struct Fetcherhandler<'a> {
    caches_handlers: &'a CacheHandlers,
}

impl<'a> View for Fetcherhandler<'a> {
    type V = Map<ServiceType, Option<Handler>>;

    closed spec fn view(&self) -> Map<ServiceType, Option<Handler>> {
        self.caches_handlers@
    }
}

impl<'a> Fetcherhandler<'a> {
    /// The handle registered under `service_type`, if there is one.
    pub fn get_cache_handler(&self, service_type: ServiceType) -> (handler: Option<&'a Handler>)
        ensures
            self@[service_type] matches Some(h) ==> handler == Some(&h),
            self@[service_type] is None ==> handler is None,
    {
        self.caches_handlers.get(service_type)
    }
}

impl Fetcher {
    /// An idle dispatcher without sources.
    pub fn new() -> (fetcher: Self)
        ensures
            fetcher.state == FetcherState::Idle,
            fetcher.caches_handlers@ == CacheHandlers::spec_new(),
    {
        Fetcher { caches_handlers: CacheHandlers::new(), state: FetcherState::Idle }
    }

    /// The registry, for reading.
    pub fn handler(&self) -> (handler: Fetcherhandler<'_>)
        ensures
            handler@ == self.caches_handlers@,
    {
        Fetcherhandler { caches_handlers: &self.caches_handlers }
    }

    /// Registers the read handle of a source. A second registration under
    /// one tag is refused and changes nothing.
    pub fn add_cache(&mut self, service_type: ServiceType, cache: Handler) -> (added: Result<(), RegistrationError>)
        ensures
            final(self).state == old(self).state,
            old(self).caches_handlers@[service_type] is Some ==> added == Err::<(), RegistrationError>(
                RegistrationError::Collision(service_type),
            ) && final(self).caches_handlers@ == old(self).caches_handlers@,
            old(self).caches_handlers@[service_type] is None ==> added is Ok && final(self).caches_handlers@ == old(
                self,
            ).caches_handlers@.insert(service_type, Some(cache)),
    {
        self.caches_handlers.add_cache(service_type, cache)
    }

    /// Registers `caches` one after the other and stops at the first whose
    /// tag is taken: that entry and those behind it are not registered.
    pub fn add_caches(&mut self, caches: Vec<(ServiceType, Handler)>) -> (added: Result<(), RegistrationError>)
        ensures
            final(self).state == old(self).state,
            final(self).caches_handlers@ == CacheHandlers::spec_add_all(old(self).caches_handlers@, caches@).0,
            match CacheHandlers::spec_add_all(old(self).caches_handlers@, caches@).1 {
                Some(collision) => added == Err::<(), RegistrationError>(collision),
                None => added is Ok,
            },
    {
        let ghost entries = caches@;
        proof {
            assert(entries.skip(0) =~= entries);
        }
        for entry in it: caches
            invariant
                self.state == old(self).state,
                it.seq() == entries,
                CacheHandlers::spec_add_all(self.caches_handlers@, entries.skip(it.index() as int))
                    == CacheHandlers::spec_add_all(old(self).caches_handlers@, entries),
        {
            let (service_type, handler) = entry;
            proof {
                let rest = entries.skip(it.index() as int);
                assert(rest[0] == (service_type, handler));
                assert(rest.skip(1) =~= entries.skip(it.index() + 1));
            }
            match self.caches_handlers.add_cache(service_type, handler) {
                Err(collision) => {
                    return Err(collision);
                },
                Ok(()) => {},
            }
        }
        Ok(())
    }

    /// Handles one event of `service_type`: takes a snapshot of the source
    /// registered under the tag, converts it, retains the payload in the
    /// cache and then broadcasts it. An event whose tag has no source, or
    /// whose snapshot has no wire representation, is passed over.
    pub fn handle_single_event(
        &self,
        service_type: ServiceType,
        data_chans: &FanoutChannels,
        data_cache: &mut GrpcDataCache,
    ) -> (sent: Option<Broadcast>)
        ensures
            match spec_payload_for(self.caches_handlers@, service_type) {
                Some(payload) => {
                    &&& sent matches Some(broadcast)
                    &&& broadcast@.service_type == service_type
                    &&& broadcast@.payload == payload
                    &&& broadcast@.receivers != Some(0usize)
                    &&& final(data_cache)@ == old(data_cache)@.insert(service_type, payload)
                },
                None => sent is None && final(data_cache)@ == old(data_cache)@,
            },
    {
        match self.caches_handlers.get(service_type) {
            None => None,
            Some(handler) => {
                let data = handler.fetch();
                Server::handle_new_data(service_type, &data, data_chans, data_cache)
            },
        }
    }

    /// Drains `queue` and handles its events in insertion order. Returns the
    /// broadcasts that were made, in that order.
    pub fn handle_events(&self, queue: &mut EventQ, data_chans: &FanoutChannels, data_cache: &mut GrpcDataCache) -> (sent:
        Vec<Broadcast>)
        ensures
            final(queue)@ == old(queue)@.drain(),
            spec_records(self.caches_handlers@, old(queue)@.events, sent@),
            final(data_cache)@ == spec_cache_after(self.caches_handlers@, old(data_cache)@, old(queue)@.events),
    {
        let events = queue.drain();
        let mut sent: Vec<Broadcast> = Vec::new();
        let mut i: usize = 0;
        proof {
            data_cache.lemma_total();
            assert(events@.take(0) =~= Seq::<Event>::empty());
            assert(spec_dispatched(self.caches_handlers@, events@.take(0)) =~= Seq::<ServiceType>::empty());
            assert(sent@.map_values(|b: Broadcast| b@.service_type) =~= Seq::<ServiceType>::empty());
            assert(data_cache@ =~= spec_cache_after(self.caches_handlers@, old(data_cache)@, events@.take(0)));
        }
        while i < events.len()
            invariant
                i <= events.len(),
                spec_records(self.caches_handlers@, events@.take(i as int), sent@),
                data_cache@ == spec_cache_after(self.caches_handlers@, old(data_cache)@, events@.take(i as int)),
            decreases events.len() - i,
        {
            let ghost before = sent@;
            let ghost cache_before = data_cache@;
            let service_type = events[i].service_type;
            let outcome = self.handle_single_event(service_type, data_chans, data_cache);
            match outcome {
                Some(broadcast) => {
                    sent.push(broadcast);
                },
                None => {},
            }
            proof {
                lemma_dispatched_step(self.caches_handlers@, events@, i as int);
                let grown = spec_dispatched(self.caches_handlers@, events@.take(i + 1));
                let prior = spec_dispatched(self.caches_handlers@, events@.take(i as int));
                if outcome is Some {
                    assert(sent@.map_values(|b: Broadcast| b@.service_type) =~= before.map_values(
                        |b: Broadcast| b@.service_type,
                    ).push(service_type));
                    assert forall|s: ServiceType| grown.contains(s) <==> (prior.contains(s) || s == service_type) by {
                        if prior.contains(s) {
                            let k = choose|k: int| 0 <= k < prior.len() && prior[k] == s;
                            assert(grown[k] == s);
                        }
                        assert(grown[grown.len() - 1] == service_type);
                    }
                }
                assert(data_cache@ =~= spec_cache_after(
                    self.caches_handlers@,
                    old(data_cache)@,
                    events@.take(i + 1),
                ));
            }
            i += 1;
        }
        proof {
            assert(events@.take(events@.len() as int) =~= events@);
        }
        sent
    }

    /// One turn of the dispatcher. From `Idle`, the queue's signal leads to
    /// `Draining` and shutdown ends the dispatcher. In `Draining` the queue
    /// is drained, its events are handled, and the dispatcher is `Idle`
    /// again. Events that are pushed meanwhile raise the signal anew, so
    /// none is lost. Returns the broadcasts that the turn made.
    pub fn wait_event(
        &mut self,
        wake: FetcherWake,
        queue: &mut EventQ,
        data_chans: &FanoutChannels,
        data_cache: &mut GrpcDataCache,
    ) -> (sent: Vec<Broadcast>)
        ensures
            final(self).state == old(self).state.step(wake),
            final(self).caches_handlers == old(self).caches_handlers,
            old(self).state.drains(wake) ==> {
                &&& final(queue)@ == old(queue)@.drain()
                &&& spec_records(old(self).caches_handlers@, old(queue)@.events, sent@)
                &&& final(data_cache)@ == spec_cache_after(
                    old(self).caches_handlers@,
                    old(data_cache)@,
                    old(queue)@.events,
                )
            },
            !old(self).state.drains(wake) ==> {
                &&& final(queue)@ == old(queue)@
                &&& sent@.len() == 0
                &&& final(data_cache)@ == old(data_cache)@
            },
    {
        match self.state {
            FetcherState::Terminated => Vec::new(),
            FetcherState::Idle => {
                match wake {
                    FetcherWake::Shutdown => {
                        self.state = FetcherState::Terminated;
                    },
                    FetcherWake::Notified => {
                        self.state = FetcherState::Draining;
                    },
                    FetcherWake::Drain => {},
                }
                Vec::new()
            },
            FetcherState::Draining => match wake {
                FetcherWake::Shutdown => {
                    self.state = FetcherState::Terminated;
                    Vec::new()
                },
                FetcherWake::Notified => Vec::new(),
                FetcherWake::Drain => {
                    let sent = self.handle_events(queue, data_chans, data_cache);
                    self.state = FetcherState::Idle;
                    sent
                },
            },
        }
    }
}

/// Dispatching one more event appends its tag if it has a payload.
pub proof fn lemma_dispatched_step(handlers: Map<ServiceType, Option<Handler>>, events: Seq<Event>, i: int)
    requires
        0 <= i < events.len(),
    ensures
        spec_dispatched(handlers, events.take(i + 1)) == if spec_payload_for(handlers, events[i].service_type) is Some {
            spec_dispatched(handlers, events.take(i)).push(events[i].service_type)
        } else {
            spec_dispatched(handlers, events.take(i))
        },
{
    let tags = events.take(i + 1).map_values(|e: Event| e.service_type);
    let pred = |s: ServiceType| spec_payload_for(handlers, s) is Some;
    assert(tags.drop_last() =~= events.take(i).map_values(|e: Event| e.service_type));
    assert(tags.last() == events[i].service_type);
    reveal(Seq::filter);
    assert(tags.filter(pred) == if pred(tags.last()) {
        tags.drop_last().filter(pred).push(tags.last())
    } else {
        tags.drop_last().filter(pred)
    });
}

/// A source with a payload is broadcast once for each of its events, a
/// source without one never.
pub proof fn lemma_dispatched_count(
    handlers: Map<ServiceType, Option<Handler>>,
    events: Seq<Event>,
    service_type: ServiceType,
)
    ensures
        spec_count(spec_dispatched(handlers, events), service_type) == if spec_payload_for(handlers, service_type) is Some {
            spec_count(spec_tags(events), service_type)
        } else {
            0
        },
    decreases events.len(),
{
    let is_tag = spec_is_tag(service_type);
    reveal(Seq::filter);
    if events.len() > 0 {
        let n = events.len() as int;
        let last = events.last().service_type;
        lemma_dispatched_count(handlers, events.drop_last(), service_type);
        lemma_dispatched_step(handlers, events, n - 1);
        assert(events.take(n) =~= events);
        assert(events.take(n - 1) =~= events.drop_last());
        assert(spec_tags(events).drop_last() =~= spec_tags(events.drop_last()));
        assert(spec_tags(events).last() == last);
        let shorter = spec_dispatched(handlers, events.drop_last());
        if spec_payload_for(handlers, last) is Some {
            assert(shorter.push(last).drop_last() =~= shorter);
        }
    }
}

/// Coalescing. Let the dispatcher be paused while events are pushed, `k` of
/// them (at least one) with the tag `service_type`, in any interleaving
/// with events of other sources, and let none of that tag have been queued
/// before. Then a wake-up is pending and no event is lost; and when the
/// dispatcher resumes and drains the queue, it broadcasts at least once and
/// at most `k` times for that tag, and the cache then holds for it the
/// converted snapshot of the source as it is at that time. This is stated
/// of a source that is registered and whose snapshot has a wire
/// representation: for any other nothing is broadcast.
pub proof fn lemma_coalescing(
    handlers: Map<ServiceType, Option<Handler>>,
    cache: Map<ServiceType, GrpcDataView>,
    queue: EventQView,
    pushed: Seq<Event>,
    service_type: ServiceType,
    k: nat,
)
    requires
        k >= 1,
        spec_count(spec_tags(queue.events), service_type) == 0,
        spec_count(spec_tags(pushed), service_type) == k,
        spec_payload_for(handlers, service_type) is Some,
    ensures
        queue.push_all(pushed).notified,
        queue.push_all(pushed).events == queue.events + pushed,
        1 <= spec_count(spec_dispatched(handlers, queue.push_all(pushed).events), service_type) <= k,
        spec_cache_after(handlers, cache, queue.push_all(pushed).events)[service_type] == spec_payload_for(
            handlers,
            service_type,
        ).unwrap(),
{
    let is_tag = spec_is_tag(service_type);
    let all = queue.events + pushed;
    lemma_push_all(queue, pushed);
    if pushed.len() == 0 {
        reveal(Seq::filter);
        assert(spec_tags(pushed).filter(is_tag).len() == 0);
    }
    assert(spec_tags(all) =~= spec_tags(queue.events) + spec_tags(pushed));
    Seq::filter_distributes_over_add(spec_tags(queue.events), spec_tags(pushed), is_tag);
    lemma_dispatched_count(handlers, all, service_type);
    let dispatched = spec_dispatched(handlers, all);
    assert(spec_count(dispatched, service_type) == k);
    let hits = dispatched.filter(is_tag);
    assert(hits.contains(hits[0]));
    dispatched.lemma_filter_contains_rev(is_tag, hits[0]);
    dispatched.lemma_filter_pred(is_tag, 0);
    assert(dispatched.contains(service_type));
}

} // verus!
