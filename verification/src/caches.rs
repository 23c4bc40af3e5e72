//! The sources: their producers, their read handles and the manager that
//! starts the producers.

use crate::public::shutdown::{Signal, SignalView};
use crate::public::{ServiceData, ServiceDataView, ServiceType};
use vstd::prelude::*;

pub mod disk;
pub mod hello;

use disk::{DiskCache, DiskCacheHandler};
use hello::{HelloCache, HelloCacheHandler};

verus! {

/// Where a producer stands in its life.
#[derive(Clone, Copy, Debug, PartialEq, Eq, Structural)]
pub enum ProducerState {
    /// Made, its task not yet started.
    Created,
    /// Producing.
    Running,
    /// Stopped by shutdown; it never runs again.
    Stopped,
}

impl ProducerState {
    pub fn is_stopped(&self) -> (stopped: bool)
        ensures
            stopped == (*self == ProducerState::Stopped),
    {
        match self {
            ProducerState::Stopped => true,
            _ => false,
        }
    }
}

/// The read handle of a source, used by the dispatcher to fetch the current
/// value.
#[derive(Debug)]
pub enum Handler {
    Hello(HelloCacheHandler),
    Disk(DiskCacheHandler),
}

impl Handler {
    /// What `fetch` returns now.
    pub open spec fn snapshot(self) -> ServiceDataView {
        match self {
            Handler::Hello(handler) => handler.snapshot(),
            Handler::Disk(handler) => handler.snapshot(),
        }
    }

    /// The tag that the handle was made for.
    pub open spec fn spec_type(self) -> ServiceType {
        match self {
            Handler::Hello(handler) => handler.service_type,
            Handler::Disk(handler) => handler.service_type,
        }
    }

    /// A snapshot of the source's state, as an owned value. The state is not
    /// touched.
    pub fn fetch(&self) -> (snapshot: ServiceData)
        ensures
            snapshot@ == self.snapshot(),
    {
        match self {
            Handler::Hello(handler) => handler.fetch(),
            Handler::Disk(handler) => handler.fetch(),
        }
    }

    pub fn get_type(&self) -> (service_type: ServiceType)
        ensures
            service_type == self.spec_type(),
    {
        match self {
            Handler::Hello(handler) => handler.get_type(),
            Handler::Disk(handler) => handler.get_type(),
        }
    }
}

/// The producer of a source, as the state machine that its task drives.
#[derive(Debug)]
pub enum Producer {
    Hello(hello::DataGenerator),
    Disk(disk::DataGenerator),
}

impl Producer {
    pub open spec fn state(self) -> ProducerState {
        match self {
            Producer::Hello(generator) => generator.state,
            Producer::Disk(generator) => generator.state,
        }
    }
}

/// The producer side of a source.
#[derive(Debug)]
pub enum Cache {
    Hello(HelloCache),
    Disk(DiskCache),
}

impl Cache {
    /// The tag that the source was made for.
    pub open spec fn spec_type(self) -> ServiceType {
        match self {
            Cache::Hello(cache) => cache.service_type,
            Cache::Disk(cache) => cache.service_type,
        }
    }

    /// The producer that `run` makes.
    pub open spec fn spec_run(self) -> Producer {
        match self {
            Cache::Hello(_) => Producer::Hello(hello::DataGenerator { state: ProducerState::Created }),
            Cache::Disk(_) => Producer::Disk(disk::DataGenerator { state: ProducerState::Created }),
        }
    }

    /// The producer that the task of this source drives.
    pub fn run(&self) -> (producer: Producer)
        ensures
            producer == self.spec_run(),
    {
        match self {
            Cache::Hello(cache) => Producer::Hello(cache.run()),
            Cache::Disk(cache) => Producer::Disk(cache.run()),
        }
    }

    pub fn get_type(&self) -> (service_type: ServiceType)
        ensures
            service_type == self.spec_type(),
    {
        match self {
            Cache::Hello(cache) => cache.get_type(),
            Cache::Disk(cache) => cache.get_type(),
        }
    }
}

/// Why a source could not be registered.
#[derive(Clone, Copy, Debug, PartialEq, Eq, Structural)]
pub enum RegistrationError {
    /// A source is registered under this tag already.
    Collision(ServiceType),
}

/// What `CacheManager::run` hands back: the shutdown bus of the producers.
#[derive(Debug)]
pub struct CacheManagerHandler {
    pub shutdown: Signal,
}

impl CacheManagerHandler {
    /// Raises the shutdown signal of the producers. Returns whether every
    /// producer has released its receiver already.
    pub fn shutdown(&mut self) -> (drained: bool)
        ensures
            final(self).shutdown@ == old(self).shutdown@.shutdown(),
            drained == old(self).shutdown@.drained(),
    {
        self.shutdown.shutdown()
    }
}

/// The registry of producer sides, at most one per tag.
#[derive(Debug)]
pub struct CacheManager {
    caches: [Option<Cache>; ServiceType::LEN],
}

impl View for CacheManager {
    type V = Map<ServiceType, Option<Cache>>;

    closed spec fn view(&self) -> Map<ServiceType, Option<Cache>> {
        Map::new(|s: ServiceType| true, |s: ServiceType| self.caches@[s.spec_index()])
    }
}

impl CacheManager {
    /// The registry without any source.
    pub open spec fn spec_new() -> Map<ServiceType, Option<Cache>> {
        Map::new(|s: ServiceType| true, |s: ServiceType| None::<Cache>)
    }

    /// The producers of the registered sources, in the order of their tags.
    pub open spec fn spec_producers(registry: Map<ServiceType, Option<Cache>>) -> Seq<Producer> {
        Self::spec_producers_below(registry, ServiceType::LEN as int)
    }

    /// The producers of the sources registered in the first `n` slots.
    pub open spec fn spec_producers_below(registry: Map<ServiceType, Option<Cache>>, n: int) -> Seq<Producer>
        decreases n,
    {
        if n <= 0 {
            Seq::empty()
        } else {
            let rest = Self::spec_producers_below(registry, n - 1);
            match registry[ServiceType::spec_from_index(n - 1)] {
                Some(cache) => rest.push(cache.spec_run()),
                None => rest,
            }
        }
    }

    pub fn new() -> (manager: Self)
        ensures
            manager@ == Self::spec_new(),
    {
        let manager = CacheManager { caches: [None, None] };
        assert(manager@ =~= Self::spec_new());
        manager
    }

    /// Registers `cache` under `service_type`. A tag holds one source: a
    /// second registration under it is refused and changes nothing.
    pub fn add_cache(&mut self, service_type: ServiceType, cache: Cache) -> (added: Result<(), RegistrationError>)
        ensures
            old(self)@[service_type] is Some ==> added == Err::<(), RegistrationError>(
                RegistrationError::Collision(service_type),
            ) && final(self)@ == old(self)@,
            old(self)@[service_type] is None ==> added is Ok && final(self)@ == old(self)@.insert(
                service_type,
                Some(cache),
            ),
    {
        let idx = service_type.index();
        if self.caches[idx].is_some() {
            return Err(RegistrationError::Collision(service_type));
        }
        self.caches[idx] = Some(cache);
        assert(self@ =~= old(self)@.insert(service_type, Some(cache))) by {
            assert forall|s: ServiceType| #[trigger] self@[s] == old(self)@.insert(service_type, Some(cache))[s] by {
                if s != service_type {
                    assert(s.spec_index() != service_type.spec_index());
                }
            }
        }
        Ok(())
    }

    /// Makes the sources of this service, registers their producer sides and
    /// returns their read handles, each with its tag. Where one of their
    /// tags is taken, nothing is registered.
    pub fn create_caches(&mut self) -> (handlers: Result<Vec<(ServiceType, Handler)>, RegistrationError>)
        ensures
            old(self)@[hello::THIS_TYPE] is Some ==> handlers == Err::<Vec<(ServiceType, Handler)>, RegistrationError>(
                RegistrationError::Collision(hello::THIS_TYPE),
            ) && final(self)@ == old(self)@,
            old(self)@[hello::THIS_TYPE] is None && old(self)@[disk::THIS_TYPE] is Some ==> handlers == Err::<
                Vec<(ServiceType, Handler)>,
                RegistrationError,
            >(RegistrationError::Collision(disk::THIS_TYPE)) && final(self)@ == old(self)@,
            old(self)@[hello::THIS_TYPE] is None && old(self)@[disk::THIS_TYPE] is None ==> {
                &&& handlers matches Ok(list)
                &&& list@.len() == 2
                &&& list@[0].0 == hello::THIS_TYPE
                &&& list@[0].1 matches Handler::Hello(h)
                &&& h.service_type == hello::THIS_TYPE
                &&& h.data@ == 0
                &&& list@[1].0 == disk::THIS_TYPE
                &&& list@[1].1 matches Handler::Disk(d)
                &&& d.service_type == disk::THIS_TYPE
                &&& d.data@.len() == 0
                &&& final(self)@ == old(self)@.insert(
                    hello::THIS_TYPE,
                    Some(Cache::Hello(HelloCache { service_type: hello::THIS_TYPE })),
                ).insert(disk::THIS_TYPE, Some(Cache::Disk(DiskCache { service_type: disk::THIS_TYPE })))
            },
    {
        if self.caches[hello::THIS_TYPE.index()].is_some() {
            return Err(RegistrationError::Collision(hello::THIS_TYPE));
        }
        if self.caches[disk::THIS_TYPE.index()].is_some() {
            return Err(RegistrationError::Collision(disk::THIS_TYPE));
        }
        let mut ret: Vec<(ServiceType, Handler)> = Vec::new();

        let (cache, handler) = HelloCache::new();
        ret.push((handler.get_type(), Handler::Hello(handler)));
        let tag = cache.get_type();
        let added = self.add_cache(tag, Cache::Hello(cache));
        assert(added is Ok);

        let (cache, handler) = DiskCache::new();
        ret.push((handler.get_type(), Handler::Disk(handler)));
        let tag = cache.get_type();
        let added = self.add_cache(tag, Cache::Disk(cache));
        assert(added is Ok);

        Ok(ret)
    }

    /// Starts the producers: makes their shutdown bus and, for every
    /// registered source in the order of the tags, its producer with a
    /// receiver of the bus accounted for it. The registry is not changed.
    pub fn run(&mut self) -> (started: (CacheManagerHandler, Vec<Producer>))
        ensures
            final(self)@ == old(self)@,
            started.1@ == Self::spec_producers(old(self)@),
            started.0.shutdown@ == (SignalView { signalled: false, closed: false, receivers: started.1@.len() }),
    {
        let mut signal = Signal::new();
        let mut producers: Vec<Producer> = Vec::new();
        let mut i: usize = 0;
        while i < ServiceType::LEN
            invariant
                i <= ServiceType::LEN,
                *self == *old(self),
                producers@ == Self::spec_producers_below(self@, i as int),
                producers@.len() <= i,
                signal@ == (SignalView { signalled: false, closed: false, receivers: producers@.len() + 1 }),
            decreases ServiceType::LEN - i,
        {
            match &self.caches[i] {
                Some(cache) => {
                    signal.subscribe();
                    producers.push(cache.run());
                },
                None => {},
            }
            i += 1;
        }
        signal.release();
        (CacheManagerHandler { shutdown: signal }, producers)
    }
}

} // verus!
