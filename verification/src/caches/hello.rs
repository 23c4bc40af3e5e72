//! The placeholder source: a counter that a timer advances.

use crate::caches::ProducerState;
use crate::public::event_queue::{Event, EventQ};
use crate::public::{PreservedServiceData, ServiceData, ServiceDataView, ServiceType};
use vstd::prelude::*;

verus! {

/// The tag that this source publishes under.
pub const THIS_TYPE: ServiceType = ServiceType::_PRESERVED;

/// Time between two ticks of the producer's timer, in milliseconds.
pub const PERIOD_MS: u64 = 5000;

/// The counter after `value`; it starts over after the largest value.
pub open spec fn spec_next(value: u32) -> u32 {
    if value == u32::MAX {
        0
    } else {
        (value + 1) as u32
    }
}

/// The state of the source.
#[derive(Debug)]
pub struct HelloCacheData {
    data: u32,
}

impl View for HelloCacheData {
    type V = u32;

    closed spec fn view(&self) -> u32 {
        self.data
    }
}

impl HelloCacheData {
    pub fn new() -> (data: Self)
        ensures
            data@ == 0,
    {
        HelloCacheData { data: 0 }
    }

    /// Advances the counter by one step.
    pub fn generate(&mut self)
        ensures
            final(self)@ == spec_next(old(self)@),
    {
        self.data = if self.data == u32::MAX {
            0
        } else {
            self.data + 1
        };
    }

    /// The counter.
    pub fn value(&self) -> (value: u32)
        ensures
            value == self@,
    {
        self.data
    }
}

/// The read side of the source.
#[derive(Debug)]
pub struct HelloCacheHandler {
    pub service_type: ServiceType,
    pub data: HelloCacheData,
}

impl HelloCacheHandler {
    /// What `fetch` returns now.
    pub open spec fn snapshot(self) -> ServiceDataView {
        ServiceDataView::Preserved(PreservedServiceData { data: self.data@ })
    }

    /// A snapshot of the counter. The state is not touched.
    pub fn fetch(&self) -> (snapshot: ServiceData)
        ensures
            snapshot@ == self.snapshot(),
    {
        ServiceData::Preserved(PreservedServiceData { data: self.data.value() })
    }

    pub fn get_type(&self) -> (service_type: ServiceType)
        ensures
            service_type == self.service_type,
    {
        self.service_type
    }
}

/// What wakes the producer.
#[derive(Clone, Copy, Debug, PartialEq, Eq, Structural)]
pub enum Wake {
    /// The producer task starts.
    Start,
    /// The timer fired.
    Tick,
    /// The shutdown signal is up.
    Shutdown,
}

/// The producer of the source, as a state machine that its task drives.
#[derive(Debug)]
pub struct DataGenerator {
    pub state: ProducerState,
}

impl DataGenerator {
    /// The state that `wake` leads to from `state`.
    pub open spec fn spec_step(state: ProducerState, wake: Wake) -> ProducerState {
        match (state, wake) {
            (ProducerState::Stopped, _) => ProducerState::Stopped,
            (_, Wake::Shutdown) => ProducerState::Stopped,
            (ProducerState::Created, Wake::Start) => ProducerState::Running,
            (ProducerState::Created, Wake::Tick) => ProducerState::Created,
            (ProducerState::Running, _) => ProducerState::Running,
        }
    }

    /// Whether `wake` in `state` publishes: the start primes the pipeline
    /// with the initial state, a tick publishes the next one.
    pub open spec fn spec_publishes(state: ProducerState, wake: Wake) -> bool {
        match (state, wake) {
            (ProducerState::Created, Wake::Start) => true,
            (ProducerState::Running, Wake::Tick) => true,
            _ => false,
        }
    }

    pub fn new() -> (generator: Self)
        ensures
            generator.state == ProducerState::Created,
    {
        DataGenerator { state: ProducerState::Created }
    }

    /// One turn of the producer. A tick while running advances the counter;
    /// the start and every tick push one event with this source's tag.
    /// Shutdown stops the producer for good. Returns whether the push
    /// raised the queue's signal.
    pub fn run(&mut self, wake: Wake, data: &mut HelloCacheData, queue: &mut EventQ) -> (raised: bool)
        ensures
            final(self).state == Self::spec_step(old(self).state, wake),
            final(data)@ == if old(self).state == ProducerState::Running && wake == Wake::Tick {
                spec_next(old(data)@)
            } else {
                old(data)@
            },
            final(queue)@ == if Self::spec_publishes(old(self).state, wake) {
                old(queue)@.push(Event { service_type: THIS_TYPE })
            } else {
                old(queue)@
            },
            raised == (Self::spec_publishes(old(self).state, wake) && !old(queue)@.notified),
    {
        match self.state {
            ProducerState::Stopped => false,
            ProducerState::Created => match wake {
                Wake::Shutdown => {
                    self.state = ProducerState::Stopped;
                    false
                },
                Wake::Start => {
                    self.state = ProducerState::Running;
                    queue.push(Event { service_type: THIS_TYPE })
                },
                Wake::Tick => false,
            },
            ProducerState::Running => match wake {
                Wake::Shutdown => {
                    self.state = ProducerState::Stopped;
                    false
                },
                Wake::Start => false,
                Wake::Tick => {
                    data.generate();
                    queue.push(Event { service_type: THIS_TYPE })
                },
            },
        }
    }
}

/// The producer side of the source.
#[derive(Debug)]
pub struct HelloCache {
    pub service_type: ServiceType,
}

impl HelloCache {
    /// The source, as its two sides: the producer side and the read side,
    /// which holds the initial state.
    pub fn new() -> (sides: (Self, HelloCacheHandler))
        ensures
            sides.0.service_type == THIS_TYPE,
            sides.1.service_type == THIS_TYPE,
            sides.1.data@ == 0,
    {
        (HelloCache { service_type: THIS_TYPE }, HelloCacheHandler { service_type: THIS_TYPE, data: HelloCacheData::new() })
    }

    /// The producer that the task of this source drives.
    pub fn run(&self) -> (generator: DataGenerator)
        ensures
            generator.state == ProducerState::Created,
    {
        DataGenerator::new()
    }

    pub fn get_type(&self) -> (service_type: ServiceType)
        ensures
            service_type == self.service_type,
    {
        self.service_type
    }
}

} // verus!
