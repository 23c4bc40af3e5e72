//! The disk source: the inventory of block devices.

use crate::caches::ProducerState;
use crate::public::event_queue::{Event, EventQ};
use crate::public::{DiskEntry, DiskRecord, DiskServiceData, ServiceData, ServiceDataView, ServiceType};
use vstd::prelude::*;

pub mod fetcher;

verus! {

/// The tag that this source publishes under.
pub const THIS_TYPE: ServiceType = ServiceType::DISK;

/// Time between two scans of the host, in milliseconds.
pub const PERIOD_MS: u64 = 5000;

/// The state of the source: the inventory of the last scan.
#[derive(Debug)]
pub struct DiskCacheData {
    disks: Vec<DiskEntry>,
}

impl View for DiskCacheData {
    type V = Seq<DiskRecord>;

    closed spec fn view(&self) -> Seq<DiskRecord> {
        self.disks@.map_values(|d: DiskEntry| d@)
    }
}

impl DiskCacheData {
    pub fn new() -> (data: Self)
        ensures
            data@ == Seq::<DiskRecord>::empty(),
    {
        let data = DiskCacheData { disks: Vec::new() };
        assert(data@ =~= Seq::<DiskRecord>::empty());
        data
    }

    /// Replaces the inventory.
    pub fn store(&mut self, inventory: DiskServiceData)
        ensures
            final(self)@ == inventory@,
    {
        self.disks = inventory.disks;
    }

    /// A copy of the inventory.
    pub fn load(&self) -> (inventory: DiskServiceData)
        ensures
            inventory@ == self@,
    {
        let disks = self.disks.clone();
        assert(disks@ =~= self.disks@);
        DiskServiceData { disks }
    }

    /// Whether `inventory` lists the same records in the same order.
    pub fn holds(&self, inventory: &DiskServiceData) -> (same: bool)
        ensures
            same == (self@ == inventory@),
    {
        if self.disks.len() != inventory.disks.len() {
            assert(self@.len() != inventory@.len());
            return false;
        }
        let mut i: usize = 0;
        while i < self.disks.len()
            invariant
                i <= self.disks.len(),
                self.disks.len() == inventory.disks.len(),
                forall|j: int| 0 <= j < i ==> self@[j] == inventory@[j],
            decreases self.disks.len() - i,
        {
            if !same_entry(&self.disks[i], &inventory.disks[i]) {
                assert(self@[i as int] != inventory@[i as int]);
                return false;
            }
            i += 1;
        }
        assert(self@ =~= inventory@);
        true
    }
}

fn same_entry(a: &DiskEntry, b: &DiskEntry) -> (same: bool)
    ensures
        same == (a@ == b@),
{
    a.name == b.name && a.size == b.size && a.uuid == b.uuid && a.mounted == b.mounted && a.mount_point
        == b.mount_point && a.label == b.label
}

/// The read side of the source.
#[derive(Debug)]
pub struct DiskCacheHandler {
    pub service_type: ServiceType,
    pub data: DiskCacheData,
}

impl DiskCacheHandler {
    /// What `fetch` returns now.
    pub open spec fn snapshot(self) -> ServiceDataView {
        ServiceDataView::Disk(self.data@)
    }

    /// A snapshot of the inventory. The state is not touched.
    pub fn fetch(&self) -> (snapshot: ServiceData)
        ensures
            snapshot@ == self.snapshot(),
    {
        ServiceData::Disk(self.data.load())
    }

    pub fn get_type(&self) -> (service_type: ServiceType)
        ensures
            service_type == self.service_type,
    {
        self.service_type
    }
}

/// What wakes the producer.
#[derive(Debug)]
pub enum Wake {
    /// A scan of the host has finished with this inventory.
    Scanned(DiskServiceData),
    /// The shutdown signal is up.
    Shutdown,
}

/// The producer of the source, as a state machine that its task drives.
#[derive(Debug)]
pub struct DataGenerator {
    pub state: ProducerState,
}

impl DataGenerator {
    /// The state that a wake leads to from `state`.
    pub open spec fn spec_step(state: ProducerState, shutdown: bool) -> ProducerState {
        if state == ProducerState::Stopped || shutdown {
            ProducerState::Stopped
        } else {
            ProducerState::Running
        }
    }

    /// Whether a scan that found `scanned` is published by a producer in
    /// `state` that holds `held`: the first scan always is, a later one
    /// where the inventory has changed.
    pub open spec fn spec_publishes(state: ProducerState, held: Seq<DiskRecord>, scanned: Seq<DiskRecord>) -> bool {
        match state {
            ProducerState::Created => true,
            ProducerState::Running => held != scanned,
            ProducerState::Stopped => false,
        }
    }

    /// Whether `wake` makes a producer in `state` that holds `held` store
    /// an inventory and push an event.
    pub open spec fn spec_stores(state: ProducerState, held: Seq<DiskRecord>, wake: Wake) -> bool {
        match wake {
            Wake::Scanned(inventory) => Self::spec_publishes(state, held, inventory@),
            Wake::Shutdown => false,
        }
    }

    pub fn new() -> (generator: Self)
        ensures
            generator.state == ProducerState::Created,
    {
        DataGenerator { state: ProducerState::Created }
    }

    /// One turn of the producer. The first scan is the initial population:
    /// its inventory is stored and one event with this source's tag is
    /// pushed, to prime the pipeline. A later scan is stored, and an event
    /// pushed, where it differs from the inventory that is held; a scan
    /// that found nothing new changes nothing. Shutdown stops the producer
    /// for good. Returns whether a push raised the queue's signal.
    pub fn run(&mut self, wake: Wake, data: &mut DiskCacheData, queue: &mut EventQ) -> (raised: bool)
        ensures
            final(self).state == Self::spec_step(old(self).state, wake is Shutdown),
            Self::spec_stores(old(self).state, old(data)@, wake) ==> {
                &&& final(data)@ == wake->Scanned_0@
                &&& final(queue)@ == old(queue)@.push(Event { service_type: THIS_TYPE })
                &&& raised == !old(queue)@.notified
            },
            !Self::spec_stores(old(self).state, old(data)@, wake) ==> {
                &&& final(data)@ == old(data)@
                &&& final(queue)@ == old(queue)@
                &&& !raised
            },
    {
        if self.state.is_stopped() {
            return false;
        }
        match wake {
            Wake::Shutdown => {
                self.state = ProducerState::Stopped;
                false
            },
            Wake::Scanned(inventory) => {
                let first = match self.state {
                    ProducerState::Created => true,
                    _ => false,
                };
                self.state = ProducerState::Running;
                if first || !data.holds(&inventory) {
                    data.store(inventory);
                    queue.push(Event { service_type: THIS_TYPE })
                } else {
                    false
                }
            },
        }
    }
}

/// The producer side of the source.
#[derive(Debug)]
pub struct DiskCache {
    pub service_type: ServiceType,
}

impl DiskCache {
    /// The source, as its two sides: the producer side and the read side,
    /// which holds an empty inventory.
    pub fn new() -> (sides: (Self, DiskCacheHandler))
        ensures
            sides.0.service_type == THIS_TYPE,
            sides.1.service_type == THIS_TYPE,
            sides.1.data@ == Seq::<DiskRecord>::empty(),
    {
        (DiskCache { service_type: THIS_TYPE }, DiskCacheHandler { service_type: THIS_TYPE, data: DiskCacheData::new() })
    }

    /// The producer that the task of this source drives.
    pub fn run(&self) -> (generator: DataGenerator)
        ensures
            generator.state == ProducerState::Created,
    {
        DataGenerator::new()
    }

    pub fn get_type(&self) -> (service_type: ServiceType)
        ensures
            service_type == self.service_type,
    {
        self.service_type
    }
}

} // verus!
