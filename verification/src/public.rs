//! Vocabulary shared by every component: source tags and source snapshots.

use vstd::prelude::*;

pub mod event_queue;
pub mod shutdown;

verus! {

/// Tag of a resource provider. The set of tags is closed; `ServiceType::LEN`
/// of them exist and every per-source table has exactly that many slots.
#[allow(non_camel_case_types)]
#[derive(Clone, Copy, Debug, PartialEq, Eq, Structural)]
pub enum ServiceType {
    _PRESERVED,
    DISK,
}

impl ServiceType {
    /// Number of tags.
    pub const LEN: usize = 2;

    /// Slot of this tag, as a mathematical integer.
    pub open spec fn spec_index(self) -> int {
        match self {
            ServiceType::_PRESERVED => 0,
            ServiceType::DISK => 1,
        }
    }

    /// The tag that owns slot `i`, for `0 <= i < LEN`.
    pub open spec fn spec_from_index(i: int) -> ServiceType {
        if i == 0 {
            ServiceType::_PRESERVED
        } else {
            ServiceType::DISK
        }
    }

    /// Slot of this tag in a per-source table.
    pub fn index(self) -> (i: usize)
        ensures
            i == self.spec_index(),
            i < ServiceType::LEN,
    {
        match self {
            ServiceType::_PRESERVED => 0,
            ServiceType::DISK => 1,
        }
    }

    /// The tag of slot `i`, or `None` when `i` is no slot.
    pub fn from_index(i: usize) -> (tag: Option<ServiceType>)
        ensures
            i < ServiceType::LEN ==> tag == Some(ServiceType::spec_from_index(i as int)),
            i >= ServiceType::LEN ==> tag is None,
    {
        if i == 0 {
            Some(ServiceType::_PRESERVED)
        } else if i == 1 {
            Some(ServiceType::DISK)
        } else {
            None
        }
    }
}

/// Snapshot of the placeholder source: a counter.
#[derive(Clone, Copy, Debug, PartialEq, Eq, Structural)]
pub struct PreservedServiceData {
    pub data: u32,
}

/// What is known of one disk, as a mathematical record.
pub struct DiskRecord {
    pub name: Seq<char>,
    pub size: u64,
    pub uuid: Seq<char>,
    pub mounted: bool,
    pub mount_point: Seq<char>,
    pub label: Seq<char>,
}

/// One disk of the inventory.
#[derive(Debug, PartialEq, Eq)]
pub struct DiskEntry {
    pub name: String,
    pub size: u64,
    pub uuid: String,
    pub mounted: bool,
    pub mount_point: String,
    pub label: String,
}

impl View for DiskEntry {
    type V = DiskRecord;

    open spec fn view(&self) -> DiskRecord {
        DiskRecord {
            name: self.name@,
            size: self.size,
            uuid: self.uuid@,
            mounted: self.mounted,
            mount_point: self.mount_point@,
            label: self.label@,
        }
    }
}

impl Clone for DiskEntry {
    fn clone(&self) -> (copy: Self)
        ensures
            copy == *self,
    {
        DiskEntry {
            name: self.name.clone(),
            size: self.size,
            uuid: self.uuid.clone(),
            mounted: self.mounted,
            mount_point: self.mount_point.clone(),
            label: self.label.clone(),
        }
    }
}

/// Snapshot of the disk source: the inventory, in discovery order.
#[derive(Debug, PartialEq, Eq)]
pub struct DiskServiceData {
    pub disks: Vec<DiskEntry>,
}

impl View for DiskServiceData {
    type V = Seq<DiskRecord>;

    open spec fn view(&self) -> Seq<DiskRecord> {
        self.disks@.map_values(|d: DiskEntry| d@)
    }
}

impl Clone for DiskServiceData {
    fn clone(&self) -> (copy: Self)
        ensures
            copy.disks@ == self.disks@,
            copy@ == self@,
    {
        let disks = self.disks.clone();
        assert(disks@ =~= self.disks@);
        DiskServiceData { disks }
    }
}

/// A source snapshot as a mathematical value.
pub enum ServiceDataView {
    Empty,
    Preserved(PreservedServiceData),
    Disk(Seq<DiskRecord>),
}

/// An immutable copy of one source's state at one instant.
#[derive(Debug, PartialEq, Eq)]
pub enum ServiceData {
    Empty,
    Preserved(PreservedServiceData),
    Disk(DiskServiceData),
}

impl View for ServiceData {
    type V = ServiceDataView;

    open spec fn view(&self) -> ServiceDataView {
        match self {
            ServiceData::Empty => ServiceDataView::Empty,
            ServiceData::Preserved(p) => ServiceDataView::Preserved(*p),
            ServiceData::Disk(d) => ServiceDataView::Disk(d@),
        }
    }
}

impl Clone for ServiceData {
    fn clone(&self) -> (copy: Self)
        ensures
            copy@ == self@,
    {
        match self {
            ServiceData::Empty => ServiceData::Empty,
            ServiceData::Preserved(p) => ServiceData::Preserved(*p),
            ServiceData::Disk(d) => ServiceData::Disk(d.clone()),
        }
    }
}

} // verus!
