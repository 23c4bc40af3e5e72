//! Wire payloads of the streaming interface, as plain values.

use crate::public::DiskRecord;
use vstd::prelude::*;

verus! {

/// One disk as it is sent to a subscriber.
#[derive(Debug, PartialEq, Eq)]
pub struct Disk {
    pub name: String,
    pub size: u64,
    pub uuid: String,
    pub mounted: bool,
    pub mount_point: String,
    pub label: String,
}

impl View for Disk {
    type V = DiskRecord;

    open spec fn view(&self) -> DiskRecord {
        DiskRecord {
            name: self.name@,
            size: self.size,
            uuid: self.uuid@,
            mounted: self.mounted,
            mount_point: self.mount_point@,
            label: self.label@,
        }
    }
}

impl Clone for Disk {
    fn clone(&self) -> (copy: Self)
        ensures
            copy == *self,
    {
        Disk {
            name: self.name.clone(),
            size: self.size,
            uuid: self.uuid.clone(),
            mounted: self.mounted,
            mount_point: self.mount_point.clone(),
            label: self.label.clone(),
        }
    }
}

/// One item of the disk stream: the whole inventory.
#[derive(Debug, PartialEq, Eq)]
pub struct DiskListAndWatchResponse {
    pub disks: Vec<Disk>,
}

impl View for DiskListAndWatchResponse {
    type V = Seq<DiskRecord>;

    open spec fn view(&self) -> Seq<DiskRecord> {
        self.disks@.map_values(|d: Disk| d@)
    }
}

impl Clone for DiskListAndWatchResponse {
    fn clone(&self) -> (copy: Self)
        ensures
            copy.disks@ == self.disks@,
            copy@ == self@,
    {
        let disks = self.disks.clone();
        assert(disks@ =~= self.disks@);
        DiskListAndWatchResponse { disks }
    }
}

} // verus!
