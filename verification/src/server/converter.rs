//! Conversion of source snapshots to wire payloads.

use crate::public::{DiskEntry, DiskRecord, DiskServiceData, PreservedServiceData, ServiceData, ServiceDataView, ServiceType};
use crate::server::api_rpc::{Disk, DiskListAndWatchResponse};
use crate::server::server::{GrpcData, GrpcDataView};
use vstd::prelude::*;

verus! {

/// The payload that a snapshot taken from the source `service_type` is sent
/// as, or `None` where it has no wire representation. Only the disk source
/// has one, and only for a disk inventory: the payload lists the same
/// records in the same order.
pub open spec fn spec_convert_for(service_type: ServiceType, data: ServiceDataView) -> Option<GrpcDataView> {
    match (service_type, data) {
        (ServiceType::DISK, ServiceDataView::Disk(disks)) => Some(GrpcDataView::Disk(disks)),
        _ => None,
    }
}

/// The view of an optional payload.
pub open spec fn payload_view(payload: Option<GrpcData>) -> Option<GrpcDataView> {
    match payload {
        Some(p) => Some(p@),
        None => None,
    }
}

fn disk_to_wire(info: &DiskEntry) -> (disk: Disk)
    ensures
        disk@ == info@,
{
    Disk {
        name: info.name.clone(),
        size: info.size,
        uuid: info.uuid.clone(),
        mounted: info.mounted,
        mount_point: info.mount_point.clone(),
        label: info.label.clone(),
    }
}

/// The placeholder source has no wire representation.
pub fn preserved_to_disk_list_and_watch_response(_data: &PreservedServiceData) -> (response: Option<
    DiskListAndWatchResponse,
>)
    ensures
        response is None,
{
    None
}

/// The disk inventory as a stream item: one wire record per disk, in order.
pub fn data_to_disk_list_and_watch_response(data: &DiskServiceData) -> (response: Option<
    DiskListAndWatchResponse,
>)
    ensures
        response matches Some(r) && r@ == data@,
{
    let mut disks: Vec<Disk> = Vec::new();
    let mut i: usize = 0;
    while i < data.disks.len()
        invariant
            i <= data.disks.len(),
            disks@.len() == i,
            forall|j: int| 0 <= j < i ==> (#[trigger] disks@[j])@ == data.disks@[j]@,
        decreases data.disks.len() - i,
    {
        disks.push(disk_to_wire(&data.disks[i]));
        i += 1;
    }
    let response = DiskListAndWatchResponse { disks };
    assert(response@ =~= data@);
    Some(response)
}

/// Converts the snapshot that the source `service_type` returned.
pub fn convert_for(service_type: ServiceType, data: &ServiceData) -> (payload: Option<GrpcData>)
    ensures
        payload_view(payload) == spec_convert_for(service_type, data@),
{
    match service_type {
        ServiceType::DISK => match data {
            ServiceData::Disk(disks) => match data_to_disk_list_and_watch_response(disks) {
                Some(response) => Some(GrpcData::Disk(response)),
                None => None,
            },
            ServiceData::Preserved(preserved) => match preserved_to_disk_list_and_watch_response(preserved) {
                Some(response) => Some(GrpcData::Disk(response)),
                None => None,
            },
            ServiceData::Empty => None,
        },
        ServiceType::_PRESERVED => None,
    }
}

/// Conversion is a function of the tag and the snapshot alone: equal
/// snapshots of one source convert to equal payloads.
pub proof fn lemma_convert_deterministic(service_type: ServiceType, first: ServiceDataView, second: ServiceDataView)
    requires
        first == second,
    ensures
        spec_convert_for(service_type, first) == spec_convert_for(service_type, second),
{
}

} // verus!
