use picontrolx::public::ServiceType;
use picontrolx::server::api_rpc::{Disk, DiskListAndWatchResponse};
use picontrolx::server::server::{GrpcData, GrpcDataCache};

fn sample_disk(name: &str) -> Disk {
    Disk {
        name: name.to_string(),
        size: 1024,
        uuid: "u1".to_string(),
        mounted: true,
        mount_point: "/mnt".to_string(),
        label: "L1".to_string(),
    }
}

#[test]
fn cache_starts_empty_for_every_source() {
    let cache = GrpcDataCache::new();
    assert_eq!(cache.get(ServiceType::DISK), GrpcData::Empty);
    assert_eq!(cache.get(ServiceType::_PRESERVED), GrpcData::Empty);
}

#[test]
fn cache_update_replaces_one_entry() {
    let mut cache = GrpcDataCache::new();
    let payload = GrpcData::Disk(DiskListAndWatchResponse { disks: vec![sample_disk("sda")] });
    cache.update(ServiceType::DISK, payload.clone());
    assert_eq!(cache.get(ServiceType::DISK), payload);
    assert_eq!(cache.get(ServiceType::_PRESERVED), GrpcData::Empty);
}
