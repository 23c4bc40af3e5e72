use picontrolx::public::{DiskEntry, DiskServiceData, PreservedServiceData, ServiceData, ServiceType};
use picontrolx::server::api_rpc::{Disk, DiskListAndWatchResponse};
use picontrolx::server::converter::{
    convert_for, data_to_disk_list_and_watch_response, preserved_to_disk_list_and_watch_response,
};
use picontrolx::server::fanout::{Broadcast, FanoutChannels};
use picontrolx::server::server::{GrpcData, GrpcDataCache, Server};
use tokio::sync::broadcast::error::TryRecvError;

fn told(sent: &Broadcast) -> (ServiceType, Option<usize>, GrpcData) {
    (sent.service_type(), sent.receivers(), sent.payload().clone())
}

fn inventory() -> DiskServiceData {
    DiskServiceData {
        disks: vec![
            DiskEntry {
                name: "sda1".to_string(),
                size: 1024,
                uuid: "123-123-4123-123".to_string(),
                mounted: true,
                mount_point: "/mnt".to_string(),
                label: "label1".to_string(),
            },
            DiskEntry {
                name: "sdb1".to_string(),
                size: 0,
                uuid: String::new(),
                mounted: false,
                mount_point: String::new(),
                label: "label2".to_string(),
            },
        ],
    }
}

fn response() -> DiskListAndWatchResponse {
    DiskListAndWatchResponse {
        disks: vec![
            Disk {
                name: "sda1".to_string(),
                size: 1024,
                uuid: "123-123-4123-123".to_string(),
                mounted: true,
                mount_point: "/mnt".to_string(),
                label: "label1".to_string(),
            },
            Disk {
                name: "sdb1".to_string(),
                size: 0,
                uuid: String::new(),
                mounted: false,
                mount_point: String::new(),
                label: "label2".to_string(),
            },
        ],
    }
}

#[test]
fn the_inventory_converts_record_by_record() {
    assert_eq!(data_to_disk_list_and_watch_response(&inventory()), Some(response()));
    let empty = DiskServiceData { disks: Vec::new() };
    assert_eq!(
        data_to_disk_list_and_watch_response(&empty),
        Some(DiskListAndWatchResponse { disks: Vec::new() })
    );
}

#[test]
fn the_placeholder_has_no_wire_form() {
    assert_eq!(preserved_to_disk_list_and_watch_response(&PreservedServiceData { data: 7 }), None);
}

#[test]
fn only_a_disk_snapshot_of_the_disk_source_converts() {
    let disk = ServiceData::Disk(inventory());
    let preserved = ServiceData::Preserved(PreservedServiceData { data: 7 });
    assert_eq!(convert_for(ServiceType::DISK, &disk), Some(GrpcData::Disk(response())));
    assert_eq!(convert_for(ServiceType::DISK, &preserved), None);
    assert_eq!(convert_for(ServiceType::DISK, &ServiceData::Empty), None);
    assert_eq!(convert_for(ServiceType::_PRESERVED, &disk), None);
    assert_eq!(convert_for(ServiceType::_PRESERVED, &preserved), None);
    assert_eq!(convert_for(ServiceType::_PRESERVED, &ServiceData::Empty), None);
}

#[test]
fn conversion_is_deterministic() {
    let disk = ServiceData::Disk(inventory());
    assert_eq!(convert_for(ServiceType::DISK, &disk), convert_for(ServiceType::DISK, &disk));
    assert_eq!(convert_for(ServiceType::DISK, &disk), convert_for(ServiceType::DISK, &disk.clone()));
}

#[test]
fn new_data_is_written_to_the_cache_and_then_broadcast() {
    let chans = FanoutChannels::new();
    let mut cache = GrpcDataCache::new();
    let mut receiver = chans.subscribe(ServiceType::DISK);
    let mut other = chans.subscribe(ServiceType::_PRESERVED);
    let data = ServiceData::Disk(inventory());
    let sent = Server::handle_new_data(ServiceType::DISK, &data, &chans, &mut cache);
    assert_eq!(
        sent.as_ref().map(told),
        Some((ServiceType::DISK, Some(1), GrpcData::Disk(response())))
    );
    assert_eq!(cache.get(ServiceType::DISK), GrpcData::Disk(response()));
    assert_eq!(cache.get(ServiceType::_PRESERVED), GrpcData::Empty);
    assert_eq!(receiver.try_recv(), Ok(GrpcData::Disk(response())));
    assert_eq!(receiver.try_recv(), Err(TryRecvError::Empty));
    assert_eq!(other.try_recv(), Err(TryRecvError::Empty));
}

#[test]
fn new_data_without_wire_form_changes_nothing() {
    let chans = FanoutChannels::new();
    let mut cache = GrpcDataCache::new();
    let mut receiver = chans.subscribe(ServiceType::DISK);
    let preserved = ServiceData::Preserved(PreservedServiceData { data: 7 });
    assert_eq!(Server::handle_new_data(ServiceType::DISK, &preserved, &chans, &mut cache), None);
    assert_eq!(Server::handle_new_data(ServiceType::_PRESERVED, &preserved, &chans, &mut cache), None);
    let disk = ServiceData::Disk(inventory());
    assert_eq!(Server::handle_new_data(ServiceType::_PRESERVED, &disk, &chans, &mut cache), None);
    assert_eq!(cache.get(ServiceType::DISK), GrpcData::Empty);
    assert_eq!(cache.get(ServiceType::_PRESERVED), GrpcData::Empty);
    assert_eq!(receiver.try_recv(), Err(TryRecvError::Empty));
}

#[test]
fn a_send_without_receivers_still_reaches_the_cache() {
    let chans = FanoutChannels::new();
    let mut cache = GrpcDataCache::new();
    let data = ServiceData::Disk(inventory());
    let sent = Server::handle_new_data(ServiceType::DISK, &data, &chans, &mut cache);
    assert_eq!(sent.as_ref().map(told), Some((ServiceType::DISK, None, GrpcData::Disk(response()))));
    assert_eq!(cache.get(ServiceType::DISK), GrpcData::Disk(response()));
}

#[test]
fn fanout_counts_the_receivers_of_the_channel() {
    let chans = FanoutChannels::new();
    let payload = GrpcData::Disk(response());
    assert_eq!(chans.send(ServiceType::DISK, payload.clone()).receivers(), None);
    let mut first = chans.subscribe(ServiceType::DISK);
    let mut second = chans.subscribe(ServiceType::DISK);
    let sent = chans.send(ServiceType::DISK, payload.clone());
    assert_eq!(told(&sent), (ServiceType::DISK, Some(2), payload.clone()));
    assert_eq!(first.try_recv(), Ok(payload.clone()));
    assert_eq!(second.try_recv(), Ok(payload.clone()));
    // The other channel has no receiver.
    assert_eq!(chans.send(ServiceType::_PRESERVED, payload).receivers(), None);
    drop(first);
    drop(second);
    assert_eq!(chans.send(ServiceType::DISK, GrpcData::Empty).receivers(), None);
}

#[test]
fn fanout_retains_two_payloads_for_a_lagging_receiver() {
    assert_eq!(FanoutChannels::CAPACITY, 2);
    let chans = FanoutChannels::new();
    let mut receiver = chans.subscribe(ServiceType::DISK);
    for size in 1..=3u64 {
        let mut r = response();
        r.disks[0].size = size;
        chans.send(ServiceType::DISK, GrpcData::Disk(r));
    }
    assert_eq!(receiver.try_recv(), Err(TryRecvError::Lagged(1)));
    let sizes: Vec<u64> = (0..2)
        .map(|_| match receiver.try_recv() {
            Ok(GrpcData::Disk(r)) => r.disks[0].size,
            other => panic!("unexpected {:?}", other),
        })
        .collect();
    assert_eq!(sizes, vec![2, 3]);
}

#[test]
fn a_receiver_sees_only_what_is_sent_after_it_subscribed() {
    let chans = FanoutChannels::new();
    let _keep = chans.subscribe(ServiceType::DISK);
    chans.send(ServiceType::DISK, GrpcData::Empty);
    let mut late = chans.subscribe(ServiceType::DISK);
    assert_eq!(late.try_recv(), Err(TryRecvError::Empty));
    chans.send(ServiceType::DISK, GrpcData::Disk(response()));
    assert_eq!(late.try_recv(), Ok(GrpcData::Disk(response())));
}

#[test]
fn a_server_starts_idle_and_empty() {
    let (server, mut handle) = Server::new("[::1]:50051".to_string());
    assert_eq!(server.addr, "[::1]:50051");
    assert_eq!(server.grpc_data_cache.get(ServiceType::DISK), GrpcData::Empty);
    assert!(server.fetcher.handler().get_cache_handler(ServiceType::DISK).is_none());
    assert!(server.fetcher.handler().get_cache_handler(ServiceType::_PRESERVED).is_none());
    assert!(!handle.shutdown.wait_on());
    assert!(!handle.shutdown());
    assert!(handle.shutdown.release());
}

#[test]
fn the_record_of_a_send_holds_what_was_sent() {
    let chans = FanoutChannels::new();
    let mut receiver = chans.subscribe(ServiceType::DISK);
    let sent = chans.send(ServiceType::DISK, GrpcData::Disk(response()));
    assert_eq!(sent.payload(), &GrpcData::Disk(response()));
    assert_eq!(receiver.try_recv().as_ref(), Ok(sent.payload()));
    let sent = chans.send(ServiceType::_PRESERVED, GrpcData::Empty);
    assert_eq!(told(&sent), (ServiceType::_PRESERVED, None, GrpcData::Empty));
}
